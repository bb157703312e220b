//! The repository contract, and the rules that every repository applies.
//!
//! A repository answers five requests: list, read, create, delete, log in.
//! Whatever holds the records, the answer follows from what the records
//! are: the functions here take the records that a backend found and give
//! the answer. The spec functions describe a collection of records and how
//! the requests change it.

use vstd::prelude::*;
use crate::auth::clock::now;
use crate::auth::token::{binds, create_jwt_at, issued, out_of_range, TokenService};
use crate::user::errors::CustomError;
use crate::user::models::{
    summary,
    GetAllUserResponse,
    GetUserResponse,
    SummaryView,
    User,
    UserCredential,
    UserProfile,
    UserView,
};
use crate::user::password::{password_matches, verify_password};

verus! {

/// The storage-independent contract of a user repository.
///
/// Each implementation says, in the five `answers_` predicates, what it
/// answers to each request; code that is generic over the repository learns
/// of a call exactly that.
pub trait UserDbTrait: Sync + Send {
    /// Whether `r` answers a login with `credential`.
    spec fn answers_login(&self, credential: UserCredential, r: Result<UserProfile, CustomError>) -> bool;

    /// Whether `r` answers a listing.
    spec fn answers_get_all(&self, r: Result<GetAllUserResponse, CustomError>) -> bool;

    /// Whether `r` answers a read of `id`.
    spec fn answers_get_by_id(&self, id: Seq<char>, r: Result<GetUserResponse, CustomError>) -> bool;

    /// Whether `r` answers a request to create `user` that leaves the
    /// repository as `after`.
    spec fn answers_create(&self, user: UserView, r: Result<String, CustomError>, after: &Self) -> bool;

    /// Whether `r` answers a request to delete `id` that leaves the
    /// repository as `after`.
    spec fn answers_delete(&self, id: Seq<char>, r: Result<(), CustomError>, after: &Self) -> bool;

    /// Logs a user in by email and plaintext password.
    fn login(&self, credential: UserCredential) -> (r: Result<UserProfile, CustomError>)
        ensures
            self.answers_login(credential, r),
    ;

    /// Lists the public part of every record.
    fn get_all(&self) -> (r: Result<GetAllUserResponse, CustomError>)
        ensures
            self.answers_get_all(r),
    ;

    /// Reads the public part of the record with the identifier `id`.
    fn get_by_id(&self, id: &str) -> (r: Result<GetUserResponse, CustomError>)
        ensures
            self.answers_get_by_id(id@, r),
    ;

    /// Stores `user` and returns its identifier.
    fn create(&mut self, user: User) -> (r: Result<String, CustomError>)
        ensures
            old(self).answers_create(user@, r, final(self)),
    ;

    /// Removes the record with the identifier `id`.
    fn delete(&mut self, id: &str) -> (r: Result<(), CustomError>)
        ensures
            old(self).answers_delete(id@, r, final(self)),
    ;
}

/// The values of a list of records.
pub open spec fn views(users: Seq<User>) -> Seq<UserView> {
    Seq::new(users.len(), |i: int| users[i]@)
}

/// Whether some record has the email `email`.
pub open spec fn email_taken(records: Seq<UserView>, email: Seq<char>) -> bool {
    exists|i: int| 0 <= i < records.len() && (#[trigger] records[i]).email == email
}

/// Whether some record has the identifier `id`.
pub open spec fn id_taken(records: Seq<UserView>, id: Seq<char>) -> bool {
    exists|i: int| 0 <= i < records.len() && (#[trigger] records[i]).id == id
}

/// Whether no two records share an identifier or an email.
pub open spec fn unique(records: Seq<UserView>) -> bool {
    forall|i: int, j: int|
        0 <= i < j < records.len() ==> (#[trigger] records[i]).id != (#[trigger] records[j]).id
            && records[i].email != records[j].email
}

/// A record with the email `email`, where there is one.
pub open spec fn record_with_email(records: Seq<UserView>, email: Seq<char>) -> UserView {
    records[choose|i: int| 0 <= i < records.len() && (#[trigger] records[i]).email == email]
}

/// The position of a record with the identifier `id`, where there is one.
pub open spec fn position_of_id(records: Seq<UserView>, id: Seq<char>) -> int {
    choose|i: int| 0 <= i < records.len() && (#[trigger] records[i]).id == id
}

/// A record with the identifier `id`, where there is one.
pub open spec fn record_with_id(records: Seq<UserView>, id: Seq<char>) -> UserView {
    records[position_of_id(records, id)]
}

/// Why `candidate` cannot be stored among `records`, if it cannot: its
/// email is taken, or else its identifier is.
pub open spec fn conflict_of(records: Seq<UserView>, candidate: UserView) -> Option<CustomError> {
    if email_taken(records, candidate.email) {
        Some(CustomError::EmailAlreadyExists)
    } else if id_taken(records, candidate.id) {
        Some(CustomError::UserAlreadyExists)
    } else {
        None
    }
}

/// The records after a request to create `candidate`: with it at the end
/// where nothing conflicts, unchanged otherwise.
pub open spec fn created(records: Seq<UserView>, candidate: UserView) -> Seq<UserView> {
    if conflict_of(records, candidate) is None {
        records.push(candidate)
    } else {
        records
    }
}

/// The records after a request to delete the identifier `id`: without the
/// record that has it, unchanged where none has.
pub open spec fn deleted(records: Seq<UserView>, id: Seq<char>) -> Seq<UserView> {
    if id_taken(records, id) {
        records.remove(position_of_id(records, id))
    } else {
        records
    }
}

/// The public parts of `records`, in their order.
pub open spec fn listing(records: Seq<UserView>) -> Seq<SummaryView> {
    Seq::new(records.len(), |i: int| summary(records[i]))
}

/// Whether `r` is the answer to a login with `password` at the time `now`,
/// where `found` is the record with the credential's email, if there is
/// one. A missing record and a wrong password get the same answer. The
/// token of a profile validates under the same key to the identifier in
/// the profile, from the login until the token expires.
pub open spec fn login_answers(
    r: Result<UserProfile, CustomError>,
    found: Option<UserView>,
    password: Seq<char>,
    secret: Seq<char>,
    ttl: u64,
    now: u64,
) -> bool {
    &&& match found {
        Some(user) => if password_matches(password, user.password) {
            match issued(user.id, secret, ttl, now) {
                Some(token) => r matches Ok(profile) && profile.data@ == summary(user)
                    && profile.token@ == token,
                None => r matches Err(CustomError::GenericError(text)) && text@ == out_of_range(),
            }
        } else {
            r matches Err(CustomError::UserNotFound)
        },
        None => r matches Err(CustomError::UserNotFound),
    }
    &&& r matches Ok(profile) ==> binds(
        profile.token@,
        secret,
        profile.data.id@,
        (now + ttl) as u64,
    )
}

/// The value of an optional record.
pub open spec fn record_view(found: Option<&User>) -> Option<UserView> {
    match found {
        Some(user) => Some(user@),
        None => None,
    }
}

/// The public part of `user`.
pub fn summary_of(user: &User) -> (r: GetUserResponse)
    ensures
        r@ == summary(user@),
{
    GetUserResponse { id: user.id.clone(), name: user.name.clone(), email: user.email.clone() }
}

/// The answer to a listing, from all the records there are. No records
/// give an empty list, not an error.
pub fn list_response(users: &Vec<User>) -> (r: GetAllUserResponse)
    ensures
        r@ == listing(views(users@)),
        users@.len() == 0 ==> r.data@.len() == 0,
{
    let mut data: Vec<GetUserResponse> = Vec::new();
    let mut i: usize = 0;
    while i < users.len()
        invariant
            i <= users.len(),
            data@.len() == i,
            forall|k: int| 0 <= k < i ==> (#[trigger] data@[k])@ == summary(users@[k]@),
        decreases users.len() - i,
    {
        data.push(summary_of(&users[i]));
        i = i + 1;
    }
    GetAllUserResponse { data }
}

/// The answer to a read of `id`, from the record that was found for it.
pub fn lookup_response(id: &str, found: Option<&User>) -> (r: Result<GetUserResponse, CustomError>)
    ensures
        match found {
            Some(user) => r matches Ok(s) && s@ == (SummaryView {
                id: id@,
                name: user@.name,
                email: user@.email,
            }),
            None => r matches Err(CustomError::UserNotFound),
        },
{
    match found {
        Some(user) => Ok(
            GetUserResponse {
                id: id.to_owned(),
                name: user.name.clone(),
                email: user.email.clone(),
            },
        ),
        None => Err(CustomError::UserNotFound),
    }
}

/// Whether `candidate` may be stored among `records`: `None` if so, else
/// the error to report. A taken email is reported before a taken
/// identifier.
pub fn conflict(records: &Vec<User>, candidate: &User) -> (r: Option<CustomError>)
    ensures
        r == conflict_of(views(records@), candidate@),
{
    let ghost all = views(records@);
    let mut i: usize = 0;
    while i < records.len()
        invariant
            i <= records.len(),
            all == views(records@),
            forall|k: int| 0 <= k < i ==> (#[trigger] all[k]).email != candidate@.email,
        decreases records.len() - i,
    {
        if records[i].email == candidate.email {
            assert(all[i as int].email == candidate@.email);
            return Some(CustomError::EmailAlreadyExists);
        }
        i = i + 1;
    }
    let mut j: usize = 0;
    while j < records.len()
        invariant
            j <= records.len(),
            all == views(records@),
            !email_taken(all, candidate@.email),
            forall|k: int| 0 <= k < j ==> (#[trigger] all[k]).id != candidate@.id,
        decreases records.len() - j,
    {
        if records[j].id == candidate.id {
            assert(all[j as int].id == candidate@.id);
            return Some(CustomError::UserAlreadyExists);
        }
        j = j + 1;
    }
    None
}

/// The answer to a delete, from the number of records that the backend
/// removed: none removed means that no record had the identifier.
pub fn delete_response(removed: u64) -> (r: Result<(), CustomError>)
    ensures
        removed == 0 ==> r matches Err(CustomError::UserNotFound),
        removed > 0 ==> r is Ok,
{
    if removed == 0 {
        Err(CustomError::UserNotFound)
    } else {
        Ok(())
    }
}

/// What the store answered to the request to insert a record.
#[derive(Debug, Clone, PartialEq, Eq)]
pub enum InsertOutcome {
    /// The record is stored.
    Stored,
    /// The store holds a record with the same key; its message.
    DuplicateKey(String),
    /// The store failed otherwise; its message.
    Failed(String),
}

/// What follows for a request to create, once the store has answered the
/// insert.
#[derive(Debug, Clone, PartialEq, Eq)]
pub enum CreateStep {
    /// Answer with the identifier.
    Created(String),
    /// Look for a conflict once more; the store's message, for the case
    /// that there is none.
    CheckAgain(String),
    /// Answer with the error.
    Failed(CustomError),
}

/// The step that follows the store's answer to the insert of the record
/// with the identifier `id`. A record that another request stored in the
/// meantime shows as a duplicate key: the conflict is then looked up again.
pub fn after_insert(id: String, outcome: InsertOutcome) -> (step: CreateStep)
    ensures
        step == match outcome {
            InsertOutcome::Stored => CreateStep::Created(id),
            InsertOutcome::DuplicateKey(message) => CreateStep::CheckAgain(message),
            InsertOutcome::Failed(message) => CreateStep::Failed(
                CustomError::GenericError(message),
            ),
        },
{
    match outcome {
        InsertOutcome::Stored => CreateStep::Created(id),
        InsertOutcome::DuplicateKey(message) => CreateStep::CheckAgain(message),
        InsertOutcome::Failed(message) => CreateStep::Failed(CustomError::GenericError(message)),
    }
}

/// The error for an insert that met a duplicate key, from the conflict
/// that the second look found: that conflict, or the store's message where
/// none is left.
pub fn after_second_check(found: Option<CustomError>, message: String) -> (error: CustomError)
    ensures
        error == match found {
            Some(conflict) => conflict,
            None => CustomError::GenericError(message),
        },
{
    match found {
        Some(conflict) => conflict,
        None => CustomError::GenericError(message),
    }
}

/// The answer to a login at the time `now`, from the record that was found
/// for the credential's email. The password is checked against the stored
/// hash; a token is issued to the record's identifier, and validates under
/// `service` to that identifier.
pub fn login_response_at(
    found: Option<&User>,
    credential: &UserCredential,
    service: &TokenService,
    now: u64,
) -> (r: Result<UserProfile, CustomError>)
    ensures
        login_answers(
            r,
            record_view(found),
            credential.password@,
            service.secret(),
            service.lifetime(),
            now,
        ),
{
    match found {
        Some(user) => {
            if verify_password(credential.password.as_str(), user.password.as_str()) {
                match create_jwt_at(user.id.clone(), service, now) {
                    Ok(token) => Ok(UserProfile { data: summary_of(user), token }),
                    Err(e) => Err(CustomError::GenericError(e.message())),
                }
            } else {
                Err(CustomError::UserNotFound)
            }
        },
        None => Err(CustomError::UserNotFound),
    }
}

/// The answer to a login by the wall clock: the one that
/// [`login_response_at`] gives for some reading `now` of the clock.
pub fn login_response(found: Option<&User>, credential: &UserCredential, service: &TokenService) -> (r:
    Result<UserProfile, CustomError>)
    ensures
        exists|now: u64|
            now <= i64::MAX && #[trigger] login_answers(
                r,
                record_view(found),
                credential.password@,
                service.secret(),
                service.lifetime(),
                now,
            ),
{
    login_response_at(found, credential, service, now())
}

/// How often `email` occurs in a listing.
pub open spec fn occurrences(list: Seq<SummaryView>, email: Seq<char>) -> nat
    decreases list.len(),
{
    if list.len() == 0 {
        0
    } else {
        occurrences(list.drop_last(), email) + if list.last().email == email {
            1nat
        } else {
            0nat
        }
    }
}

/// How many of the requests to create `candidates`, served one after
/// another in this order, succeed.
pub open spec fn successes(records: Seq<UserView>, candidates: Seq<UserView>) -> nat
    decreases candidates.len(),
{
    if candidates.len() == 0 {
        0
    } else {
        successes(created(records, candidates[0]), candidates.drop_first()) + if conflict_of(
            records,
            candidates[0],
        ) is None {
            1nat
        } else {
            0nat
        }
    }
}

/// The answers to the requests to create `candidates`, served one after
/// another in this order: for each `None` where it succeeds, else the
/// error.
pub open spec fn answers_in_turn(records: Seq<UserView>, candidates: Seq<UserView>) -> Seq<
    Option<CustomError>,
>
    decreases candidates.len(),
{
    if candidates.len() == 0 {
        Seq::empty()
    } else {
        seq![conflict_of(records, candidates[0])] + answers_in_turn(
            created(records, candidates[0]),
            candidates.drop_first(),
        )
    }
}

/// The records after the requests to create `candidates`, served one after
/// another in this order.
pub open spec fn created_all(records: Seq<UserView>, candidates: Seq<UserView>) -> Seq<UserView>
    decreases candidates.len(),
{
    if candidates.len() == 0 {
        records
    } else {
        created_all(created(records, candidates[0]), candidates.drop_first())
    }
}

/// Whether `answer` is a failure that a request to create `candidate` is
/// owed when another request with the same email succeeds: the email is
/// taken already or, only for a request that came `early`, before the
/// one that succeeds, its identifier was taken among `records` beforehand.
pub open spec fn fails_as_owed(
    answer: Option<CustomError>,
    records: Seq<UserView>,
    candidate: UserView,
    early: bool,
) -> bool {
    ||| answer == Some(CustomError::EmailAlreadyExists)
    ||| early && answer == Some(CustomError::UserAlreadyExists) && id_taken(records, candidate.id)
}

/// Whether, among `answers`, the request `winner` succeeds and every other
/// request fails as it is owed.
pub open spec fn succeeds_alone(
    answers: Seq<Option<CustomError>>,
    records: Seq<UserView>,
    candidates: Seq<UserView>,
    winner: int,
) -> bool {
    &&& answers[winner] is None
    &&& forall|j: int|
        0 <= j < candidates.len() && j != winner ==> fails_as_owed(
            #[trigger] answers[j],
            records,
            candidates[j],
            j < winner,
        )
}

/// Creating keeps the keys unique: after a request to create, granted or
/// not, no two records share an identifier or an email.
pub proof fn lemma_create_keeps_keys_unique(records: Seq<UserView>, candidate: UserView)
    requires
        unique(records),
    ensures
        unique(created(records, candidate)),
{
    let after = created(records, candidate);
    assert forall|i: int, j: int| 0 <= i < j < after.len() implies (#[trigger] after[i]).id != (
    #[trigger] after[j]).id && after[i].email != after[j].email by {}
}

/// Deleting keeps the keys unique, and the deleted identifier is gone.
pub proof fn lemma_delete_removes_the_record(records: Seq<UserView>, id: Seq<char>)
    requires
        unique(records),
    ensures
        unique(deleted(records, id)),
        !id_taken(deleted(records, id), id),
{
    let after = deleted(records, id);
    if id_taken(records, id) {
        let at = position_of_id(records, id);
        assert forall|a: int| 0 <= a < after.len() implies #[trigger] after[a] == records[if a
            < at {
            a
        } else {
            a + 1
        }] by {}
    }
}

/// A record that was created is the one that a read of its identifier
/// finds: with the email and the name that were given.
pub proof fn lemma_created_record_is_read(records: Seq<UserView>, candidate: UserView)
    requires
        conflict_of(records, candidate) is None,
    ensures
        id_taken(created(records, candidate), candidate.id),
        record_with_id(created(records, candidate), candidate.id) == candidate,
        summary(record_with_id(created(records, candidate), candidate.id)).email
            == candidate.email,
        summary(record_with_id(created(records, candidate), candidate.id)).name == candidate.name,
{
    assert(created(records, candidate)[records.len() as int] == candidate);
}

/// An email that no record has does not occur in the listing.
pub proof fn lemma_free_email_is_not_listed(records: Seq<UserView>, email: Seq<char>)
    requires
        !email_taken(records, email),
    ensures
        occurrences(listing(records), email) == 0,
    decreases records.len(),
{
    if records.len() > 0 {
        let shorter = records.drop_last();
        assert forall|i: int| 0 <= i < shorter.len() implies (#[trigger] shorter[i]).email
            != email by {}
        lemma_free_email_is_not_listed(shorter, email);
        assert(listing(records).drop_last() =~= listing(shorter));
    }
}

/// Of two requests to create with the same email, the first succeeding,
/// the second fails with `EmailAlreadyExists` and changes nothing, and the
/// listing afterwards holds that email exactly once.
pub proof fn lemma_same_email_is_created_once(
    records: Seq<UserView>,
    first: UserView,
    second: UserView,
)
    requires
        conflict_of(records, first) is None,
        second.email == first.email,
    ensures
        conflict_of(created(records, first), second) == Some(CustomError::EmailAlreadyExists),
        created(created(records, first), second) == created(records, first),
        occurrences(listing(created(created(records, first), second)), first.email) == 1,
{
    let after = created(records, first);
    assert(after[records.len() as int].email == second.email);
    lemma_free_email_is_not_listed(records, first.email);
    assert(listing(after).drop_last() =~= listing(records));
}

/// A repository without records lists nothing.
pub proof fn lemma_no_records_list_empty()
    ensures
        listing(Seq::<UserView>::empty()) == Seq::<SummaryView>::empty(),
{
}

/// Once an email is taken, no request to create with it succeeds: each
/// fails with `EmailAlreadyExists`, and the records stay as they are.
pub proof fn lemma_taken_email_never_succeeds(
    records: Seq<UserView>,
    candidates: Seq<UserView>,
    email: Seq<char>,
)
    requires
        email_taken(records, email),
        forall|k: int| 0 <= k < candidates.len() ==> (#[trigger] candidates[k]).email == email,
    ensures
        successes(records, candidates) == 0,
        created_all(records, candidates) == records,
        answers_in_turn(records, candidates).len() == candidates.len(),
        forall|k: int|
            0 <= k < candidates.len() ==> #[trigger] answers_in_turn(records, candidates)[k]
                == Some(CustomError::EmailAlreadyExists),
    decreases candidates.len(),
{
    if candidates.len() > 0 {
        let rest = candidates.drop_first();
        assert forall|k: int| 0 <= k < rest.len() implies (#[trigger] rest[k]).email == email by {}
        lemma_taken_email_never_succeeds(records, rest, email);
        let answers = answers_in_turn(records, candidates);
        assert forall|k: int| 0 <= k < candidates.len() implies #[trigger] answers[k] == Some(
            CustomError::EmailAlreadyExists,
        ) by {}
    }
}

/// Of any number of requests to create with one and the same email, served
/// one at a time in whatever order, exactly one succeeds: provided that the
/// email is free beforehand and that at least one of the requests brings an
/// identifier that is free beforehand. Each of the others fails with
/// `EmailAlreadyExists`, or with `UserAlreadyExists` if it came before the
/// one that succeeds and its identifier was taken beforehand. Afterwards
/// the listing holds the email exactly once.
pub proof fn lemma_one_create_per_email_succeeds(
    records: Seq<UserView>,
    candidates: Seq<UserView>,
    email: Seq<char>,
)
    requires
        !email_taken(records, email),
        forall|k: int| 0 <= k < candidates.len() ==> (#[trigger] candidates[k]).email == email,
        exists|k: int| 0 <= k < candidates.len() && !id_taken(records, (#[trigger] candidates[k]).id),
    ensures
        successes(records, candidates) == 1,
        answers_in_turn(records, candidates).len() == candidates.len(),
        exists|w: int|
            0 <= w < candidates.len() && succeeds_alone(
                answers_in_turn(records, candidates),
                records,
                candidates,
                w,
            ),
        occurrences(listing(created_all(records, candidates)), email) == 1,
    decreases candidates.len(),
{
    let rest = candidates.drop_first();
    let answers = answers_in_turn(records, candidates);
    assert forall|k: int| 0 <= k < rest.len() implies (#[trigger] rest[k]).email == email by {}
    if conflict_of(records, candidates[0]) is None {
        let after = created(records, candidates[0]);
        assert(after[records.len() as int].email == email);
        lemma_taken_email_never_succeeds(after, rest, email);
        lemma_free_email_is_not_listed(records, email);
        assert(listing(after).drop_last() =~= listing(records));
        assert forall|k: int| 0 < k < candidates.len() implies #[trigger] answers[k] == Some(
            CustomError::EmailAlreadyExists,
        ) by {}
        assert(succeeds_alone(answers, records, candidates, 0));
    } else {
        let k = choose|k: int|
            0 <= k < candidates.len() && !id_taken(records, (#[trigger] candidates[k]).id);
        assert(rest[k - 1] == candidates[k]);
        lemma_one_create_per_email_succeeds(records, rest, email);
        let later = answers_in_turn(records, rest);
        let w = choose|w: int| 0 <= w < rest.len() && succeeds_alone(later, records, rest, w);
        assert forall|j: int| 0 <= j < candidates.len() && j != w + 1 implies fails_as_owed(
            #[trigger] answers[j],
            records,
            candidates[j],
            j < w + 1,
        ) by {}
        assert(succeeds_alone(answers, records, candidates, w + 1));
    }
}

/// Where every request brings an identifier that is free beforehand, the
/// first request is the one that succeeds, and every other fails with
/// `EmailAlreadyExists`.
pub proof fn lemma_first_create_per_email_succeeds(
    records: Seq<UserView>,
    candidates: Seq<UserView>,
    email: Seq<char>,
)
    requires
        !email_taken(records, email),
        candidates.len() > 0,
        forall|k: int| 0 <= k < candidates.len() ==> (#[trigger] candidates[k]).email == email,
        forall|k: int| 0 <= k < candidates.len() ==> !id_taken(records, (#[trigger] candidates[k]).id),
    ensures
        answers_in_turn(records, candidates).len() == candidates.len(),
        answers_in_turn(records, candidates)[0] is None,
        forall|k: int|
            0 < k < candidates.len() ==> #[trigger] answers_in_turn(records, candidates)[k]
                == Some(CustomError::EmailAlreadyExists),
        occurrences(listing(created_all(records, candidates)), email) == 1,
{
    let rest = candidates.drop_first();
    let after = created(records, candidates[0]);
    let answers = answers_in_turn(records, candidates);
    assert forall|k: int| 0 <= k < rest.len() implies (#[trigger] rest[k]).email == email by {}
    assert(after[records.len() as int].email == email);
    lemma_taken_email_never_succeeds(after, rest, email);
    lemma_free_email_is_not_listed(records, email);
    assert(listing(after).drop_last() =~= listing(records));
    assert forall|k: int| 0 < k < candidates.len() implies #[trigger] answers[k] == Some(
        CustomError::EmailAlreadyExists,
    ) by {}
}

} // verus!
