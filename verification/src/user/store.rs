//! A repository that keeps its records: the collection of persisted users
//! with the two keys that every record has, identifier and email.
//!
//! No two records share an identifier, and no two share an email. A request
//! that would break this fails and changes nothing.

use vstd::prelude::*;
use crate::auth::clock::now;
use crate::auth::token::TokenService;
use crate::user::errors::CustomError;
use crate::user::models::{
    summary,
    GetAllUserResponse,
    GetUserResponse,
    User,
    UserCredential,
    UserProfile,
    UserView,
};
use crate::user::repository::{
    conflict,
    conflict_of,
    created,
    deleted,
    email_taken,
    id_taken,
    lemma_create_keeps_keys_unique,
    lemma_delete_removes_the_record,
    list_response,
    listing,
    login_answers,
    login_response_at,
    lookup_response,
    position_of_id,
    record_with_email,
    record_with_id,
    unique,
    views,
    UserDbTrait,
};

verus! {

/// The records of one repository, and the service that issues the tokens
/// for its logins.
pub struct UserStore {
    users: Vec<User>,
    service: TokenService,
}

/// The record found for a login with `email`, if there is one.
pub open spec fn found_by_email(records: Seq<UserView>, email: Seq<char>) -> Option<UserView> {
    if email_taken(records, email) {
        Some(record_with_email(records, email))
    } else {
        None
    }
}

impl UserStore {
    /// The records, in the order in which they were created.
    pub closed spec fn records(&self) -> Seq<UserView> {
        views(self.users@)
    }

    /// The key that signs the tokens of this repository.
    pub closed spec fn secret(&self) -> Seq<char> {
        self.service.secret()
    }

    /// The lifetime of the tokens of this repository, in seconds.
    pub closed spec fn lifetime(&self) -> u64 {
        self.service.lifetime()
    }

    #[verifier::type_invariant]
    spec fn keys_are_unique(&self) -> bool {
        unique(views(self.users@))
    }

    /// A repository without records, whose logins are served by `service`.
    pub fn new(service: TokenService) -> (store: UserStore)
        ensures
            store.records() == Seq::<UserView>::empty(),
            store.secret() == service.secret(),
            store.lifetime() == service.lifetime(),
            unique(store.records()),
    {
        UserStore { users: Vec::new(), service }
    }

    /// The position of the record with the identifier `id`.
    fn position_by_id(&self, id: &String) -> (at: Option<usize>)
        ensures
            unique(self.records()),
            match at {
                Some(i) => i < self.users@.len() && self.records()[i as int].id == id@
                    && position_of_id(self.records(), id@) == i,
                None => !id_taken(self.records(), id@),
            },
    {
        proof {
            use_type_invariant(self);
        }
        let mut i: usize = 0;
        while i < self.users.len()
            invariant
                i <= self.users.len(),
                unique(self.records()),
                forall|k: int| 0 <= k < i ==> (#[trigger] self.records()[k]).id != id@,
            decreases self.users.len() - i,
        {
            if self.users[i].id == *id {
                assert(self.records()[i as int].id == id@);
                return Some(i);
            }
            i = i + 1;
        }
        None
    }

    /// The position of the record with the email `email`.
    fn position_by_email(&self, email: &String) -> (at: Option<usize>)
        ensures
            match at {
                Some(i) => i < self.users@.len() && self.records()[i as int] == record_with_email(
                    self.records(),
                    email@,
                ) && email_taken(self.records(), email@),
                None => !email_taken(self.records(), email@),
            },
    {
        proof {
            use_type_invariant(self);
        }
        let mut i: usize = 0;
        while i < self.users.len()
            invariant
                i <= self.users.len(),
                unique(self.records()),
                forall|k: int| 0 <= k < i ==> (#[trigger] self.records()[k]).email != email@,
            decreases self.users.len() - i,
        {
            if self.users[i].email == *email {
                return Some(i);
            }
            i = i + 1;
        }
        None
    }

    /// Logs a user in at the time `now`. The record is looked up by email.
    /// A missing record and a wrong password both give `UserNotFound`. On
    /// success the token is bound to the record's identifier.
    pub fn login_at(&self, credential: UserCredential, now: u64) -> (r: Result<
        UserProfile,
        CustomError,
    >)
        ensures
            login_answers(
                r,
                found_by_email(self.records(), credential.email@),
                credential.password@,
                self.secret(),
                self.lifetime(),
                now,
            ),
    {
        let found = match self.position_by_email(&credential.email) {
            Some(i) => Some(&self.users[i]),
            None => None,
        };
        login_response_at(found, &credential, &self.service, now)
    }
}

impl UserDbTrait for UserStore {
    /// The answer is the one that [`UserStore::login_at`] gives for some
    /// reading `now` of the clock.
    open spec fn answers_login(
        &self,
        credential: UserCredential,
        r: Result<UserProfile, CustomError>,
    ) -> bool {
        exists|now: u64|
            now <= i64::MAX && #[trigger] login_answers(
                r,
                found_by_email(self.records(), credential.email@),
                credential.password@,
                self.secret(),
                self.lifetime(),
                now,
            )
    }

    /// The public part of every record, in the order of creation: a
    /// success also where there are no records.
    open spec fn answers_get_all(&self, r: Result<GetAllUserResponse, CustomError>) -> bool {
        &&& unique(self.records())
        &&& r matches Ok(list)
        &&& list@ == listing(self.records())
    }

    /// The public part of the record with the identifier, or
    /// `UserNotFound` where no record has it.
    open spec fn answers_get_by_id(
        &self,
        id: Seq<char>,
        r: Result<GetUserResponse, CustomError>,
    ) -> bool {
        &&& unique(self.records())
        &&& id_taken(self.records(), id) ==> (r matches Ok(s) && s@ == summary(
            record_with_id(self.records(), id),
        ))
        &&& !id_taken(self.records(), id) ==> (r matches Err(CustomError::UserNotFound))
    }

    /// The record is stored at the end and its identifier returned; or a
    /// record has the same email (`EmailAlreadyExists`) or else the same
    /// identifier (`UserAlreadyExists`), and nothing changes.
    open spec fn answers_create(
        &self,
        user: UserView,
        r: Result<String, CustomError>,
        after: &Self,
    ) -> bool {
        &&& unique(after.records())
        &&& after.records() == created(self.records(), user)
        &&& after.secret() == self.secret()
        &&& after.lifetime() == self.lifetime()
        &&& match conflict_of(self.records(), user) {
            Some(error) => r == Err::<String, CustomError>(error),
            None => r matches Ok(id) && id@ == user.id,
        }
    }

    /// The record with the identifier is removed; or no record has it
    /// (`UserNotFound`), and nothing changes.
    open spec fn answers_delete(
        &self,
        id: Seq<char>,
        r: Result<(), CustomError>,
        after: &Self,
    ) -> bool {
        &&& unique(after.records())
        &&& after.records() == deleted(self.records(), id)
        &&& after.secret() == self.secret()
        &&& after.lifetime() == self.lifetime()
        &&& id_taken(self.records(), id) ==> r is Ok
        &&& !id_taken(self.records(), id) ==> (r matches Err(CustomError::UserNotFound))
    }

    /// Logs a user in by the wall clock.
    fn login(&self, credential: UserCredential) -> (r: Result<UserProfile, CustomError>) {
        self.login_at(credential, now())
    }

    /// Lists the public part of every record.
    fn get_all(&self) -> (r: Result<GetAllUserResponse, CustomError>) {
        proof {
            use_type_invariant(self);
        }
        Ok(list_response(&self.users))
    }

    /// Reads the public part of the record with the identifier `id`.
    fn get_by_id(&self, id: &str) -> (r: Result<GetUserResponse, CustomError>) {
        let key = id.to_owned();
        let found = match self.position_by_id(&key) {
            Some(i) => Some(&self.users[i]),
            None => None,
        };
        lookup_response(id, found)
    }

    /// Stores `user`, unless its email or its identifier is taken, and
    /// returns its identifier.
    fn create(&mut self, user: User) -> (r: Result<String, CustomError>) {
        proof {
            use_type_invariant(&*self);
        }
        match conflict(&self.users, &user) {
            Some(error) => Err(error),
            None => {
                let id = user.id.clone();
                let ghost before = self.records();
                let mut users = Vec::new();
                std::mem::swap(&mut users, &mut self.users);
                users.push(user);
                proof {
                    assert(views(users@) =~= before.push(user@));
                    lemma_create_keeps_keys_unique(before, user@);
                }
                self.users = users;
                Ok(id)
            },
        }
    }

    /// Removes the record with the identifier `id`.
    fn delete(&mut self, id: &str) -> (r: Result<(), CustomError>) {
        let key = id.to_owned();
        match self.position_by_id(&key) {
            Some(i) => {
                let ghost before = self.records();
                let mut users = Vec::new();
                std::mem::swap(&mut users, &mut self.users);
                users.remove(i);
                proof {
                    assert(views(users@) =~= before.remove(i as int));
                    lemma_delete_removes_the_record(before, id@);
                }
                self.users = users;
                Ok(())
            },
            None => Err(CustomError::UserNotFound),
        }
    }
}

} // verus!
