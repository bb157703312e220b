//! A repository that keeps nothing: every answer is made up from the
//! request alone, the same way each time.

use vstd::prelude::*;
use crate::user::errors::CustomError;
use crate::user::models::{
    GetAllUserResponse,
    GetUserResponse,
    SummaryView,
    User,
    UserCredential,
    UserProfile,
    UserView,
};
use crate::user::repository::UserDbTrait;

verus! {

/// The synthetic repository. It has no state.
pub struct MockUserDB {}

/// The identifier, and the token, that the synthetic repository hands out.
pub open spec fn synthetic_id() -> Seq<char> {
    "1234abcd"@
}

/// The record that the synthetic repository makes up for `id`.
pub open spec fn synthetic_record(id: Seq<char>) -> SummaryView {
    SummaryView { id, name: id + "'s name"@, email: id + "@example.com"@ }
}

/// The profile that the synthetic repository makes up for a login with
/// `email`.
pub open spec fn synthetic_profile(email: Seq<char>) -> SummaryView {
    SummaryView { id: synthetic_id(), name: "s name"@, email: email + "@example.com"@ }
}

impl UserDbTrait for MockUserDB {
    /// Every credential is accepted.
    open spec fn answers_login(
        &self,
        credential: UserCredential,
        r: Result<UserProfile, CustomError>,
    ) -> bool {
        r matches Ok(profile) && profile.data@ == synthetic_profile(credential.email@)
            && profile.token@ == synthetic_id()
    }

    /// Nothing is listed.
    open spec fn answers_get_all(&self, r: Result<GetAllUserResponse, CustomError>) -> bool {
        r matches Ok(list) && list.data@.len() == 0
    }

    /// Every identifier has a record.
    open spec fn answers_get_by_id(
        &self,
        id: Seq<char>,
        r: Result<GetUserResponse, CustomError>,
    ) -> bool {
        r matches Ok(s) && s@ == synthetic_record(id)
    }

    /// Every record is accepted under the same identifier.
    open spec fn answers_create(
        &self,
        user: UserView,
        r: Result<String, CustomError>,
        after: &Self,
    ) -> bool {
        r matches Ok(id) && id@ == synthetic_id()
    }

    /// Every identifier is accepted.
    open spec fn answers_delete(
        &self,
        id: Seq<char>,
        r: Result<(), CustomError>,
        after: &Self,
    ) -> bool {
        r is Ok
    }

    /// Makes up a profile for the credential's email.
    fn login(&self, credential: UserCredential) -> (r: Result<UserProfile, CustomError>) {
        Ok(
            UserProfile {
                data: GetUserResponse {
                    id: "1234abcd".to_owned(),
                    name: "s name".to_owned(),
                    email: credential.email.concat("@example.com"),
                },
                token: "1234abcd".to_owned(),
            },
        )
    }

    /// Lists nothing.
    fn get_all(&self) -> (r: Result<GetAllUserResponse, CustomError>) {
        Ok(GetAllUserResponse { data: Vec::new() })
    }

    /// Makes up the record for `id`.
    fn get_by_id(&self, id: &str) -> (r: Result<GetUserResponse, CustomError>) {
        Ok(
            GetUserResponse {
                id: id.to_owned(),
                name: id.to_owned().concat("'s name"),
                email: id.to_owned().concat("@example.com"),
            },
        )
    }

    /// Returns the synthetic identifier.
    fn create(&mut self, _user: User) -> (r: Result<String, CustomError>) {
        Ok("1234abcd".to_owned())
    }

    /// Does nothing.
    fn delete(&mut self, _id: &str) -> (r: Result<(), CustomError>) {
        Ok(())
    }
}

} // verus!
