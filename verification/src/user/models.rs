//! The shapes of user data as they are stored and as they travel.

use vstd::prelude::*;

verus! {

/// A persisted user. The password is held as a verifiable hash.
#[derive(Debug, Clone, PartialEq, Eq)]
pub struct User {
    pub id: String,
    pub email: String,
    pub password: String,
    pub name: String,
}

/// The mathematical value of a [`User`].
pub ghost struct UserView {
    pub id: Seq<char>,
    pub email: Seq<char>,
    pub password: Seq<char>,
    pub name: Seq<char>,
}

impl View for User {
    type V = UserView;

    open spec fn view(&self) -> UserView {
        UserView { id: self.id@, email: self.email@, password: self.password@, name: self.name@ }
    }
}

/// What a client presents to log in. The password is plaintext.
#[derive(Debug, Clone, PartialEq, Eq)]
pub struct UserCredential {
    pub email: String,
    pub password: String,
}

/// The public part of a user record.
#[derive(Debug, Clone, PartialEq, Eq)]
pub struct GetUserResponse {
    pub id: String,
    pub name: String,
    pub email: String,
}

/// The mathematical value of a [`GetUserResponse`].
pub ghost struct SummaryView {
    pub id: Seq<char>,
    pub name: Seq<char>,
    pub email: Seq<char>,
}

impl View for GetUserResponse {
    type V = SummaryView;

    open spec fn view(&self) -> SummaryView {
        SummaryView { id: self.id@, name: self.name@, email: self.email@ }
    }
}

/// The answer to a successful login: who logged in, and a fresh token
/// bound to that user's identifier.
#[derive(Debug, Clone, PartialEq, Eq)]
pub struct UserProfile {
    pub data: GetUserResponse,
    pub token: String,
}

/// The answer to a listing.
#[derive(Debug, Clone, PartialEq, Eq)]
pub struct GetAllUserResponse {
    pub data: Vec<GetUserResponse>,
}

impl View for GetAllUserResponse {
    type V = Seq<SummaryView>;

    open spec fn view(&self) -> Seq<SummaryView> {
        Seq::new(self.data@.len(), |i: int| self.data@[i]@)
    }
}

/// A request to create a user, before an identifier exists.
#[derive(Debug, Clone, PartialEq, Eq)]
pub struct CreateUserRequest {
    pub name: String,
    pub email: String,
    pub plain_password: String,
}

/// The answer to a successful creation.
#[derive(Debug, Clone, PartialEq, Eq)]
pub struct CreateUserResponse {
    pub id: String,
}

/// The public part of a stored record.
pub open spec fn summary(user: UserView) -> SummaryView {
    SummaryView { id: user.id, name: user.name, email: user.email }
}

impl CreateUserRequest {
    /// The record to persist for this request, once an identifier has been
    /// assigned and the password has been hashed. The plaintext password is
    /// dropped.
    pub fn into_user(self, id: String, password_hash: String) -> (user: User)
        ensures
            user@ == (UserView {
                id: id@,
                email: self.email@,
                password: password_hash@,
                name: self.name@,
            }),
    {
        User { id, email: self.email, password: password_hash, name: self.name }
    }
}

} // verus!
