//! The user service: the operations of the application, carried out by
//! whichever repository it was built with.
//!
//! The service adds no rule of its own. What a call returns, and how it
//! changes the records, is what the repository answers.

use vstd::prelude::*;
use crate::user::errors::CustomError;
use crate::user::models::{
    CreateUserResponse,
    GetAllUserResponse,
    GetUserResponse,
    User,
    UserCredential,
    UserProfile,
};
use crate::user::repository::UserDbTrait;

verus! {

/// The operations on users, over a repository of type `R`.
pub struct UserService<R: UserDbTrait> {
    repository: R,
}

/// The repository's answer that a creation response stands for.
pub open spec fn created_id(r: Result<CreateUserResponse, CustomError>) -> Result<
    String,
    CustomError,
> {
    match r {
        Ok(response) => Ok(response.id),
        Err(error) => Err(error),
    }
}

impl<R: UserDbTrait> UserService<R> {
    /// The repository that serves this service.
    pub closed spec fn repository(&self) -> R {
        self.repository
    }

    /// A service over `repository`.
    pub fn new(repository: R) -> (service: Self)
        ensures
            service.repository() == repository,
    {
        UserService { repository }
    }

    /// Hands the repository back.
    pub fn into_repository(self) -> (repository: R)
        ensures
            repository == self.repository(),
    {
        self.repository
    }

    /// Logs a user in.
    pub fn login(&self, credential: UserCredential) -> (r: Result<UserProfile, CustomError>)
        ensures
            self.repository().answers_login(credential, r),
    {
        self.repository.login(credential)
    }

    /// Lists all users.
    pub fn list_users(&self) -> (r: Result<GetAllUserResponse, CustomError>)
        ensures
            self.repository().answers_get_all(r),
    {
        self.repository.get_all()
    }

    /// Reads the user with the identifier `id`.
    pub fn get_user(&self, id: &str) -> (r: Result<GetUserResponse, CustomError>)
        ensures
            self.repository().answers_get_by_id(id@, r),
    {
        self.repository.get_by_id(id)
    }

    /// Creates `user`, and answers with its identifier.
    pub fn create_user(&mut self, user: User) -> (r: Result<CreateUserResponse, CustomError>)
        ensures
            old(self).repository().answers_create(
                user@,
                created_id(r),
                &final(self).repository(),
            ),
    {
        match self.repository.create(user) {
            Ok(id) => Ok(CreateUserResponse { id }),
            Err(error) => Err(error),
        }
    }

    /// Deletes the user with the identifier `id`.
    pub fn delete_user(&mut self, id: &str) -> (r: Result<(), CustomError>)
        ensures
            old(self).repository().answers_delete(id@, r, &final(self).repository()),
    {
        self.repository.delete(id)
    }
}

} // verus!
