//! Authentication and user-data access for a small account service.
//!
//! `auth` issues and validates signed, time-limited bearer tokens and turns
//! an authorization header into an access decision. `user` holds the user
//! records, the repository contract over them, and the rules that every
//! repository applies when it answers a request.

pub mod auth;
pub mod user;
