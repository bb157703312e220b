//! User records, the repository contract, and its implementations.

pub mod errors;
pub mod mock;
pub mod models;
pub mod password;
pub mod repository;
pub mod service;
pub mod store;
