//! Bearer tokens: issuing, validating, and guarding a request with them.

pub mod clock;
pub mod guard;
pub mod header;
pub mod token;
