//! Checking a plaintext password against a stored bcrypt hash.

use vstd::prelude::*;

verus! {

#[verifier::external_type_specification]
#[verifier::external_body]
pub struct ExHashFault(bcrypt::BcryptError);

/// What `bcrypt::verify` says of `password` and `hash`: whether the
/// password is the one that was hashed, or `None` where it reports an
/// error, as it does for a text that is no bcrypt hash.
pub uninterp spec fn bcrypt_verdict(password: Seq<char>, hash: Seq<char>) -> Option<bool>;

/// Calls `bcrypt::verify`.
///
/// Trusted: the outcome is a function of the password and the hash. The
/// salt and the cost are read from the hash, and nothing else enters.
#[verifier::external_body]
fn bcrypt_verify(password: &str, hash: &str) -> (r: Result<bool, bcrypt::BcryptError>)
    ensures
        match r {
            Ok(same) => bcrypt_verdict(password@, hash@) == Some(same),
            Err(_) => bcrypt_verdict(password@, hash@) is None,
        },
{
    bcrypt::verify(password, hash)
}

/// Whether `password` is accepted for `hash`. A hash that cannot be read
/// accepts no password.
pub open spec fn password_matches(password: Seq<char>, hash: Seq<char>) -> bool {
    bcrypt_verdict(password, hash) == Some(true)
}

/// Checks `password` against `hash`.
pub fn verify_password(password: &str, hash: &str) -> (ok: bool)
    ensures
        ok == password_matches(password@, hash@),
{
    match bcrypt_verify(password, hash) {
        Ok(same) => same,
        Err(_) => false,
    }
}

} // verus!
