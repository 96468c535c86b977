//! Password hashing, through bcrypt.
//!
//! The hash embeds a random salt, so hashing is not a function of the
//! password alone; what is deterministic is checking a password against a
//! hash. That check is the one fact the rest of the library builds on, so
//! it carries the name `bcrypt_check` and both wrappers speak of it.

use vstd::prelude::*;
use crate::errors::AuthError;

verus! {

/// What `bcrypt::verify(password, hash)` returns: `None` where the hash
/// string is malformed and verification errors, `Some(b)` where it
/// completes with answer `b`. The answer depends on the two strings alone.
pub uninterp spec fn bcrypt_check(password: Seq<char>, hash: Seq<char>) -> Option<bool>;

/// Relies on `bcrypt::hash` with a fixed cost within the allowed range:
/// it salts randomly, and its result is a well-formed hash that
/// `bcrypt::verify` accepts and matches against the same password.
#[verifier::external_body]
pub fn hash_password(password: &str) -> (r: Result<String, AuthError>)
    ensures
        r matches Ok(h) ==> bcrypt_check(password@, h@) == Some(true),
        r matches Err(e) ==> e == AuthError::Internal,
{
    bcrypt::hash(password, bcrypt::DEFAULT_COST + 2).map_err(|_| AuthError::Internal)
}

/// Relies on `bcrypt::verify`: deterministic in password and hash, and it
/// errors exactly on a malformed hash string.
#[verifier::external_body]
pub fn verify_password(password: &str, hash: &str) -> (r: Result<bool, AuthError>)
    ensures
        r is Ok <==> bcrypt_check(password@, hash@) is Some,
        r matches Ok(b) ==> bcrypt_check(password@, hash@) == Some(b),
        r matches Err(e) ==> e == AuthError::Internal,
{
    bcrypt::verify(password, hash).map_err(|_| AuthError::Internal)
}

} // verus!
