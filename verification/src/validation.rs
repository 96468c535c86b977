//! Field constraints on incoming credentials.
//!
//! Length rules are counted in characters. Email validity is delegated to
//! the validator crate and enters the contracts only under its name,
//! `email_ok`.

use vstd::prelude::*;
use vstd::string::StrSliceExecFns;
use crate::errors::AuthError;

verus! {

/// What `validator::ValidateEmail::validate_email` returns for a string:
/// a function of the characters alone.
pub uninterp spec fn email_ok(s: Seq<char>) -> bool;

/// Relies on `validator::ValidateEmail for String`: deterministic
/// syntactic validity of an email address.
#[verifier::external_body]
pub(crate) fn check_email(email: &String) -> (r: bool)
    ensures
        r == email_ok(email@),
{
    validator::ValidateEmail::validate_email(email)
}

/// The registration constraints: username between 3 and 50 characters,
/// a syntactically valid email, password at least 8 characters.
pub open spec fn registration_valid(username: Seq<char>, email: Seq<char>, password: Seq<char>) -> bool {
    &&& 3 <= username.len() <= 50
    &&& email_ok(email)
    &&& password.len() >= 8
}

/// The login constraints: a syntactically valid email and a non-empty
/// password.
pub open spec fn login_valid(email: Seq<char>, password: Seq<char>) -> bool {
    &&& email_ok(email)
    &&& password.len() >= 1
}

/// Checks the registration constraints, accepting exactly the inputs
/// `registration_valid` allows.
pub fn validate_registration(username: &String, email: &String, password: &String) -> (r: Result<(), AuthError>)
    ensures
        r is Ok <==> registration_valid(username@, email@, password@),
        r matches Err(e) ==> e == AuthError::Validation,
{
    let ulen = username.as_str().unicode_len();
    if ulen < 3 || ulen > 50 {
        return Err(AuthError::Validation);
    }
    if !check_email(email) {
        return Err(AuthError::Validation);
    }
    if password.as_str().unicode_len() < 8 {
        return Err(AuthError::Validation);
    }
    Ok(())
}

/// Checks the login constraints, accepting exactly the inputs
/// `login_valid` allows.
pub fn validate_login(email: &String, password: &String) -> (r: Result<(), AuthError>)
    ensures
        r is Ok <==> login_valid(email@, password@),
        r matches Err(e) ==> e == AuthError::Validation,
{
    if !check_email(email) {
        return Err(AuthError::Validation);
    }
    if password.as_str().unicode_len() < 1 {
        return Err(AuthError::Validation);
    }
    Ok(())
}

} // verus!
