//! Opaque random token values, drawn from uuid.
//!
//! Nothing can be promised of a random draw beyond its shape: freshness
//! against a ledger is always established by the ledger itself, never
//! assumed here.

use vstd::prelude::*;

verus! {

/// A lowercase hexadecimal digit.
pub open spec fn is_lower_hex_digit(c: char) -> bool {
    (('0' as u32) <= (c as u32) && (c as u32) <= ('9' as u32)) || (('a' as u32) <= (c as u32) && (c
        as u32) <= ('f' as u32))
}

/// Relies on `uuid::Uuid::new_v4` and its hyphenated `Display` form:
/// a random draw rendered as exactly 36 characters.
#[verifier::external_body]
pub fn generate_refresh_token() -> (r: String)
    ensures
        r@.len() == 36,
{
    uuid::Uuid::new_v4().to_string()
}

/// Relies on `uuid::Uuid::new_v4` and its `Simple` form: a random draw
/// rendered as exactly 32 lowercase hexadecimal characters, no hyphens.
#[verifier::external_body]
pub fn generate_verification_token() -> (r: String)
    ensures
        r@.len() == 32,
        forall|i: int| 0 <= i < r@.len() ==> is_lower_hex_digit(#[trigger] r@[i]),
{
    uuid::Uuid::new_v4().as_simple().to_string()
}

} // verus!
