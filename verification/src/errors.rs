//! The error taxonomy of the authentication core.
//!
//! Every fallible operation of the library reports one of these kinds.
//! The kinds deliberately carry no internal detail: credential failures,
//! unknown tokens and replayed tokens all collapse to `Unauthorized`, so
//! that a caller cannot use the error to enumerate accounts or tokens.

use vstd::prelude::*;

verus! {

/// The failure kinds a flow of the authentication core can report.
#[derive(Clone, Copy, Debug, PartialEq, Eq, Structural)]
pub enum AuthError {
    /// Malformed input: a field constraint was violated.
    Validation,
    /// A unique field (username or email) is already taken.
    Conflict,
    /// Bad credentials, or an invalid, expired or replayed token.
    Unauthorized,
    /// An unknown verification or reset token.
    NotFound,
    /// An expired verification or reset token, swept at access time.
    Gone,
    /// A collaborator (storage or transport) failed.
    Internal,
}

impl AuthError {
    /// The HTTP status code this error kind maps to at the edge.
    pub fn status_code(&self) -> (code: u16)
        ensures
            code == self.spec_status_code(),
    {
        match self {
            AuthError::Validation => 400,
            AuthError::Conflict => 409,
            AuthError::Unauthorized => 401,
            AuthError::NotFound => 404,
            AuthError::Gone => 410,
            AuthError::Internal => 500,
        }
    }

    /// The status code each kind stands for.
    pub open spec fn spec_status_code(self) -> u16 {
        match self {
            AuthError::Validation => 400,
            AuthError::Conflict => 409,
            AuthError::Unauthorized => 401,
            AuthError::NotFound => 404,
            AuthError::Gone => 410,
            AuthError::Internal => 500,
        }
    }
}

} // verus!
