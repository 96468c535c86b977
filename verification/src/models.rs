//! The records the authentication core persists.
//!
//! Times are seconds since an arbitrary epoch; identities are opaque
//! strings (the store binds them, nothing is derived from their shape).

use vstd::prelude::*;

verus! {

/// A registered account as the credential store holds it.
#[derive(Debug)]
pub struct User {
    pub id: String,
    pub username: String,
    pub email: String,
    pub password_hash: String,
    pub bio: Option<String>,
    pub image: Option<String>,
    pub email_verified: bool,
    pub created_at: u64,
    pub updated_at: u64,
}

impl Clone for User {
    fn clone(&self) -> (r: Self)
        ensures
            r == *self,
    {
        User {
            id: self.id.clone(),
            username: self.username.clone(),
            email: self.email.clone(),
            password_hash: self.password_hash.clone(),
            bio: clone_opt(&self.bio),
            image: clone_opt(&self.image),
            email_verified: self.email_verified,
            created_at: self.created_at,
            updated_at: self.updated_at,
        }
    }
}

/// A row of the refresh-token ledger: one opaque long-lived credential,
/// redeemable exactly once.
#[derive(Debug)]
pub struct RefreshToken {
    pub user_id: String,
    pub token: String,
    pub created_at: u64,
    pub used: bool,
    pub used_at: Option<u64>,
}

impl Clone for RefreshToken {
    fn clone(&self) -> (r: Self)
        ensures
            r == *self,
    {
        RefreshToken {
            user_id: self.user_id.clone(),
            token: self.token.clone(),
            created_at: self.created_at,
            used: self.used,
            used_at: self.used_at,
        }
    }
}

/// A row of a single-use expiring token table (email verification and
/// password reset are two instances of the same shape).
#[derive(Debug)]
pub struct TimedToken {
    pub user_id: String,
    pub token: String,
    pub created_at: u64,
    pub expires_at: u64,
}

impl TimedToken {
    /// Whether the token must be treated as dead at instant `now`.
    /// The boundary is inclusive: a token presented exactly at its
    /// expiry instant is already expired.
    pub fn is_expired(&self, now: u64) -> (r: bool)
        ensures
            r == self.spec_expired(now),
    {
        now >= self.expires_at
    }

    /// Expiry rule: dead from `expires_at` on (inclusive boundary).
    pub open spec fn spec_expired(self, now: u64) -> bool {
        now >= self.expires_at
    }
}

impl Clone for TimedToken {
    fn clone(&self) -> (r: Self)
        ensures
            r == *self,
    {
        TimedToken {
            user_id: self.user_id.clone(),
            token: self.token.clone(),
            created_at: self.created_at,
            expires_at: self.expires_at,
        }
    }
}

/// Clones an optional string, keeping its value.
pub(crate) fn clone_opt(o: &Option<String>) -> (r: Option<String>)
    ensures
        r == *o,
{
    match o {
        Some(s) => Some(s.clone()),
        None => None,
    }
}

} // verus!
