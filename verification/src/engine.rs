//! The rotation engine and the service state it runs against.
//!
//! `AuthService` bundles the configuration, the credential store and the
//! three token ledgers; the flows are its methods. The engine's heart is
//! `rotate_with`: the refresh-token state machine with replay detection
//! and family revocation.
//!
//! Every flow takes the clock and every random draw as arguments, so its
//! whole behaviour is pinned by its contract; thin companions draw the
//! random values and delegate.

use vstd::prelude::*;
use crate::codec;
use crate::codec::{jwt_claims_of, jwt_token_of};
use crate::errors::AuthError;
use crate::models::RefreshToken;
use crate::refresh_ledger::{rt_at, rt_has, rt_index, RefreshTokenLedger};
use crate::store::{u_by_id, u_has_id, CredentialStore};
use crate::timed_ledger::TimedTokenLedger;
use crate::tokens::generate_refresh_token;

verus! {

/// Access tokens live fifteen minutes.
pub const ACCESS_TOKEN_TTL: u64 = 900;

/// Refresh tokens live thirty days.
pub const REFRESH_TOKEN_TTL: u64 = 2592000;

/// Email verification tokens live a day.
pub const VERIFICATION_TOKEN_TTL: u64 = 86400;

/// Password reset tokens live an hour.
pub const RESET_TOKEN_TTL: u64 = 3600;

/// The immutable configuration the engine is constructed with: the
/// signing secret and the four lifetimes, loaded once, never re-read.
pub struct AuthConfig {
    pub jwt_secret: String,
    pub access_token_ttl: u64,
    pub refresh_token_ttl: u64,
    pub verification_token_ttl: u64,
    pub reset_token_ttl: u64,
}

impl AuthConfig {
    /// The standard configuration around a signing secret.
    pub fn new(jwt_secret: String) -> (r: Self)
        ensures
            r.jwt_secret == jwt_secret,
            r.access_token_ttl == ACCESS_TOKEN_TTL,
            r.refresh_token_ttl == REFRESH_TOKEN_TTL,
            r.verification_token_ttl == VERIFICATION_TOKEN_TTL,
            r.reset_token_ttl == RESET_TOKEN_TTL,
    {
        AuthConfig {
            jwt_secret,
            access_token_ttl: ACCESS_TOKEN_TTL,
            refresh_token_ttl: REFRESH_TOKEN_TTL,
            verification_token_ttl: VERIFICATION_TOKEN_TTL,
            reset_token_ttl: RESET_TOKEN_TTL,
        }
    }
}

/// A mail the notifier is asked to send. The flows only ever decide and
/// describe it; performing the send is the caller's business, and its
/// failure never undoes what a flow already did.
#[derive(Debug)]
pub enum EmailRequest {
    /// The welcome mail carrying an email verification token.
    Verification { to: String, username: String, token: String },
    /// The mail carrying a password reset token.
    PasswordReset { to: String, username: String, token: String },
    /// The alert sent to an account owner when replay of a redeemed
    /// refresh token was detected.
    SecurityAlert { to: String, username: String },
}

/// The replacement pair a successful rotation returns.
#[derive(Debug)]
pub struct TokenPair {
    pub access_token: String,
    pub refresh_token: String,
}

/// Whether a refresh token row is past its lifetime at instant `now`.
/// The boundary is exclusive: the row is still live at exactly
/// `created_at + ttl`, and dead strictly after.
pub open spec fn refresh_expired(rec: RefreshToken, now: u64, ttl: u64) -> bool {
    now > rec.created_at + ttl
}

/// The authentication core: configuration, credential store and the
/// three token ledgers.
pub struct AuthService {
    pub config: AuthConfig,
    pub users: CredentialStore,
    pub refresh_tokens: RefreshTokenLedger,
    pub verification_tokens: TimedTokenLedger,
    pub reset_tokens: TimedTokenLedger,
}

impl AuthService {
    /// The service invariant: every table keeps its unique keys.
    pub open spec fn wf(&self) -> bool {
        &&& self.users.wf()
        &&& self.refresh_tokens.wf()
        &&& self.verification_tokens.wf()
        &&& self.reset_tokens.wf()
    }

    /// A fresh service with empty tables.
    pub fn new(config: AuthConfig) -> (r: Self)
        ensures
            r.wf(),
            r.config == config,
            r.users@ == Seq::<crate::models::User>::empty(),
            r.refresh_tokens@ == Seq::<RefreshToken>::empty(),
            r.verification_tokens@ == Seq::<crate::models::TimedToken>::empty(),
            r.reset_tokens@ == Seq::<crate::models::TimedToken>::empty(),
    {
        AuthService {
            config,
            users: CredentialStore::new(),
            refresh_tokens: RefreshTokenLedger::new(),
            verification_tokens: TimedTokenLedger::new(),
            reset_tokens: TimedTokenLedger::new(),
        }
    }

    /// The rotation state machine, with the replacement token value
    /// `fresh` supplied by the caller.
    ///
    /// A presented token that is unknown, expired or already redeemed
    /// fails `Unauthorized` — deliberately indistinguishable cases. An
    /// expired row is swept. A redeemed row is replay: every refresh
    /// token of that user is revoked before the call fails, and an
    /// alert to the account owner is requested. Only a live, unused,
    /// unexpired row is redeemed — marked used exactly once — and
    /// answered with a fresh pair for the same user.
    pub fn rotate_with(&mut self, presented: &String, fresh: &String, now: u64) -> (out: (
        Result<TokenPair, AuthError>,
        Option<EmailRequest>,
    ))
        requires
            old(self).wf(),
            now + old(self).config.access_token_ttl <= u64::MAX,
        ensures
            final(self).wf(),
            final(self).config == old(self).config,
            final(self).users@ == old(self).users@,
            final(self).verification_tokens@ == old(self).verification_tokens@,
            final(self).reset_tokens@ == old(self).reset_tokens@,
            // unknown token
            (!rt_has(old(self).refresh_tokens@, presented@) ==> out.0 == Err::<TokenPair, AuthError>(
                AuthError::Unauthorized,
            ) && out.1 is None && final(self).refresh_tokens@ == old(self).refresh_tokens@),
            // expired token: swept, refused
            ((rt_has(old(self).refresh_tokens@, presented@) && refresh_expired(
                rt_at(old(self).refresh_tokens@, presented@),
                now,
                old(self).config.refresh_token_ttl,
            )) ==> out.0 == Err::<TokenPair, AuthError>(AuthError::Unauthorized) && out.1 is None
                && final(self).refresh_tokens@ == old(self).refresh_tokens@.remove(
                rt_index(old(self).refresh_tokens@, presented@),
            )),
            // replay of a redeemed token: family revoked, owner alerted
            ((rt_has(old(self).refresh_tokens@, presented@) && !refresh_expired(
                rt_at(old(self).refresh_tokens@, presented@),
                now,
                old(self).config.refresh_token_ttl,
            ) && rt_at(old(self).refresh_tokens@, presented@).used) ==> ({
                let rec = rt_at(old(self).refresh_tokens@, presented@);
                &&& final(self).refresh_tokens@ == old(self).refresh_tokens@.filter(
                    |r: RefreshToken| r.user_id@ != rec.user_id@,
                )
                &&& forall|i: int|
                    0 <= i < final(self).refresh_tokens@.len()
                        ==> final(self).refresh_tokens@[i].user_id@ != rec.user_id@
                &&& (u_has_id(old(self).users@, rec.user_id@) ==> out.0 == Err::<
                    TokenPair,
                    AuthError,
                >(AuthError::Unauthorized) && (out.1 matches Some(a) && a matches
                    EmailRequest::SecurityAlert { to, username } && to == u_by_id(
                    old(self).users@,
                    rec.user_id@,
                ).email && username == u_by_id(old(self).users@, rec.user_id@).username))
                &&& (!u_has_id(old(self).users@, rec.user_id@) ==> out.0 == Err::<
                    TokenPair,
                    AuthError,
                >(AuthError::Internal) && out.1 is None)
            })),
            // first use of a live token: redeemed exactly once
            ((rt_has(old(self).refresh_tokens@, presented@) && !refresh_expired(
                rt_at(old(self).refresh_tokens@, presented@),
                now,
                old(self).config.refresh_token_ttl,
            ) && !rt_at(old(self).refresh_tokens@, presented@).used) ==> ({
                let rows = old(self).refresh_tokens@;
                let rec = rt_at(rows, presented@);
                let marked = rows.update(
                    rt_index(rows, presented@),
                    (RefreshToken { used: true, used_at: Some(now), ..rec }),
                );
                &&& out.1 is None
                &&& (out.0 matches Ok(pair) ==> {
                    &&& !rt_has(rows, fresh@)
                    &&& final(self).refresh_tokens@ == marked.push(
                        (RefreshToken {
                            user_id: rec.user_id,
                            token: *fresh,
                            created_at: now,
                            used: false,
                            used_at: None,
                        }),
                    )
                    &&& pair.refresh_token == *fresh
                    &&& pair.access_token@ == jwt_token_of(
                        rec.user_id@,
                        now,
                        (now + old(self).config.access_token_ttl) as u64,
                        old(self).config.jwt_secret@,
                    )
                    &&& jwt_claims_of(pair.access_token@, old(self).config.jwt_secret@) == Some(
                        (rec.user_id@, now, (now + old(self).config.access_token_ttl) as u64),
                    )
                    &&& pair.access_token@.len() > 0
                })
                &&& (out.0 is Err ==> out.0 == Err::<TokenPair, AuthError>(AuthError::Internal)
                    && final(self).refresh_tokens@ == marked)
                &&& (!rt_has(rows, fresh@) <==> out.0 is Ok)
            })),
    {
        let rec = match self.refresh_tokens.find_by_token(presented) {
            Some(r) => r,
            None => {
                return (Err(AuthError::Unauthorized), None);
            },
        };
        let expired = now > rec.created_at && now - rec.created_at
            > self.config.refresh_token_ttl;
        if expired {
            self.refresh_tokens.delete_token(presented);
            return (Err(AuthError::Unauthorized), None);
        }
        if !self.refresh_tokens.mark_used_if_unused(presented, now) {
            // the row exists and is already used: replay. Revocation is
            // the safety-critical action; the alert is advisory and its
            // delivery is the caller's problem.
            self.refresh_tokens.delete_all_user_tokens(&rec.user_id);
            let user = match self.users.find_by_id(&rec.user_id) {
                Some(u) => u,
                None => {
                    return (Err(AuthError::Internal), None);
                },
            };
            return (
                (Err(AuthError::Unauthorized)),
                (Some(
                    (EmailRequest::SecurityAlert { to: user.email, username: user.username }),
                )),
            );
        }
        proof {
            let rows = old(self).refresh_tokens@;
            let marked = self.refresh_tokens@;
            assert forall|k: int|
                0 <= k < marked.len() implies marked[k].token@ == rows[k].token@ by {
            }
            if rt_has(marked, fresh@) {
                let i = choose|i: int| 0 <= i < marked.len() && marked[i].token@ == fresh@;
                assert(rows[i].token@ == fresh@);
            }
            if rt_has(rows, fresh@) {
                let i = choose|i: int| 0 <= i < rows.len() && rows[i].token@ == fresh@;
                assert(marked[i].token@ == fresh@);
            }
            assert(rt_has(marked, fresh@) == rt_has(rows, fresh@));
        }
        let access = match codec::generate_token(
            &rec.user_id,
            self.config.jwt_secret.as_str(),
            now,
            self.config.access_token_ttl,
        ) {
            Ok(t) => t,
            Err(_) => {
                return (Err(AuthError::Internal), None);
            },
        };
        match self.refresh_tokens.create_token(&rec.user_id, fresh, now) {
            Ok(created) => {
                proof {
                    assert(created == (RefreshToken {
                        user_id: rec.user_id,
                        token: *fresh,
                        created_at: now,
                        used: false,
                        used_at: None,
                    }));
                }
            },
            Err(_) => {
                return (Err(AuthError::Internal), None);
            },
        }
        ((Ok((TokenPair { access_token: access, refresh_token: fresh.clone() }))), None)
    }

    /// Rotation as presented to the edge: draws the replacement token
    /// value itself, then runs the state machine.
    pub fn rotate(&mut self, presented: &String, now: u64) -> (out: (
        Result<TokenPair, AuthError>,
        Option<EmailRequest>,
    ))
        requires
            old(self).wf(),
            now + old(self).config.access_token_ttl <= u64::MAX,
        ensures
            final(self).wf(),
            final(self).config == old(self).config,
            final(self).users@ == old(self).users@,
            final(self).verification_tokens@ == old(self).verification_tokens@,
            final(self).reset_tokens@ == old(self).reset_tokens@,
            (!rt_has(old(self).refresh_tokens@, presented@) ==> out.0 == Err::<TokenPair, AuthError>(
                AuthError::Unauthorized,
            ) && out.1 is None && final(self).refresh_tokens@ == old(self).refresh_tokens@),
            ((rt_has(old(self).refresh_tokens@, presented@) && refresh_expired(
                rt_at(old(self).refresh_tokens@, presented@),
                now,
                old(self).config.refresh_token_ttl,
            )) ==> out.0 == Err::<TokenPair, AuthError>(AuthError::Unauthorized) && out.1 is None
                && final(self).refresh_tokens@ == old(self).refresh_tokens@.remove(
                rt_index(old(self).refresh_tokens@, presented@),
            )),
            ((rt_has(old(self).refresh_tokens@, presented@) && !refresh_expired(
                rt_at(old(self).refresh_tokens@, presented@),
                now,
                old(self).config.refresh_token_ttl,
            ) && rt_at(old(self).refresh_tokens@, presented@).used) ==> ({
                let rec = rt_at(old(self).refresh_tokens@, presented@);
                &&& final(self).refresh_tokens@ == old(self).refresh_tokens@.filter(
                    |r: RefreshToken| r.user_id@ != rec.user_id@,
                )
                &&& forall|i: int|
                    0 <= i < final(self).refresh_tokens@.len()
                        ==> final(self).refresh_tokens@[i].user_id@ != rec.user_id@
                &&& (u_has_id(old(self).users@, rec.user_id@) ==> out.0 == Err::<
                    TokenPair,
                    AuthError,
                >(AuthError::Unauthorized) && (out.1 matches Some(a) && a matches
                    EmailRequest::SecurityAlert { to, username } && to == u_by_id(
                    old(self).users@,
                    rec.user_id@,
                ).email && username == u_by_id(old(self).users@, rec.user_id@).username))
                &&& (!u_has_id(old(self).users@, rec.user_id@) ==> out.0 == Err::<
                    TokenPair,
                    AuthError,
                >(AuthError::Internal) && out.1 is None)
            })),
            ((rt_has(old(self).refresh_tokens@, presented@) && !refresh_expired(
                rt_at(old(self).refresh_tokens@, presented@),
                now,
                old(self).config.refresh_token_ttl,
            ) && !rt_at(old(self).refresh_tokens@, presented@).used) ==> ({
                let rows = old(self).refresh_tokens@;
                let rec = rt_at(rows, presented@);
                let marked = rows.update(
                    rt_index(rows, presented@),
                    (RefreshToken { used: true, used_at: Some(now), ..rec }),
                );
                &&& out.1 is None
                &&& (out.0 matches Ok(pair) ==> {
                    &&& pair.refresh_token@.len() == 36
                    &&& !rt_has(rows, pair.refresh_token@)
                    &&& final(self).refresh_tokens@ == marked.push(
                        (RefreshToken {
                            user_id: rec.user_id,
                            token: pair.refresh_token,
                            created_at: now,
                            used: false,
                            used_at: None,
                        }),
                    )
                    &&& pair.access_token@ == jwt_token_of(
                        rec.user_id@,
                        now,
                        (now + old(self).config.access_token_ttl) as u64,
                        old(self).config.jwt_secret@,
                    )
                    &&& pair.access_token@.len() > 0
                })
                &&& (out.0 is Err ==> out.0 == Err::<TokenPair, AuthError>(AuthError::Internal)
                    && final(self).refresh_tokens@ == marked)
                &&& (out.0 is Ok || out.0 == Err::<TokenPair, AuthError>(AuthError::Internal))
            })),
    {
        let fresh = generate_refresh_token();
        let out = self.rotate_with(presented, &fresh, now);
        proof {
            if rt_has(old(self).refresh_tokens@, presented@) && !refresh_expired(
                rt_at(old(self).refresh_tokens@, presented@),
                now,
                old(self).config.refresh_token_ttl,
            ) && !rt_at(old(self).refresh_tokens@, presented@).used {
                if out.0 is Ok {
                    assert(out.0->Ok_0.refresh_token == fresh);
                }
            }
        }
        out
    }

    /// Deletes the presented refresh token. Other sessions of the same
    /// user stay logged in; an unknown token is a success all the same,
    /// so a repeated logout is a no-op, not an error.
    pub fn logout(&mut self, token: &String) -> (r: String)
        requires
            old(self).wf(),
        ensures
            final(self).wf(),
            final(self).config == old(self).config,
            final(self).users@ == old(self).users@,
            final(self).verification_tokens@ == old(self).verification_tokens@,
            final(self).reset_tokens@ == old(self).reset_tokens@,
            rt_has(old(self).refresh_tokens@, token@) ==> final(self).refresh_tokens@ == old(self).refresh_tokens@.remove(rt_index(old(self).refresh_tokens@, token@)),
            !rt_has(old(self).refresh_tokens@, token@) ==> final(self).refresh_tokens@ == old(self).refresh_tokens@,
            !rt_has(final(self).refresh_tokens@, token@),
            r@ == spec_logout_message(),
    {
        self.refresh_tokens.delete_token(token);
        logout_message()
    }
}

/// The fixed acknowledgement every logout returns.
pub open spec fn spec_logout_message() -> Seq<char> {
    "Logged out successfully"@
}

/// Builds the logout acknowledgement.
fn logout_message() -> (r: String)
    ensures
        r@ == spec_logout_message(),
{
    proof {
        reveal_strlit("Logged out successfully");
    }
    "Logged out successfully".to_owned()
}

} // verus!
