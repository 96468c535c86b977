//! The account flows: registration, login, email verification, password
//! reset, and reading the current user from an access token.
//!
//! Like the rotation engine, every flow takes the clock and every random
//! draw as arguments; companions draw the random values and delegate.

use vstd::prelude::*;
use vstd::string::StrSliceExecFns;
use crate::codec;
use crate::codec::{jwt_claims_of, jwt_token_of, spec_validate};
use crate::engine::{AuthService, EmailRequest};
use crate::errors::AuthError;
use crate::models::{RefreshToken, TimedToken, User};
use crate::password::{bcrypt_check, hash_password, verify_password};
use crate::refresh_ledger::rt_has;
use crate::store::{u_by_email, u_by_id, u_has_email, u_has_id, u_id_index, u_has_username};
use crate::timed_ledger::{tt_at, tt_has, tt_index};
use crate::tokens::{generate_refresh_token, generate_verification_token};
use crate::validation::{email_ok, login_valid, registration_valid, validate_login, validate_registration};

verus! {

/// What a successful registration or login hands back: the account and
/// a fresh access/refresh pair.
#[derive(Debug)]
pub struct AuthSession {
    pub user: User,
    pub access_token: String,
    pub refresh_token: String,
}

/// The fixed acknowledgement a forgot-password request returns, whether
/// or not the email names an account.
pub open spec fn spec_forgot_password_message() -> Seq<char> {
    "If that email exists, a password reset link has been sent"@
}

/// The fixed acknowledgement a successful password reset returns.
pub open spec fn spec_reset_password_message() -> Seq<char> {
    "Password has been reset successfully. You can now log in with your new password"@
}

/// The fixed acknowledgement a successful email verification returns.
pub open spec fn spec_verify_email_message() -> Seq<char> {
    "Email verified successfully!"@
}

fn forgot_password_message() -> (r: String)
    ensures
        r@ == spec_forgot_password_message(),
{
    proof {
        reveal_strlit("If that email exists, a password reset link has been sent");
    }
    "If that email exists, a password reset link has been sent".to_owned()
}

fn reset_password_message() -> (r: String)
    ensures
        r@ == spec_reset_password_message(),
{
    proof {
        reveal_strlit(
            "Password has been reset successfully. You can now log in with your new password",
        );
    }
    "Password has been reset successfully. You can now log in with your new password".to_owned()
}

fn verify_email_message() -> (r: String)
    ensures
        r@ == spec_verify_email_message(),
{
    proof {
        reveal_strlit("Email verified successfully!");
    }
    "Email verified successfully!".to_owned()
}

impl AuthService {
    /// Login against stored credentials, with the fresh refresh-token
    /// value supplied by the caller. On success the session's refresh
    /// token is `fresh`, which was live for nobody before the call.
    /// Unknown email and wrong password are indistinguishable.
    pub fn login_with(&mut self, email: &String, password: &String, fresh: &String, now: u64) -> (r:
        Result<AuthSession, AuthError>)
        requires
            old(self).wf(),
            now + old(self).config.access_token_ttl <= u64::MAX,
        ensures
            final(self).wf(),
            final(self).config == old(self).config,
            final(self).users@ == old(self).users@,
            final(self).verification_tokens@ == old(self).verification_tokens@,
            final(self).reset_tokens@ == old(self).reset_tokens@,
            r is Err ==> final(self).refresh_tokens@ == old(self).refresh_tokens@,
            (!login_valid(email@, password@) <==> r == Err::<AuthSession, AuthError>(
                AuthError::Validation,
            )),
            (login_valid(email@, password@) && !u_has_email(old(self).users@, email@)) ==> r
                == Err::<AuthSession, AuthError>(AuthError::Unauthorized),
            (login_valid(email@, password@) && u_has_email(old(self).users@, email@)
                && bcrypt_check(
                password@,
                u_by_email(old(self).users@, email@).password_hash@,
            ) == Some(false)) ==> r == Err::<AuthSession, AuthError>(AuthError::Unauthorized),
            (login_valid(email@, password@) && u_has_email(old(self).users@, email@)
                && bcrypt_check(
                password@,
                u_by_email(old(self).users@, email@).password_hash@,
            ) is None) ==> r == Err::<AuthSession, AuthError>(AuthError::Internal),
            r is Ok ==> login_valid(email@, password@) && u_has_email(old(self).users@, email@)
                && bcrypt_check(password@, u_by_email(old(self).users@, email@).password_hash@)
                == Some(true),
            (r matches Ok(s) ==> ({
                let u = u_by_email(old(self).users@, email@);
                &&& s.user == u
                &&& !rt_has(old(self).refresh_tokens@, fresh@)
                &&& s.refresh_token == *fresh
                &&& final(self).refresh_tokens@ == old(self).refresh_tokens@.push(
                    (RefreshToken {
                        user_id: u.id,
                        token: *fresh,
                        created_at: now,
                        used: false,
                        used_at: None,
                    }),
                )
                &&& s.access_token@ == jwt_token_of(
                    u.id@,
                    now,
                    (now + old(self).config.access_token_ttl) as u64,
                    old(self).config.jwt_secret@,
                )
                &&& jwt_claims_of(s.access_token@, old(self).config.jwt_secret@) == Some(
                    (u.id@, now, (now + old(self).config.access_token_ttl) as u64),
                )
                &&& s.access_token@.len() > 0
            })),
            (login_valid(email@, password@) && u_has_email(old(self).users@, email@)
                && bcrypt_check(
                password@,
                u_by_email(old(self).users@, email@).password_hash@,
            ) == Some(true) && rt_has(old(self).refresh_tokens@, fresh@)) ==> r == Err::<
                AuthSession,
                AuthError,
            >(AuthError::Internal),
            (login_valid(email@, password@) && u_has_email(old(self).users@, email@)
                && bcrypt_check(
                password@,
                u_by_email(old(self).users@, email@).password_hash@,
            ) == Some(true) && !rt_has(old(self).refresh_tokens@, fresh@)) ==> r is Ok,
            (r is Err ==> r == Err::<AuthSession, AuthError>(AuthError::Validation) || r == Err::<
                AuthSession,
                AuthError,
            >(AuthError::Unauthorized) || r == Err::<AuthSession, AuthError>(AuthError::Internal)),
    {
        if let Err(e) = validate_login(email, password) {
            return Err(e);
        }
        let user = match self.users.find_by_email(email) {
            Some(u) => u,
            None => {
                return Err(AuthError::Unauthorized);
            },
        };
        let valid_password = match verify_password(password.as_str(), user.password_hash.as_str()) {
            Ok(b) => b,
            Err(_) => {
                return Err(AuthError::Internal);
            },
        };
        if !valid_password {
            return Err(AuthError::Unauthorized);
        }
        let access = match codec::generate_token(
            &user.id,
            self.config.jwt_secret.as_str(),
            now,
            self.config.access_token_ttl,
        ) {
            Ok(t) => t,
            Err(_) => {
                return Err(AuthError::Internal);
            },
        };
        match self.refresh_tokens.create_token(&user.id, fresh, now) {
            Ok(created) => {
                proof {
                    assert(created == (RefreshToken {
                        user_id: user.id,
                        token: *fresh,
                        created_at: now,
                        used: false,
                        used_at: None,
                    }));
                }
            },
            Err(_) => {
                return Err(AuthError::Internal);
            },
        }
        Ok(AuthSession { user, access_token: access, refresh_token: fresh.clone() })
    }

    /// Login as presented to the edge: draws the fresh refresh-token
    /// value itself.
    pub fn login(&mut self, email: &String, password: &String, now: u64) -> (r: Result<
        AuthSession,
        AuthError,
    >)
        requires
            old(self).wf(),
            now + old(self).config.access_token_ttl <= u64::MAX,
        ensures
            final(self).wf(),
            final(self).config == old(self).config,
            final(self).users@ == old(self).users@,
            final(self).verification_tokens@ == old(self).verification_tokens@,
            final(self).reset_tokens@ == old(self).reset_tokens@,
            r is Err ==> final(self).refresh_tokens@ == old(self).refresh_tokens@,
            (!login_valid(email@, password@) <==> r == Err::<AuthSession, AuthError>(
                AuthError::Validation,
            )),
            (login_valid(email@, password@) && !u_has_email(old(self).users@, email@)) ==> r
                == Err::<AuthSession, AuthError>(AuthError::Unauthorized),
            r is Ok ==> login_valid(email@, password@) && u_has_email(old(self).users@, email@)
                && bcrypt_check(password@, u_by_email(old(self).users@, email@).password_hash@)
                == Some(true),
            (login_valid(email@, password@) && u_has_email(old(self).users@, email@)
                && bcrypt_check(
                password@,
                u_by_email(old(self).users@, email@).password_hash@,
            ) == Some(true)) ==> (r is Ok || r == Err::<AuthSession, AuthError>(
                AuthError::Internal,
            )),
            (r is Err ==> r == Err::<AuthSession, AuthError>(AuthError::Validation) || r == Err::<
                AuthSession,
                AuthError,
            >(AuthError::Unauthorized) || r == Err::<AuthSession, AuthError>(AuthError::Internal)),
            (r matches Ok(s) ==> ({
                let u = u_by_email(old(self).users@, email@);
                &&& s.user == u
                &&& s.refresh_token@.len() == 36
                &&& !rt_has(old(self).refresh_tokens@, s.refresh_token@)
                &&& final(self).refresh_tokens@ == old(self).refresh_tokens@.push(
                    (RefreshToken {
                        user_id: u.id,
                        token: s.refresh_token,
                        created_at: now,
                        used: false,
                        used_at: None,
                    }),
                )
                &&& s.access_token@ == jwt_token_of(
                    u.id@,
                    now,
                    (now + old(self).config.access_token_ttl) as u64,
                    old(self).config.jwt_secret@,
                )
                &&& s.access_token@.len() > 0
            })),
    {
        let fresh = generate_refresh_token();
        self.login_with(email, password, &fresh, now)
    }

    /// Registration, with the new account's id and both token values
    /// supplied by the caller. On success the account exists,
    /// unverified, its stored hash matches the password, a verification
    /// token with a day's lifetime is live, a refresh token is live, and
    /// the verification mail to send is described.
    pub fn register_with(
        &mut self,
        username: &String,
        email: &String,
        password: &String,
        user_id: &String,
        verification_token: &String,
        refresh_value: &String,
        now: u64,
    ) -> (r: Result<(AuthSession, EmailRequest), AuthError>)
        requires
            old(self).wf(),
            now + old(self).config.access_token_ttl <= u64::MAX,
            now + old(self).config.verification_token_ttl <= u64::MAX,
        ensures
            final(self).wf(),
            final(self).config == old(self).config,
            final(self).reset_tokens@ == old(self).reset_tokens@,
            (!registration_valid(username@, email@, password@) <==> r == Err::<
                (AuthSession, EmailRequest),
                AuthError,
            >(AuthError::Validation)),
            ((registration_valid(username@, email@, password@) && (u_has_email(
                old(self).users@,
                email@,
            ) || u_has_username(old(self).users@, username@))) <==> r == Err::<
                (AuthSession, EmailRequest),
                AuthError,
            >(AuthError::Conflict)),
            r is Err ==> final(self).users@ == old(self).users@
                && final(self).verification_tokens@ == old(self).verification_tokens@
                && final(self).refresh_tokens@ == old(self).refresh_tokens@,
            (r is Err ==> r == Err::<(AuthSession, EmailRequest), AuthError>(AuthError::Validation)
                || r == Err::<(AuthSession, EmailRequest), AuthError>(AuthError::Conflict) || r
                == Err::<(AuthSession, EmailRequest), AuthError>(AuthError::Internal)),
            ((registration_valid(username@, email@, password@) && !u_has_email(
                old(self).users@,
                email@,
            ) && !u_has_username(old(self).users@, username@) && (u_has_id(
                old(self).users@,
                user_id@,
            ) || tt_has(old(self).verification_tokens@, verification_token@) || rt_has(
                old(self).refresh_tokens@,
                refresh_value@,
            ))) ==> r == Err::<(AuthSession, EmailRequest), AuthError>(AuthError::Internal)),
            ((registration_valid(username@, email@, password@) && !u_has_email(
                old(self).users@,
                email@,
            ) && !u_has_username(old(self).users@, username@) && !u_has_id(
                old(self).users@,
                user_id@,
            ) && !tt_has(old(self).verification_tokens@, verification_token@) && !rt_has(
                old(self).refresh_tokens@,
                refresh_value@,
            )) ==> (r is Ok || r == Err::<(AuthSession, EmailRequest), AuthError>(
                AuthError::Internal,
            ))),
            (r matches Ok(out) ==> ({
                let s = out.0;
                let em = out.1;
                &&& registration_valid(username@, email@, password@)
                &&& !u_has_email(old(self).users@, email@)
                &&& !u_has_username(old(self).users@, username@)
                &&& !u_has_id(old(self).users@, user_id@)
                &&& s.user.id == *user_id
                &&& s.user.username == *username
                &&& s.user.email == *email
                &&& s.user.email_verified == false
                &&& s.user.bio is None
                &&& s.user.image is None
                &&& s.user.created_at == now
                &&& bcrypt_check(password@, s.user.password_hash@) == Some(true)
                &&& final(self).users@ == old(self).users@.push(s.user)
                &&& !tt_has(old(self).verification_tokens@, verification_token@)
                &&& final(self).verification_tokens@ == old(self).verification_tokens@.push(
                    (TimedToken {
                        user_id: *user_id,
                        token: *verification_token,
                        created_at: now,
                        expires_at: (now + old(self).config.verification_token_ttl) as u64,
                    }),
                )
                &&& !rt_has(old(self).refresh_tokens@, refresh_value@)
                &&& final(self).refresh_tokens@ == old(self).refresh_tokens@.push(
                    (RefreshToken {
                        user_id: *user_id,
                        token: *refresh_value,
                        created_at: now,
                        used: false,
                        used_at: None,
                    }),
                )
                &&& s.refresh_token == *refresh_value
                &&& s.access_token@ == jwt_token_of(
                    user_id@,
                    now,
                    (now + old(self).config.access_token_ttl) as u64,
                    old(self).config.jwt_secret@,
                )
                &&& jwt_claims_of(s.access_token@, old(self).config.jwt_secret@) == Some(
                    (user_id@, now, (now + old(self).config.access_token_ttl) as u64),
                )
                &&& s.access_token@.len() > 0
                &&& (em matches EmailRequest::Verification { to, username: un, token } && to
                    == *email && un == *username && token == *verification_token)
            })),
    {
        if let Err(e) = validate_registration(username, email, password) {
            return Err(e);
        }
        if self.users.contains_email(email) || self.users.username_taken(username) {
            return Err(AuthError::Conflict);
        }
        // a collision on the caller-supplied id or either token value is a
        // storage-level failure, checked up front so that no failure can
        // leave a half-registered account behind
        if self.users.contains_id(user_id) {
            return Err(AuthError::Internal);
        }
        if self.verification_tokens.contains_token(verification_token) {
            return Err(AuthError::Internal);
        }
        if self.refresh_tokens.contains_token(refresh_value) {
            return Err(AuthError::Internal);
        }
        let password_hash = match hash_password(password.as_str()) {
            Ok(h) => h,
            Err(_) => {
                return Err(AuthError::Internal);
            },
        };
        let user = match self.users.create(user_id, username, email, &password_hash, now) {
            Ok(u) => u,
            Err(_) => {
                return Err(AuthError::Internal);
            },
        };
        let expires_at = now + self.config.verification_token_ttl;
        match self.verification_tokens.create_token(user_id, verification_token, now, expires_at) {
            Ok(created) => {
                proof {
                    assert(created == (TimedToken {
                        user_id: *user_id,
                        token: *verification_token,
                        created_at: now,
                        expires_at: (now
                            + old(self).config.verification_token_ttl) as u64,
                    }));
                }
            },
            Err(_) => {
                return Err(AuthError::Internal);
            },
        }
        let access = match codec::generate_token(
            user_id,
            self.config.jwt_secret.as_str(),
            now,
            self.config.access_token_ttl,
        ) {
            Ok(t) => t,
            Err(_) => {
                return Err(AuthError::Internal);
            },
        };
        match self.refresh_tokens.create_token(user_id, refresh_value, now) {
            Ok(created) => {
                proof {
                    assert(created == (RefreshToken {
                        user_id: *user_id,
                        token: *refresh_value,
                        created_at: now,
                        used: false,
                        used_at: None,
                    }));
                }
            },
            Err(_) => {
                return Err(AuthError::Internal);
            },
        }
        let em = EmailRequest::Verification {
            to: email.clone(),
            username: username.clone(),
            token: verification_token.clone(),
        };
        Ok((AuthSession { user, access_token: access, refresh_token: refresh_value.clone() }, em))
    }

    /// Registration as presented to the edge: draws the account id and
    /// both token values itself.
    pub fn register(&mut self, username: &String, email: &String, password: &String, now: u64) -> (r:
        Result<(AuthSession, EmailRequest), AuthError>)
        requires
            old(self).wf(),
            now + old(self).config.access_token_ttl <= u64::MAX,
            now + old(self).config.verification_token_ttl <= u64::MAX,
        ensures
            final(self).wf(),
            final(self).config == old(self).config,
            final(self).reset_tokens@ == old(self).reset_tokens@,
            (!registration_valid(username@, email@, password@) <==> r == Err::<
                (AuthSession, EmailRequest),
                AuthError,
            >(AuthError::Validation)),
            ((registration_valid(username@, email@, password@) && (u_has_email(
                old(self).users@,
                email@,
            ) || u_has_username(old(self).users@, username@))) <==> r == Err::<
                (AuthSession, EmailRequest),
                AuthError,
            >(AuthError::Conflict)),
            r is Err ==> final(self).users@ == old(self).users@
                && final(self).verification_tokens@ == old(self).verification_tokens@
                && final(self).refresh_tokens@ == old(self).refresh_tokens@,
            (r is Err ==> r == Err::<(AuthSession, EmailRequest), AuthError>(AuthError::Validation)
                || r == Err::<(AuthSession, EmailRequest), AuthError>(AuthError::Conflict) || r
                == Err::<(AuthSession, EmailRequest), AuthError>(AuthError::Internal)),
            (r matches Ok(out) ==> ({
                let s = out.0;
                let em = out.1;
                &&& s.user.username == *username
                &&& s.user.email == *email
                &&& s.user.email_verified == false
                &&& s.user.created_at == now
                &&& bcrypt_check(password@, s.user.password_hash@) == Some(true)
                &&& final(self).users@ == old(self).users@.push(s.user)
                &&& final(self).refresh_tokens@ == old(self).refresh_tokens@.push(
                    (RefreshToken {
                        user_id: s.user.id,
                        token: s.refresh_token,
                        created_at: now,
                        used: false,
                        used_at: None,
                    }),
                )
                &&& !rt_has(old(self).refresh_tokens@, s.refresh_token@)
                &&& s.refresh_token@.len() == 36
                &&& s.access_token@.len() > 0
                &&& (em matches EmailRequest::Verification { to, username: un, token } && to
                    == *email && un == *username && token@.len() == 32 && !tt_has(
                    old(self).verification_tokens@,
                    token@,
                ) && final(self).verification_tokens@ == old(self).verification_tokens@.push(
                    (TimedToken {
                        user_id: s.user.id,
                        token: token,
                        created_at: now,
                        expires_at: (now + old(self).config.verification_token_ttl) as u64,
                    }),
                ))
            })),
    {
        let user_id = generate_refresh_token();
        let verification_token = generate_verification_token();
        let refresh_value = generate_refresh_token();
        self.register_with(
            username,
            email,
            password,
            &user_id,
            &verification_token,
            &refresh_value,
            now,
        )
    }

    /// Redeems an email verification token at instant `now`: an unknown
    /// token is `NotFound`; an expired one is swept and `Gone`; a live
    /// one marks its account verified and is consumed.
    pub fn verify_email(&mut self, token: &String, now: u64) -> (r: Result<String, AuthError>)
        requires
            old(self).wf(),
        ensures
            final(self).wf(),
            final(self).config == old(self).config,
            final(self).refresh_tokens@ == old(self).refresh_tokens@,
            final(self).reset_tokens@ == old(self).reset_tokens@,
            (!tt_has(old(self).verification_tokens@, token@) <==> r == Err::<String, AuthError>(
                AuthError::NotFound,
            )),
            !tt_has(old(self).verification_tokens@, token@) ==> final(self).users@ == old(self).users@
                && final(self).verification_tokens@ == old(self).verification_tokens@,
            ((tt_has(old(self).verification_tokens@, token@) && tt_at(
                old(self).verification_tokens@,
                token@,
            ).spec_expired(now)) <==> r == Err::<String, AuthError>(AuthError::Gone)),
            r == Err::<String, AuthError>(AuthError::Gone) ==> final(self).users@ == old(self).users@
                && final(self).verification_tokens@ == old(self).verification_tokens@.remove(
                tt_index(old(self).verification_tokens@, token@),
            ),
            (r matches Ok(msg) ==> ({
                let rec = tt_at(old(self).verification_tokens@, token@);
                &&& tt_has(old(self).verification_tokens@, token@)
                &&& !rec.spec_expired(now)
                &&& msg@ == spec_verify_email_message()
                &&& final(self).verification_tokens@ == old(self).verification_tokens@.remove(
                    tt_index(old(self).verification_tokens@, token@),
                )
                &&& (u_has_id(old(self).users@, rec.user_id@) ==> final(self).users@ == old(self).users@.update(
                    u_id_index(old(self).users@, rec.user_id@),
                    (User {
                        email_verified: true,
                        updated_at: now,
                        ..u_by_id(old(self).users@, rec.user_id@)
                    }),
                ))
                &&& (!u_has_id(old(self).users@, rec.user_id@) ==> final(self).users@ == old(self).users@)
            })),
            r is Ok <==> tt_has(old(self).verification_tokens@, token@) && !tt_at(
                old(self).verification_tokens@,
                token@,
            ).spec_expired(now),
    {
        let rec = match self.verification_tokens.find_by_token(token) {
            Some(rec) => rec,
            None => {
                return Err(AuthError::NotFound);
            },
        };
        if rec.is_expired(now) {
            self.verification_tokens.delete_token(token);
            return Err(AuthError::Gone);
        }
        self.users.set_email_verified(&rec.user_id, now);
        self.verification_tokens.delete_token(token);
        Ok(verify_email_message())
    }

    /// Asks for a password reset, with the reset-token value supplied by
    /// the caller. The acknowledgement is one fixed message whether or
    /// not the email names an account — account existence must not leak
    /// — and only an existing account gets a token row and a mail.
    pub fn forgot_password_with(&mut self, email: &String, reset_value: &String, now: u64) -> (r:
        Result<(String, Option<EmailRequest>), AuthError>)
        requires
            old(self).wf(),
            now + old(self).config.reset_token_ttl <= u64::MAX,
        ensures
            final(self).wf(),
            final(self).config == old(self).config,
            final(self).users@ == old(self).users@,
            final(self).refresh_tokens@ == old(self).refresh_tokens@,
            final(self).verification_tokens@ == old(self).verification_tokens@,
            (!email_ok(email@) <==> r == Err::<(String, Option<EmailRequest>), AuthError>(
                AuthError::Validation,
            )),
            r is Err ==> final(self).reset_tokens@ == old(self).reset_tokens@,
            (r is Err ==> r == Err::<(String, Option<EmailRequest>), AuthError>(
                AuthError::Validation,
            ) || r == Err::<(String, Option<EmailRequest>), AuthError>(AuthError::Internal)),
            (email_ok(email@) && !u_has_email(old(self).users@, email@)) ==> (r matches Ok(out)
                && out.0@ == spec_forgot_password_message() && out.1 is None && final(self).reset_tokens@ == old(self).reset_tokens@),
            (email_ok(email@) && u_has_email(old(self).users@, email@) && tt_has(
                old(self).reset_tokens@,
                reset_value@,
            )) ==> r == Err::<(String, Option<EmailRequest>), AuthError>(AuthError::Internal),
            (email_ok(email@) && u_has_email(old(self).users@, email@) && !tt_has(
                old(self).reset_tokens@,
                reset_value@,
            )) ==> (r matches Ok(out) && ({
                let u = u_by_email(old(self).users@, email@);
                &&& out.0@ == spec_forgot_password_message()
                &&& final(self).reset_tokens@ == old(self).reset_tokens@.push(
                    (TimedToken {
                        user_id: u.id,
                        token: *reset_value,
                        created_at: now,
                        expires_at: (now + old(self).config.reset_token_ttl) as u64,
                    }),
                )
                &&& (out.1 matches Some(em) && em matches EmailRequest::PasswordReset {
                    to,
                    username,
                    token,
                } && to == u.email && username == u.username && token == *reset_value)
            })),
    {
        if !crate::validation::check_email(email) {
            return Err(AuthError::Validation);
        }
        let user = match self.users.find_by_email(email) {
            Some(u) => u,
            None => {
                return Ok((forgot_password_message(), None));
            },
        };
        let expires_at = now + self.config.reset_token_ttl;
        match self.reset_tokens.create_token(&user.id, reset_value, now, expires_at) {
            Ok(created) => {
                proof {
                    assert(created == (TimedToken {
                        user_id: user.id,
                        token: *reset_value,
                        created_at: now,
                        expires_at: (now + old(self).config.reset_token_ttl) as u64,
                    }));
                }
            },
            Err(_) => {
                return Err(AuthError::Internal);
            },
        }
        let em = EmailRequest::PasswordReset {
            to: user.email,
            username: user.username,
            token: reset_value.clone(),
        };
        Ok((forgot_password_message(), Some(em)))
    }

    /// Forgot-password as presented to the edge: draws the reset-token
    /// value itself.
    pub fn forgot_password(&mut self, email: &String, now: u64) -> (r: Result<
        (String, Option<EmailRequest>),
        AuthError,
    >)
        requires
            old(self).wf(),
            now + old(self).config.reset_token_ttl <= u64::MAX,
        ensures
            final(self).wf(),
            final(self).config == old(self).config,
            final(self).users@ == old(self).users@,
            final(self).refresh_tokens@ == old(self).refresh_tokens@,
            final(self).verification_tokens@ == old(self).verification_tokens@,
            (!email_ok(email@) <==> r == Err::<(String, Option<EmailRequest>), AuthError>(
                AuthError::Validation,
            )),
            r is Err ==> final(self).reset_tokens@ == old(self).reset_tokens@,
            (r is Err ==> r == Err::<(String, Option<EmailRequest>), AuthError>(
                AuthError::Validation,
            ) || r == Err::<(String, Option<EmailRequest>), AuthError>(AuthError::Internal)),
            (email_ok(email@) && !u_has_email(old(self).users@, email@)) ==> (r matches Ok(out)
                && out.0@ == spec_forgot_password_message() && out.1 is None && final(self).reset_tokens@ == old(self).reset_tokens@),
            (r matches Ok(out) ==> out.0@ == spec_forgot_password_message()),
            (u_has_email(old(self).users@, email@) ==> (r matches Ok(out) ==> (out.1 matches Some(
                em,
            ) && ({
                let u = u_by_email(old(self).users@, email@);
                em matches EmailRequest::PasswordReset { to, username, token } && to == u.email
                    && username == u.username && token@.len() == 32 && final(self).reset_tokens@
                    == old(self).reset_tokens@.push(
                    (TimedToken {
                        user_id: u.id,
                        token: token,
                        created_at: now,
                        expires_at: (now + old(self).config.reset_token_ttl) as u64,
                    }),
                )
            })))),
    {
        let reset_value = generate_verification_token();
        self.forgot_password_with(email, &reset_value, now)
    }

    /// Redeems a password reset token at instant `now`: an unknown token
    /// is `NotFound`; an expired one is swept and `Gone`; a live one
    /// re-hashes the new password into the account, then consumes every
    /// outstanding reset token of that user and revokes every refresh
    /// token, forcing a fresh login everywhere.
    pub fn reset_password(&mut self, token: &String, new_password: &String, now: u64) -> (r: Result<
        String,
        AuthError,
    >)
        requires
            old(self).wf(),
        ensures
            final(self).wf(),
            final(self).config == old(self).config,
            final(self).verification_tokens@ == old(self).verification_tokens@,
            (new_password@.len() < 8 <==> r == Err::<String, AuthError>(AuthError::Validation)),
            ((new_password@.len() >= 8 && !tt_has(old(self).reset_tokens@, token@)) <==> r == Err::<
                String,
                AuthError,
            >(AuthError::NotFound)),
            r == Err::<String, AuthError>(AuthError::Validation) || r == Err::<String, AuthError>(
                AuthError::NotFound,
            ) ==> final(self).users@ == old(self).users@ && final(self).reset_tokens@ == old(self).reset_tokens@ && final(self).refresh_tokens@ == old(self).refresh_tokens@,
            ((new_password@.len() >= 8 && tt_has(old(self).reset_tokens@, token@) && tt_at(
                old(self).reset_tokens@,
                token@,
            ).spec_expired(now)) <==> r == Err::<String, AuthError>(AuthError::Gone)),
            r == Err::<String, AuthError>(AuthError::Gone) ==> final(self).users@ == old(self).users@
                && final(self).refresh_tokens@ == old(self).refresh_tokens@ && final(self).reset_tokens@ == old(self).reset_tokens@.remove(
                tt_index(old(self).reset_tokens@, token@),
            ),
            r == Err::<String, AuthError>(AuthError::Internal) ==> final(self).users@ == old(self).users@ && final(self).refresh_tokens@ == old(self).refresh_tokens@ && final(self).reset_tokens@ == old(self).reset_tokens@,
            (r is Err ==> r == Err::<String, AuthError>(AuthError::Validation) || r == Err::<
                String,
                AuthError,
            >(AuthError::NotFound) || r == Err::<String, AuthError>(AuthError::Gone) || r == Err::<
                String,
                AuthError,
            >(AuthError::Internal)),
            (r matches Ok(msg) ==> ({
                let rec = tt_at(old(self).reset_tokens@, token@);
                let uid = rec.user_id@;
                &&& new_password@.len() >= 8
                &&& tt_has(old(self).reset_tokens@, token@)
                &&& !rec.spec_expired(now)
                &&& msg@ == spec_reset_password_message()
                &&& (u_has_id(old(self).users@, uid) ==> ({
                    let idx = u_id_index(old(self).users@, uid);
                    let oldu = u_by_id(old(self).users@, uid);
                    let newu = final(self).users@[idx];
                    &&& final(self).users@ == old(self).users@.update(idx, newu)
                    &&& newu.id == oldu.id
                    &&& newu.username == oldu.username
                    &&& newu.email == oldu.email
                    &&& newu.bio == oldu.bio
                    &&& newu.image == oldu.image
                    &&& newu.email_verified == oldu.email_verified
                    &&& newu.created_at == oldu.created_at
                    &&& newu.updated_at == now
                    &&& bcrypt_check(new_password@, newu.password_hash@) == Some(true)
                }))
                &&& (!u_has_id(old(self).users@, uid) ==> final(self).users@ == old(self).users@)
                &&& final(self).reset_tokens@ == old(self).reset_tokens@.filter(
                    |t: TimedToken| t.user_id@ != uid,
                )
                &&& final(self).refresh_tokens@ == old(self).refresh_tokens@.filter(
                    |t: RefreshToken| t.user_id@ != uid,
                )
            })),
    {
        if new_password.as_str().unicode_len() < 8 {
            return Err(AuthError::Validation);
        }
        let rec = match self.reset_tokens.find_by_token(token) {
            Some(rec) => rec,
            None => {
                return Err(AuthError::NotFound);
            },
        };
        if rec.is_expired(now) {
            self.reset_tokens.delete_token(token);
            return Err(AuthError::Gone);
        }
        let new_hash = match hash_password(new_password.as_str()) {
            Ok(h) => h,
            Err(_) => {
                return Err(AuthError::Internal);
            },
        };
        self.users.set_password_hash(&rec.user_id, &new_hash, now);
        self.reset_tokens.delete_all_user_tokens(&rec.user_id);
        self.refresh_tokens.delete_all_user_tokens(&rec.user_id);
        proof {
            let uid = tt_at(old(self).reset_tokens@, token@).user_id@;
            assert(rec.user_id@ == uid);
            assert((|t: TimedToken| t.user_id@ != uid) =~= (|t: TimedToken| t.user_id@
                != rec.user_id@));
            assert((|t: RefreshToken| t.user_id@ != uid) =~= (|t: RefreshToken| t.user_id@
                != rec.user_id@));
        }
        Ok(reset_password_message())
    }

    /// The account an access token proves at instant `now`. An invalid
    /// or expired token, and a subject no account carries, are the same
    /// `Unauthorized`.
    pub fn current_user(&self, token: &String, now: u64) -> (r: Result<User, AuthError>)
        requires
            self.wf(),
        ensures
            (r matches Ok(u) ==> ({
                &&& spec_validate(token@, self.config.jwt_secret@, now) matches Some(sub)
                    && u_has_id(self.users@, sub) && u == u_by_id(self.users@, sub)
            })),
            (r is Err ==> r == Err::<User, AuthError>(AuthError::Unauthorized)),
            (r is Ok <==> (spec_validate(token@, self.config.jwt_secret@, now) matches Some(sub)
                && u_has_id(self.users@, sub))),
    {
        let claims = match codec::validate_token(token, self.config.jwt_secret.as_str(), now) {
            Ok(c) => c,
            Err(_) => {
                return Err(AuthError::Unauthorized);
            },
        };
        match self.users.find_by_id(&claims.sub) {
            Some(u) => Ok(u),
            None => Err(AuthError::Unauthorized),
        }
    }
}

} // verus!
