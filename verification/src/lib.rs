//! The authentication core of a web backend: credential registration,
//! login, email verification, password reset, and refresh-token
//! rotation with replay detection.
//!
//! The heart is the rotation protocol: every refresh token is redeemable
//! at most once, a replayed token is recognised as theft, and the
//! response to theft is revoking the user's whole token family and
//! asking that the owner be alerted. Around it stand the credential
//! store, the single-use expiring token ledgers, and the stateless
//! access-token codec.
//!
//! Everything time- or randomness-dependent enters through arguments or
//! through small trusted wrappers around the collaborating crates
//! (bcrypt, jsonwebtoken, uuid, validator), so each flow's behaviour is
//! pinned by its contract. I/O — HTTP, storage engines, mail transport —
//! stays outside; flows describe the mail to send as a value instead of
//! sending it.

pub mod codec;
pub mod engine;
pub mod errors;
pub mod flows;
pub mod laws;
pub mod middleware;
pub mod models;
pub mod password;
pub mod refresh_ledger;
pub mod schemas;
pub mod store;
pub mod timed_ledger;
pub mod tokens;
pub mod validation;
