//! The access-token codec: short-lived, signed, self-contained claims.
//!
//! A token is valid purely as a function of its signature and its expiry
//! instant; no ledger is consulted. Signing and signature checking are
//! jsonwebtoken's work; both enter the contracts only under the names
//! `jwt_token_of` and `jwt_claims_of`. Expiry is judged here, against a
//! caller-supplied clock, so that validity at any instant is a verified
//! decision.

use vstd::prelude::*;
use crate::errors::AuthError;

verus! {

/// The claim set carried by an access token.
#[derive(Debug)]
pub struct Claims {
    /// The subject: the id of the user the token speaks for.
    pub sub: String,
    /// Expiry instant, seconds.
    pub exp: u64,
    /// Issue instant, seconds.
    pub iat: u64,
}

impl View for Claims {
    type V = (Seq<char>, u64, u64);

    open spec fn view(&self) -> (Seq<char>, u64, u64) {
        (self.sub@, self.iat, self.exp)
    }
}

/// What `jsonwebtoken::encode` returns for a claim set `(sub, iat, exp)`
/// signed with `secret` under HS256: a function of those arguments alone.
pub uninterp spec fn jwt_token_of(sub: Seq<char>, iat: u64, exp: u64, secret: Seq<char>) -> Seq<char>;

/// What `jsonwebtoken::decode` yields for `token` under `secret` with
/// HS256 and no clock involved: the claim triple where the signature
/// checks out and the payload carries one, `None` otherwise (malformed
/// token, wrong algorithm, bad signature, or a payload without the
/// triple). A function of the two strings alone.
pub uninterp spec fn jwt_claims_of(token: Seq<char>, secret: Seq<char>) -> Option<(Seq<char>, u64, u64)>;

/// Relies on `jsonwebtoken::encode` with `Header::default()` (HS256) and
/// an HMAC secret: deterministic in claims and secret, and its result
/// decodes back to the same claims under the same secret. It cannot
/// fail: HMAC accepts a key of any length, signing with it is
/// infallible, and serializing the claims map cannot error.
#[verifier::external_body]
fn jwt_encode(claims: &Claims, secret: &str) -> (r: Option<String>)
    ensures
        r is Some,
        r matches Some(t) ==> t@ == jwt_token_of(claims.sub@, claims.iat, claims.exp, secret@),
        r matches Some(t) ==> jwt_claims_of(t@, secret@) == Some(claims@),
        r matches Some(t) ==> t@.len() > 0,
{
    let mut m = serde_json::Map::new();
    m.insert("sub".to_string(), serde_json::Value::String(claims.sub.clone()));
    m.insert("iat".to_string(), serde_json::Value::from(claims.iat));
    m.insert("exp".to_string(), serde_json::Value::from(claims.exp));
    jsonwebtoken::encode(
        &jsonwebtoken::Header::default(),
        &serde_json::Value::Object(m),
        &jsonwebtoken::EncodingKey::from_secret(secret.as_bytes()),
    )
    .ok()
}

/// Relies on `jsonwebtoken::decode` into `serde_json::Value` with HS256
/// and every clock-dependent check switched off: deterministic in token
/// and secret.
#[verifier::external_body]
fn jwt_decode(token: &String, secret: &str) -> (r: Option<Claims>)
    ensures
        r matches Some(c) ==> jwt_claims_of(token@, secret@) == Some(c@),
        r is None ==> jwt_claims_of(token@, secret@) is None,
{
    let mut validation = jsonwebtoken::Validation::new(jsonwebtoken::Algorithm::HS256);
    validation.validate_exp = false;
    validation.validate_aud = false;
    validation.required_spec_claims = std::collections::HashSet::new();
    let key = jsonwebtoken::DecodingKey::from_secret(secret.as_bytes());
    let data = jsonwebtoken::decode::<serde_json::Value>(token, &key, &validation).ok()?;
    let sub = data.claims.get("sub")?.as_str()?.to_string();
    let iat = data.claims.get("iat")?.as_u64()?;
    let exp = data.claims.get("exp")?.as_u64()?;
    Some(Claims { sub, exp, iat })
}

/// The subject a token proves at instant `now`, if any: its claims must
/// decode under `secret`, and `now` must lie strictly before the expiry
/// instant. From `exp` on, the token is dead.
pub open spec fn spec_validate(token: Seq<char>, secret: Seq<char>, now: u64) -> Option<Seq<char>> {
    match jwt_claims_of(token, secret) {
        Some((sub, iat, exp)) => if now < exp {
            Some(sub)
        } else {
            None
        },
        None => None,
    }
}

/// Mints an access token for `user_id`, issued at `now` and expiring
/// `ttl` seconds later, signed with `secret`. Minting always succeeds.
pub fn generate_token(user_id: &String, secret: &str, now: u64, ttl: u64) -> (r: Result<String, AuthError>)
    requires
        now + ttl <= u64::MAX,
    ensures
        r is Ok,
        r matches Ok(t) ==> t@ == jwt_token_of(user_id@, now, (now + ttl) as u64, secret@),
        r matches Ok(t) ==> jwt_claims_of(t@, secret@) == Some((user_id@, now, (now + ttl) as u64)),
        r matches Ok(t) ==> t@.len() > 0,
{
    let claims = Claims { sub: user_id.clone(), exp: now + ttl, iat: now };
    match jwt_encode(&claims, secret) {
        Some(t) => Ok(t),
        None => Err(AuthError::Internal),
    }
}

/// Checks a presented access token against `secret` at instant `now`.
/// Every failure — malformed token, bad signature, expiry — collapses to
/// the one `Unauthorized` outcome, so the caller learns nothing about
/// the reason.
pub fn validate_token(token: &String, secret: &str, now: u64) -> (r: Result<Claims, AuthError>)
    ensures
        r is Ok <==> spec_validate(token@, secret@, now) is Some,
        r matches Ok(c) ==> jwt_claims_of(token@, secret@) == Some(c@) && now < c.exp,
        r matches Ok(c) ==> spec_validate(token@, secret@, now) == Some(c.sub@),
        r matches Err(e) ==> e == AuthError::Unauthorized,
{
    match jwt_decode(token, secret) {
        Some(c) => {
            if now < c.exp {
                Ok(c)
            } else {
                Err(AuthError::Unauthorized)
            }
        },
        None => Err(AuthError::Unauthorized),
    }
}

/// Law: a token carrying the claim triple `(sub, iat, exp)` — as every
/// token minted by `generate_token` does — validates to exactly `sub` at
/// every instant before `exp`, and is rejected at `exp` and ever after.
pub proof fn lemma_access_token_round_trip(token: Seq<char>, sub: Seq<char>, iat: u64, exp: u64, secret: Seq<char>)
    requires
        jwt_claims_of(token, secret) == Some((sub, iat, exp)),
    ensures
        forall|now: u64| now < exp ==> spec_validate(token, secret, now) == Some(sub),
        forall|now: u64| now >= exp ==> spec_validate(token, secret, now) is None,
{
}

} // verus!
