//! The compute side of request authentication: pulling the bearer token
//! out of an `Authorization` header value, and the two ways of reading
//! it — required (fail `Unauthorized`) or optional (fall back to no
//! user). Receiving the header is the edge's business.

use vstd::prelude::*;
use vstd::string::StrSliceExecFns;
use crate::codec::spec_validate;
use crate::engine::AuthService;
use crate::models::User;
use crate::store::{u_by_id, u_has_id};

verus! {

/// The bearer convention: the scheme word `Token`, one space, then the
/// token itself.
pub open spec fn spec_bearer_prefix() -> Seq<char> {
    "Token "@
}

/// Extracts the bearer token from an `Authorization` header value.
/// Yields the rest of the header exactly when it starts with the
/// `Token ` scheme prefix.
pub fn extract_token_from_header(header: &str) -> (r: Option<String>)
    ensures
        r is Some <==> (header@.len() >= 6 && header@.subrange(0, 6) == spec_bearer_prefix()),
        r matches Some(t) ==> t@ == header@.subrange(6, header@.len() as int),
{
    proof {
        reveal_strlit("Token ");
    }
    let n = header.unicode_len();
    if n < 6 {
        return None;
    }
    let matches_prefix = header.get_char(0) == 'T' && header.get_char(1) == 'o' && header.get_char(
        2,
    ) == 'k' && header.get_char(3) == 'e' && header.get_char(4) == 'n' && header.get_char(5) == ' ';
    if !matches_prefix {
        proof {
            assert(header@.subrange(0, 6).len() == 6);
            if header@.subrange(0, 6) == spec_bearer_prefix() {
                assert(header@[0] == spec_bearer_prefix()[0]);
                assert(header@[1] == spec_bearer_prefix()[1]);
                assert(header@[2] == spec_bearer_prefix()[2]);
                assert(header@[3] == spec_bearer_prefix()[3]);
                assert(header@[4] == spec_bearer_prefix()[4]);
                assert(header@[5] == spec_bearer_prefix()[5]);
            }
        }
        return None;
    }
    let rest = header.substring_char(6, n);
    proof {
        assert(header@.subrange(0, 6) =~= spec_bearer_prefix());
    }
    Some(rest.to_owned())
}

impl AuthService {
    /// The account an access token proves, or nothing: a missing or
    /// invalid token, and a subject no account carries, all fall back
    /// to no user instead of an error.
    pub fn optional_user(&self, token: Option<&String>, now: u64) -> (r: Option<User>)
        requires
            self.wf(),
        ensures
            r is Some <==> (token matches Some(t) && spec_validate(
                t@,
                self.config.jwt_secret@,
                now,
            ) matches Some(sub) && u_has_id(self.users@, sub)),
            (r matches Some(u) ==> (token matches Some(t) && spec_validate(
                t@,
                self.config.jwt_secret@,
                now,
            ) matches Some(sub) && u == u_by_id(self.users@, sub))),
    {
        let t = match token {
            Some(t) => t,
            None => {
                return None;
            },
        };
        match self.current_user(t, now) {
            Ok(u) => Some(u),
            Err(_) => None,
        }
    }
}

} // verus!
