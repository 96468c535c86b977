//! The refresh-token ledger: the persisted table of issued refresh
//! tokens and their usage state.
//!
//! The ledger enforces the two disciplines the rotation protocol rests
//! on: token values are unique among live rows, and redemption is a
//! single conditional update — "find the row and set `used` only if it
//! is still unset" — so that of two racing redemptions of one token at
//! most one can win and the other is pushed onto the replay path.

use vstd::prelude::*;
use vstd::pervasive::VecAdditionalExecFns;
use crate::errors::AuthError;
use crate::models::RefreshToken;

verus! {

/// No two rows carry the same token value.
pub open spec fn tokens_unique(rows: Seq<RefreshToken>) -> bool {
    forall|i: int, j: int|
        0 <= i < j < rows.len() ==> rows[i].token@ != rows[j].token@
}

/// Some row carries token value `t`.
pub open spec fn rt_has(rows: Seq<RefreshToken>, t: Seq<char>) -> bool {
    exists|i: int| 0 <= i < rows.len() && rows[i].token@ == t
}

/// The index of the row carrying `t` (unique when `tokens_unique`).
pub open spec fn rt_index(rows: Seq<RefreshToken>, t: Seq<char>) -> int {
    choose|i: int| 0 <= i < rows.len() && rows[i].token@ == t
}

/// The row carrying `t`.
pub open spec fn rt_at(rows: Seq<RefreshToken>, t: Seq<char>) -> RefreshToken {
    rows[rt_index(rows, t)]
}

/// How many rows belong to user `uid`.
pub open spec fn rt_count_for(rows: Seq<RefreshToken>, uid: Seq<char>) -> nat
    decreases rows.len(),
{
    if rows.len() == 0 {
        0
    } else {
        rt_count_for(rows.drop_last(), uid) + if rows.last().user_id@ == uid {
            1nat
        } else {
            0nat
        }
    }
}

/// Under uniqueness, a row found at `i` is the row `rt_at` speaks of.
pub proof fn lemma_unique_token_index(rows: Seq<RefreshToken>, t: Seq<char>, i: int)
    requires
        tokens_unique(rows),
        0 <= i < rows.len(),
        rows[i].token@ == t,
    ensures
        rt_has(rows, t),
        rt_index(rows, t) == i,
        rt_at(rows, t) == rows[i],
{
    assert(rt_has(rows, t));
    let j = rt_index(rows, t);
    assert(0 <= j < rows.len() && rows[j].token@ == t);
    if i < j {
        assert(rows[i].token@ != rows[j].token@);
    } else if j < i {
        assert(rows[j].token@ != rows[i].token@);
    }
}

/// A user with no rows at all counts zero, and the other way round.
pub proof fn lemma_count_zero_iff_none(rows: Seq<RefreshToken>, uid: Seq<char>)
    ensures
        rt_count_for(rows, uid) == 0 <==> (forall|i: int|
            0 <= i < rows.len() ==> rows[i].user_id@ != uid),
    decreases rows.len(),
{
    if rows.len() > 0 {
        lemma_count_zero_iff_none(rows.drop_last(), uid);
        assert(forall|i: int|
            0 <= i < rows.len() - 1 ==> rows[i] == rows.drop_last()[i]);
        assert(rows.last() == rows[rows.len() - 1]);
    }
}

/// The refresh-token ledger. Its view is the sequence of live rows, in
/// insertion order.
pub struct RefreshTokenLedger {
    rows: Vec<RefreshToken>,
}

impl View for RefreshTokenLedger {
    type V = Seq<RefreshToken>;

    closed spec fn view(&self) -> Seq<RefreshToken> {
        self.rows@
    }
}

impl RefreshTokenLedger {
    /// The ledger invariant: live token values never collide.
    pub open spec fn wf(&self) -> bool {
        tokens_unique(self@)
    }

    /// An empty ledger.
    pub fn new() -> (r: Self)
        ensures
            r.wf(),
            r@ == Seq::<RefreshToken>::empty(),
    {
        RefreshTokenLedger { rows: Vec::new() }
    }

    /// Inserts a new unused row for `user_id`, created at `now`. Fails
    /// with `Conflict` — and changes nothing — exactly when the token
    /// value is already live.
    pub fn create_token(&mut self, user_id: &String, token: &String, now: u64) -> (r: Result<
        RefreshToken,
        AuthError,
    >)
        requires
            old(self).wf(),
        ensures
            final(self).wf(),
            rt_has(old(self)@, token@) ==> r == Err::<RefreshToken, AuthError>(AuthError::Conflict)
                && final(self)@ == old(self)@,
            !rt_has(old(self)@, token@) ==> (r matches Ok(rec)
                && rec.user_id == *user_id
                && rec.token == *token
                && rec.created_at == now
                && rec.used == false
                && rec.used_at is None
                && final(self)@ == old(self)@.push(rec)),
    {
        if self.contains_token(token) {
            return Err(AuthError::Conflict);
        }
        let rec = RefreshToken {
            user_id: user_id.clone(),
            token: token.clone(),
            created_at: now,
            used: false,
            used_at: None,
        };
        let dup = rec.clone();
        self.rows.push(rec);
        proof {
            assert forall|i: int, j: int|
                0 <= i < j < self@.len() implies self@[i].token@ != self@[j].token@ by {
                if j < self@.len() - 1 {
                    assert(old(self)@[i].token@ != old(self)@[j].token@);
                } else {
                    assert(self@[j].token@ == token@);
                    assert(!rt_has(old(self)@, token@));
                    assert(old(self)@[i].token@ != token@);
                }
            }
        }
        Ok(dup)
    }

    /// Whether a row with this token value is live.
    pub fn contains_token(&self, token: &String) -> (r: bool)
        ensures
            r == rt_has(self@, token@),
    {
        let n = self.rows.len();
        let mut i: usize = 0;
        while i < n
            invariant
                n == self@.len(),
                0 <= i <= n,
                forall|k: int| 0 <= k < i ==> self@[k].token@ != token@,
            decreases n - i,
        {
            if self.rows[i].token.eq(token) {
                return true;
            }
            i += 1;
        }
        false
    }

    /// Looks a token value up, returning a copy of its row.
    pub fn find_by_token(&self, token: &String) -> (r: Option<RefreshToken>)
        requires
            self.wf(),
        ensures
            r is Some <==> rt_has(self@, token@),
            r matches Some(rec) ==> rec == rt_at(self@, token@),
    {
        let n = self.rows.len();
        let mut i: usize = 0;
        while i < n
            invariant
                n == self@.len(),
                0 <= i <= n,
                self.wf(),
                forall|k: int| 0 <= k < i ==> self@[k].token@ != token@,
            decreases n - i,
        {
            if self.rows[i].token.eq(token) {
                proof {
                    lemma_unique_token_index(self@, token@, i as int);
                }
                return Some(self.rows[i].clone());
            }
            i += 1;
        }
        None
    }

    /// The conditional redemption: marks the row carrying `token` as
    /// used at `now`, but only if it is live and still unused. Returns
    /// whether it won; a `false` leaves the ledger untouched, and covers
    /// both an unknown token and an already-redeemed one.
    pub fn mark_used_if_unused(&mut self, token: &String, now: u64) -> (r: bool)
        requires
            old(self).wf(),
        ensures
            final(self).wf(),
            r == (rt_has(old(self)@, token@) && !rt_at(old(self)@, token@).used),
            r ==> final(self)@ == old(self)@.update(
                rt_index(old(self)@, token@),
                RefreshToken {
                    used: true,
                    used_at: Some(now),
                    ..rt_at(old(self)@, token@)
                },
            ),
            !r ==> final(self)@ == old(self)@,
    {
        let n = self.rows.len();
        let mut i: usize = 0;
        while i < n
            invariant
                n == self@.len(),
                0 <= i <= n,
                self.wf(),
                self@ == old(self)@,
                forall|k: int| 0 <= k < i ==> self@[k].token@ != token@,
            decreases n - i,
        {
            if self.rows[i].token.eq(token) {
                proof {
                    lemma_unique_token_index(self@, token@, i as int);
                }
                if self.rows[i].used {
                    return false;
                }
                let updated = RefreshToken {
                    user_id: self.rows[i].user_id.clone(),
                    token: self.rows[i].token.clone(),
                    created_at: self.rows[i].created_at,
                    used: true,
                    used_at: Some(now),
                };
                self.rows.set(i, updated);
                proof {
                    assert forall|p: int, q: int|
                        0 <= p < q < self@.len() implies self@[p].token@ != self@[q].token@ by {
                        assert(old(self)@[p].token@ != old(self)@[q].token@);
                        assert(self@[p].token@ == old(self)@[p].token@);
                        assert(self@[q].token@ == old(self)@[q].token@);
                    }
                }
                return true;
            }
            i += 1;
        }
        false
    }

    /// Deletes the row carrying `token`, if there is one. Deleting an
    /// absent token is a no-op, not an error.
    pub fn delete_token(&mut self, token: &String)
        requires
            old(self).wf(),
        ensures
            final(self).wf(),
            rt_has(old(self)@, token@) ==> final(self)@ == old(self)@.remove(
                rt_index(old(self)@, token@),
            ),
            !rt_has(old(self)@, token@) ==> final(self)@ == old(self)@,
            !rt_has(final(self)@, token@),
    {
        let n = self.rows.len();
        let mut i: usize = 0;
        while i < n
            invariant
                n == self@.len(),
                0 <= i <= n,
                self.wf(),
                self@ == old(self)@,
                forall|k: int| 0 <= k < i ==> self@[k].token@ != token@,
            decreases n - i,
        {
            if self.rows[i].token.eq(token) {
                proof {
                    lemma_unique_token_index(self@, token@, i as int);
                }
                self.rows.remove(i);
                proof {
                    let pre = old(self)@;
                    let post = self@;
                    assert(post == pre.remove(i as int));
                    assert forall|p: int, q: int|
                        0 <= p < q < post.len() implies post[p].token@ != post[q].token@ by {
                        let p0: int = if p < i { p } else { p + 1 };
                        let q0: int = if q < i { q } else { q + 1 };
                        assert(post[p] == pre[p0]);
                        assert(post[q] == pre[q0]);
                        assert(pre[p0].token@ != pre[q0].token@);
                    }
                    assert forall|k: int| 0 <= k < post.len() implies post[k].token@ != token@ by {
                        let k0: int = if k < i { k } else { k + 1 };
                        assert(post[k] == pre[k0]);
                        if k0 != i {
                            if k0 < i {
                                assert(pre[k0].token@ != pre[i as int].token@);
                            } else {
                                assert(pre[i as int].token@ != pre[k0].token@);
                            }
                        }
                    }
                }
                return ;
            }
            i += 1;
        }
    }

    /// Deletes every row belonging to `user_id`: the family revocation
    /// the breach response performs. Rows of other users survive, in
    /// order.
    pub fn delete_all_user_tokens(&mut self, user_id: &String)
        requires
            old(self).wf(),
        ensures
            final(self).wf(),
            final(self)@ == old(self)@.filter(|r: RefreshToken| r.user_id@ != user_id@),
            forall|i: int| 0 <= i < final(self)@.len() ==> final(self)@[i].user_id@ != user_id@,
            rt_count_for(final(self)@, user_id@) == 0,
    {
        let ghost pred = |r: RefreshToken| r.user_id@ != user_id@;
        let n = self.rows.len();
        let mut kept: Vec<RefreshToken> = Vec::new();
        let mut i: usize = 0;
        while i < n
            invariant
                n == self@.len(),
                0 <= i <= n,
                self.wf(),
                self@ == old(self)@,
                pred == (|r: RefreshToken| r.user_id@ != user_id@),
                kept@ == self@.subrange(0, i as int).filter(pred),
                forall|k: int|
                    0 <= k < kept@.len() ==> exists|j: int|
                        0 <= j < i && #[trigger] kept@[k] == #[trigger] self@[j],
                tokens_unique(kept@),
                forall|k: int| 0 <= k < kept@.len() ==> kept@[k].user_id@ != user_id@,
            decreases n - i,
        {
            proof {
                reveal_with_fuel(Seq::<_>::filter, 2);
                assert(self@.subrange(0, i as int + 1).drop_last() =~= self@.subrange(0, i as int));
                assert(self@.subrange(0, i as int + 1).last() == self@[i as int]);
            }
            if !self.rows[i].user_id.eq(user_id) {
                let kept_len = kept.len();
                proof {
                    assert forall|k: int|
                        0 <= k < kept@.len() implies kept@[k].token@ != self@[i as int].token@ by {
                        let j = choose|j: int| 0 <= j < i && #[trigger] kept@[k] == #[trigger] self@[j];
                        assert(self@[j].token@ != self@[i as int].token@);
                    }
                }
                kept.push(self.rows[i].clone());
                proof {
                    reveal_with_fuel(Seq::<_>::filter, 2);
                    assert(kept@[kept_len as int] == self@[i as int]);
                    assert(pred(self@[i as int]));
                    assert(kept@ =~= self@.subrange(0, i as int + 1).filter(pred));
                }
            } else {
                proof {
                    reveal_with_fuel(Seq::<_>::filter, 2);
                    assert(!pred(self@[i as int]));
                    assert(kept@ =~= self@.subrange(0, i as int + 1).filter(pred));
                }
            }
            i += 1;
        }
        proof {
            assert(self@.subrange(0, n as int) =~= self@);
        }
        self.rows = kept;
        proof {
            lemma_count_zero_iff_none(self@, user_id@);
        }
    }

    /// How many rows — used or not — belong to `user_id`.
    pub fn count_user_tokens(&self, user_id: &String) -> (r: usize)
        ensures
            r == rt_count_for(self@, user_id@),
    {
        let n = self.rows.len();
        let mut count: usize = 0;
        let mut i: usize = 0;
        while i < n
            invariant
                n == self@.len(),
                0 <= i <= n,
                count <= i,
                count == rt_count_for(self@.subrange(0, i as int), user_id@),
            decreases n - i,
        {
            proof {
                assert(self@.subrange(0, i as int + 1).drop_last() =~= self@.subrange(0, i as int));
                assert(self@.subrange(0, i as int + 1).last() == self@[i as int]);
            }
            if self.rows[i].user_id.eq(user_id) {
                count += 1;
            }
            i += 1;
        }
        proof {
            assert(self@.subrange(0, n as int) =~= self@);
        }
        count
    }
}

} // verus!
