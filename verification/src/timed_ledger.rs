//! The single-use expiring token tables.
//!
//! Email verification and password reset each keep one instance of this
//! ledger. A token is consumed by deleting its row; expiry is judged at
//! access time by the flows, which sweep a dead row as they find it.

use vstd::prelude::*;
use crate::errors::AuthError;
use crate::models::TimedToken;

verus! {

/// No two rows carry the same token value.
pub open spec fn tt_unique(rows: Seq<TimedToken>) -> bool {
    forall|i: int, j: int|
        0 <= i < j < rows.len() ==> rows[i].token@ != rows[j].token@
}

/// Some row carries token value `t`.
pub open spec fn tt_has(rows: Seq<TimedToken>, t: Seq<char>) -> bool {
    exists|i: int| 0 <= i < rows.len() && rows[i].token@ == t
}

/// The index of the row carrying `t` (unique when `tt_unique`).
pub open spec fn tt_index(rows: Seq<TimedToken>, t: Seq<char>) -> int {
    choose|i: int| 0 <= i < rows.len() && rows[i].token@ == t
}

/// The row carrying `t`.
pub open spec fn tt_at(rows: Seq<TimedToken>, t: Seq<char>) -> TimedToken {
    rows[tt_index(rows, t)]
}

/// How many rows belong to user `uid`.
pub open spec fn tt_count_for(rows: Seq<TimedToken>, uid: Seq<char>) -> nat
    decreases rows.len(),
{
    if rows.len() == 0 {
        0
    } else {
        tt_count_for(rows.drop_last(), uid) + if rows.last().user_id@ == uid {
            1nat
        } else {
            0nat
        }
    }
}

/// Under uniqueness, a row found at `i` is the row `tt_at` speaks of.
pub proof fn lemma_tt_unique_index(rows: Seq<TimedToken>, t: Seq<char>, i: int)
    requires
        tt_unique(rows),
        0 <= i < rows.len(),
        rows[i].token@ == t,
    ensures
        tt_has(rows, t),
        tt_index(rows, t) == i,
        tt_at(rows, t) == rows[i],
{
    assert(tt_has(rows, t));
    let j = tt_index(rows, t);
    assert(0 <= j < rows.len() && rows[j].token@ == t);
    if i < j {
        assert(rows[i].token@ != rows[j].token@);
    } else if j < i {
        assert(rows[j].token@ != rows[i].token@);
    }
}

/// A single-use expiring token table.  Its view is the sequence of live
/// rows, in insertion order.
pub struct TimedTokenLedger {
    rows: Vec<TimedToken>,
}

impl View for TimedTokenLedger {
    type V = Seq<TimedToken>;

    closed spec fn view(&self) -> Seq<TimedToken> {
        self.rows@
    }
}

impl TimedTokenLedger {
    /// The ledger invariant: live token values never collide.
    pub open spec fn wf(&self) -> bool {
        tt_unique(self@)
    }

    /// An empty ledger.
    pub fn new() -> (r: Self)
        ensures
            r.wf(),
            r@ == Seq::<TimedToken>::empty(),
    {
        TimedTokenLedger { rows: Vec::new() }
    }

    /// Inserts a new row for `user_id`, created at `now` and expiring at
    /// `expires_at`. Fails with `Conflict` — and changes nothing —
    /// exactly when the token value is already live.
    pub fn create_token(&mut self, user_id: &String, token: &String, now: u64, expires_at: u64) -> (r:
        Result<TimedToken, AuthError>)
        requires
            old(self).wf(),
        ensures
            final(self).wf(),
            tt_has(old(self)@, token@) ==> r == Err::<TimedToken, AuthError>(AuthError::Conflict)
                && final(self)@ == old(self)@,
            !tt_has(old(self)@, token@) ==> (r matches Ok(rec)
                && rec.user_id == *user_id
                && rec.token == *token
                && rec.created_at == now
                && rec.expires_at == expires_at
                && final(self)@ == old(self)@.push(rec)),
    {
        if self.contains_token(token) {
            return Err(AuthError::Conflict);
        }
        let rec = TimedToken {
            user_id: user_id.clone(),
            token: token.clone(),
            created_at: now,
            expires_at,
        };
        let dup = rec.clone();
        self.rows.push(rec);
        proof {
            assert forall|i: int, j: int|
                0 <= i < j < self@.len() implies self@[i].token@ != self@[j].token@ by {
                if j < self@.len() - 1 {
                    assert(old(self)@[i].token@ != old(self)@[j].token@);
                } else {
                    assert(self@[j].token@ == token@);
                    assert(!tt_has(old(self)@, token@));
                    assert(old(self)@[i].token@ != token@);
                }
            }
        }
        Ok(dup)
    }

    /// Whether a row with this token value is live.
    pub fn contains_token(&self, token: &String) -> (r: bool)
        ensures
            r == tt_has(self@, token@),
    {
        let n = self.rows.len();
        let mut i: usize = 0;
        while i < n
            invariant
                n == self@.len(),
                0 <= i <= n,
                forall|k: int| 0 <= k < i ==> self@[k].token@ != token@,
            decreases n - i,
        {
            if self.rows[i].token.eq(token) {
                return true;
            }
            i += 1;
        }
        false
    }

    /// Looks a token value up, returning a copy of its row.
    pub fn find_by_token(&self, token: &String) -> (r: Option<TimedToken>)
        requires
            self.wf(),
        ensures
            r is Some <==> tt_has(self@, token@),
            r matches Some(rec) ==> rec == tt_at(self@, token@),
    {
        let n = self.rows.len();
        let mut i: usize = 0;
        while i < n
            invariant
                n == self@.len(),
                0 <= i <= n,
                self.wf(),
                forall|k: int| 0 <= k < i ==> self@[k].token@ != token@,
            decreases n - i,
        {
            if self.rows[i].token.eq(token) {
                proof {
                    lemma_tt_unique_index(self@, token@, i as int);
                }
                return Some(self.rows[i].clone());
            }
            i += 1;
        }
        None
    }

    /// Deletes the row carrying `token`, if there is one. Deleting an
    /// absent token is a no-op, not an error.
    pub fn delete_token(&mut self, token: &String)
        requires
            old(self).wf(),
        ensures
            final(self).wf(),
            tt_has(old(self)@, token@) ==> final(self)@ == old(self)@.remove(
                tt_index(old(self)@, token@),
            ),
            !tt_has(old(self)@, token@) ==> final(self)@ == old(self)@,
            !tt_has(final(self)@, token@),
    {
        let n = self.rows.len();
        let mut i: usize = 0;
        while i < n
            invariant
                n == self@.len(),
                0 <= i <= n,
                self.wf(),
                self@ == old(self)@,
                forall|k: int| 0 <= k < i ==> self@[k].token@ != token@,
            decreases n - i,
        {
            if self.rows[i].token.eq(token) {
                proof {
                    lemma_tt_unique_index(self@, token@, i as int);
                }
                self.rows.remove(i);
                proof {
                    let pre = old(self)@;
                    let post = self@;
                    assert(post == pre.remove(i as int));
                    assert forall|p: int, q: int|
                        0 <= p < q < post.len() implies post[p].token@ != post[q].token@ by {
                        let p0: int = if p < i { p } else { p + 1 };
                        let q0: int = if q < i { q } else { q + 1 };
                        assert(post[p] == pre[p0]);
                        assert(post[q] == pre[q0]);
                        assert(pre[p0].token@ != pre[q0].token@);
                    }
                    assert forall|k: int| 0 <= k < post.len() implies post[k].token@ != token@ by {
                        let k0: int = if k < i { k } else { k + 1 };
                        assert(post[k] == pre[k0]);
                        if k0 != i {
                            if k0 < i {
                                assert(pre[k0].token@ != pre[i as int].token@);
                            } else {
                                assert(pre[i as int].token@ != pre[k0].token@);
                            }
                        }
                    }
                }
                return ;
            }
            i += 1;
        }
    }

    /// Deletes every row belonging to `user_id` (after a successful
    /// password reset, every other outstanding reset request dies with
    /// the one that was honoured). Rows of other users survive, in order.
    pub fn delete_all_user_tokens(&mut self, user_id: &String)
        requires
            old(self).wf(),
        ensures
            final(self).wf(),
            final(self)@ == old(self)@.filter(|r: TimedToken| r.user_id@ != user_id@),
            forall|i: int| 0 <= i < final(self)@.len() ==> final(self)@[i].user_id@ != user_id@,
    {
        let ghost pred = |r: TimedToken| r.user_id@ != user_id@;
        let n = self.rows.len();
        let mut kept: Vec<TimedToken> = Vec::new();
        let mut i: usize = 0;
        while i < n
            invariant
                n == self@.len(),
                0 <= i <= n,
                self.wf(),
                self@ == old(self)@,
                pred == (|r: TimedToken| r.user_id@ != user_id@),
                kept@ == self@.subrange(0, i as int).filter(pred),
                forall|k: int|
                    0 <= k < kept@.len() ==> exists|j: int|
                        0 <= j < i && #[trigger] kept@[k] == #[trigger] self@[j],
                tt_unique(kept@),
                forall|k: int| 0 <= k < kept@.len() ==> kept@[k].user_id@ != user_id@,
            decreases n - i,
        {
            proof {
                reveal_with_fuel(Seq::<_>::filter, 2);
                assert(self@.subrange(0, i as int + 1).drop_last() =~= self@.subrange(0, i as int));
                assert(self@.subrange(0, i as int + 1).last() == self@[i as int]);
            }
            if !self.rows[i].user_id.eq(user_id) {
                let kept_len = kept.len();
                proof {
                    assert forall|k: int|
                        0 <= k < kept@.len() implies kept@[k].token@ != self@[i as int].token@ by {
                        let j = choose|j: int| 0 <= j < i && #[trigger] kept@[k] == #[trigger] self@[j];
                        assert(self@[j].token@ != self@[i as int].token@);
                    }
                }
                kept.push(self.rows[i].clone());
                proof {
                    reveal_with_fuel(Seq::<_>::filter, 2);
                    assert(kept@[kept_len as int] == self@[i as int]);
                    assert(pred(self@[i as int]));
                    assert(kept@ =~= self@.subrange(0, i as int + 1).filter(pred));
                }
            } else {
                proof {
                    reveal_with_fuel(Seq::<_>::filter, 2);
                    assert(!pred(self@[i as int]));
                    assert(kept@ =~= self@.subrange(0, i as int + 1).filter(pred));
                }
            }
            i += 1;
        }
        proof {
            assert(self@.subrange(0, n as int) =~= self@);
        }
        self.rows = kept;
    }

    /// How many rows belong to `user_id`.
    pub fn count_user_tokens(&self, user_id: &String) -> (r: usize)
        ensures
            r == tt_count_for(self@, user_id@),
    {
        let n = self.rows.len();
        let mut count: usize = 0;
        let mut i: usize = 0;
        while i < n
            invariant
                n == self@.len(),
                0 <= i <= n,
                count <= i,
                count == tt_count_for(self@.subrange(0, i as int), user_id@),
            decreases n - i,
        {
            proof {
                assert(self@.subrange(0, i as int + 1).drop_last() =~= self@.subrange(0, i as int));
                assert(self@.subrange(0, i as int + 1).last() == self@[i as int]);
            }
            if self.rows[i].user_id.eq(user_id) {
                count += 1;
            }
            i += 1;
        }
        proof {
            assert(self@.subrange(0, n as int) =~= self@);
        }
        count
    }

    /// The number of live rows.
    pub fn len(&self) -> (r: usize)
        ensures
            r == self@.len(),
    {
        self.rows.len()
    }
}

} // verus!
