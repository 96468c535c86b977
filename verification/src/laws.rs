//! The protocol laws: what the rotation state machine guarantees across
//! calls, proved once over the ledger states the flow contracts speak of.

use vstd::prelude::*;
use crate::engine::refresh_expired;
use crate::models::RefreshToken;
use crate::refresh_ledger::{
    lemma_count_zero_iff_none, lemma_unique_token_index, rt_at, rt_count_for, rt_has, rt_index,
    tokens_unique,
};

verus! {

/// No row of `rows` both carries token value `tok` and satisfies `pred`
/// — then no row of the filtered sequence carries `tok` either.
proof fn lemma_filter_drops_token(
    rows: Seq<RefreshToken>,
    pred: spec_fn(RefreshToken) -> bool,
    tok: Seq<char>,
)
    requires
        forall|i: int| 0 <= i < rows.len() && rows[i].token@ == tok ==> !pred(rows[i]),
    ensures
        !rt_has(rows.filter(pred), tok),
    decreases rows.len(),
{
    reveal_with_fuel(Seq::<_>::filter, 2);
    if rows.len() > 0 {
        let sub = rows.drop_last();
        assert(forall|i: int|
            0 <= i < sub.len() && sub[i].token@ == tok ==> !pred(#[trigger] sub[i]));
        lemma_filter_drops_token(sub, pred, tok);
        if pred(rows.last()) {
            assert(rows.last().token@ != tok);
            let out = sub.filter(pred).push(rows.last());
            assert(rows.filter(pred) == out);
            assert forall|i: int|
                0 <= i < out.len() implies out[i].token@ != tok by {
                if i < out.len() - 1 {
                    assert(out[i] == sub.filter(pred)[i]);
                    assert(!rt_has(sub.filter(pred), tok));
                }
            }
        }
    }
}

/// Law: an `Active` refresh token rotates successfully exactly once.
///
/// Take a well-formed ledger `rows` holding an unused, unexpired row for
/// token value `t`, and let `child` be the replacement row a successful
/// rotation of `t` inserts (same user, unused, a token value that was
/// live for nobody). The ledger that rotation leaves behind is
/// `rows2 = rows.update(.., used row).push(child)`, and of it this law
/// says: the ledger is still well-formed; `t` is still present but
/// marked used and not yet expired at any `now2` within its original
/// lifetime — so a second presentation of `t` falls into the replay
/// branch, which fails `Unauthorized` and revokes the whole family; and
/// the family revocation leaves zero refresh tokens for that user — in
/// particular the replacement `child` is dead too, so even the pair the
/// first rotation handed out is refused from then on.
pub proof fn lemma_rotation_exactly_once(
    rows: Seq<RefreshToken>,
    t: Seq<char>,
    child: RefreshToken,
    now1: u64,
    now2: u64,
    ttl: u64,
)
    requires
        tokens_unique(rows),
        rt_has(rows, t),
        !rt_at(rows, t).used,
        !refresh_expired(rt_at(rows, t), now1, ttl),
        !rt_has(rows, child.token@),
        child.user_id@ == rt_at(rows, t).user_id@,
        child.used == false,
        now2 <= rt_at(rows, t).created_at + ttl,
    ensures
        ({
            let rec = rt_at(rows, t);
            let rows2 = rows.update(
                rt_index(rows, t),
                (RefreshToken { used: true, used_at: Some(now1), ..rec }),
            ).push(child);
            let revoked = rows2.filter(|r: RefreshToken| r.user_id@ != rec.user_id@);
            &&& tokens_unique(rows2)
            &&& rt_has(rows2, t)
            &&& rt_at(rows2, t).used
            &&& !refresh_expired(rt_at(rows2, t), now2, ttl)
            &&& rt_at(rows2, t).user_id@ == rec.user_id@
            &&& rt_count_for(revoked, rec.user_id@) == 0
            &&& !rt_has(revoked, t)
            &&& !rt_has(revoked, child.token@)
        }),
{
    let rec = rt_at(rows, t);
    let idx = rt_index(rows, t);
    let marked = RefreshToken { used: true, used_at: Some(now1), ..rec };
    let rows1 = rows.update(idx, marked);
    let rows2 = rows1.push(child);
    let pred = |r: RefreshToken| r.user_id@ != rec.user_id@;
    let revoked = rows2.filter(pred);

    assert(0 <= idx < rows.len() && rows[idx].token@ == t);
    // the update keeps every token value in place
    assert(forall|k: int| 0 <= k < rows1.len() ==> rows1[k].token@ == rows[k].token@);
    assert(tokens_unique(rows1));
    // the pushed child was live for nobody, so uniqueness survives
    assert forall|i: int, j: int|
        0 <= i < j < rows2.len() implies rows2[i].token@ != rows2[j].token@ by {
        if j < rows2.len() - 1 {
            assert(rows1[i].token@ != rows1[j].token@);
        } else {
            assert(rows2[j] == child);
            if rows[i].token@ == child.token@ {
                assert(rt_has(rows, child.token@));
            }
        }
    }
    // the second presentation of t finds the marked row
    assert(rows2[idx] == marked);
    lemma_unique_token_index(rows2, t, idx);
    assert(rt_at(rows2, t) == marked);
    assert(marked.created_at == rec.created_at);

    // family revocation kills every row of the user
    assert forall|i: int|
        0 <= i < revoked.len() implies revoked[i].user_id@ != rec.user_id@ by {
        rows2.lemma_filter_pred(pred, i);
    }
    lemma_count_zero_iff_none(revoked, rec.user_id@);

    // in particular neither t nor the replacement survives: every row
    // carrying one of those token values belongs to the user
    assert forall|i: int|
        0 <= i < rows2.len() && rows2[i].token@ == t implies !pred(rows2[i]) by {
        lemma_unique_token_index(rows2, t, i);
        assert(i == idx);
    }
    lemma_filter_drops_token(rows2, pred, t);
    assert forall|i: int|
        0 <= i < rows2.len() && rows2[i].token@ == child.token@ implies !pred(rows2[i]) by {
        lemma_unique_token_index(rows2, child.token@, i);
        assert(rows2[rows2.len() - 1] == child);
        lemma_unique_token_index(rows2, child.token@, rows2.len() - 1);
        assert(i == rows2.len() - 1);
    }
    lemma_filter_drops_token(rows2, pred, child.token@);
}

} // verus!
