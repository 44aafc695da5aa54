//! The engine's universal invariants, stated and proved against the
//! specification-level pass [`run_from`] and the fusion rule [`spec_fuse`].

use vstd::prelude::*;

use crate::matcher::{
    close_pred, closes_of, eligible, perfect_pred, perfects_of, score, scored_eligibles,
    spec_fuse, ScoredCandidate, CLOSE_WINDOW_DAYS,
};
use crate::driver::{auto_step, lemma_fuse_wf, lemma_scored_member, normal_of, run_from};
use crate::transaction::{NormalTransaction, Transaction};

verus! {

/// Every element of the working list is well formed.
pub open spec fn all_wf(l: Seq<Transaction>) -> bool {
    forall|j: int| 0 <= j < l.len() ==> (#[trigger] l[j]).wf()
}

/// Exact-sum: a fused transfer's two originating normals carried amounts `a`
/// and `-a`, and the transfer carries `|a|`.
pub proof fn lemma_fuse_exact_sum(target: NormalTransaction, partner: NormalTransaction)
    requires
        target.amount.wf(),
        partner.amount.wf(),
        eligible(target, partner),
    ensures
        partner.amount.units() == -target.amount.units(),
        spec_fuse(target, partner).amount.units() == vstd::math::abs(target.amount.units()),
{
}

/// Currency preservation: both legs share the fused transfer's currency.
pub proof fn lemma_fuse_currency(target: NormalTransaction, partner: NormalTransaction)
    requires
        eligible(target, partner),
    ensures
        spec_fuse(target, partner).currency@ == target.currency@,
        spec_fuse(target, partner).currency@ == partner.currency@,
{
}

/// Date dominance: the fused transfer is dated by whichever leg carried the
/// negative amount.
pub proof fn lemma_fuse_date_dominance(target: NormalTransaction, partner: NormalTransaction)
    requires
        target.amount.wf(),
        partner.amount.wf(),
        eligible(target, partner),
    ensures
        target.amount.units() < 0 ==> spec_fuse(target, partner).date == target.date,
        partner.amount.units() < 0 ==> spec_fuse(target, partner).date == partner.date,
{
}

/// One auto step keeps every element well formed.
proof fn lemma_auto_step_wf(l: Seq<Transaction>, i: int)
    requires
        all_wf(l),
        0 <= i < l.len() <= usize::MAX,
    ensures
        all_wf(auto_step(l, i)),
        auto_step(l, i).len() == l.len() || auto_step(l, i).len() + 1 == l.len(),
{
    let l2 = auto_step(l, i);
    if l2 != l {
        let target = normal_of(l[i]);
        let tail = l.skip(i + 1);
        let scored = scored_eligibles(tail, target);
        let perfects = perfects_of(scored);
        let c = perfects[0];
        assert(perfects.contains(c));
        scored.lemma_filter_contains_rev(perfect_pred(), c);
        lemma_scored_member(tail, target, c);
        let j0 = i + 1 + c.index;
        let partner = normal_of(l[j0]);
        lemma_fuse_wf(target, partner);
        let upd = l.update(i, Transaction::Transfer(spec_fuse(target, partner)));
        assert(l2 == upd.remove(j0));
        assert forall|m: int| 0 <= m < l2.len() implies (#[trigger] l2[m]).wf() by {
            if m < j0 {
                assert(l2[m] == upd[m]);
            } else {
                assert(l2[m] == upd[m + 1]);
            }
        }
    }
}

/// The whole pass keeps every element well formed.
pub proof fn lemma_run_preserves_wf(l: Seq<Transaction>, i: int)
    requires
        all_wf(l),
        0 <= i <= l.len() <= usize::MAX,
    ensures
        all_wf(run_from(l, i)),
        run_from(l, i).len() <= l.len(),
    decreases l.len() - i,
{
    if i < l.len() {
        lemma_auto_step_wf(l, i);
        lemma_run_preserves_wf(auto_step(l, i), i + 1);
    }
}

/// One where the element is a normal movement, zero where it is a transfer.
pub open spec fn normal_flag(t: Transaction) -> nat {
    if t is Normal {
        1
    } else {
        0
    }
}

/// How many elements of the working list are normal movements.
pub open spec fn normal_count(l: Seq<Transaction>) -> nat
    decreases l.len(),
{
    if l.len() == 0 {
        0
    } else {
        normal_count(l.drop_last()) + normal_flag(l.last())
    }
}

/// How many elements of the working list are transfers.
pub open spec fn transfer_count(l: Seq<Transaction>) -> nat
    decreases l.len(),
{
    if l.len() == 0 {
        0
    } else {
        transfer_count(l.drop_last()) + ((1 - normal_flag(l.last())) as nat)
    }
}

proof fn lemma_count_update(l: Seq<Transaction>, i: int, x: Transaction)
    requires
        0 <= i < l.len(),
    ensures
        normal_count(l.update(i, x)) + normal_flag(l[i]) == normal_count(l) + normal_flag(x),
        transfer_count(l.update(i, x)) + 1 - normal_flag(l[i]) == transfer_count(l) + 1
            - normal_flag(x),
    decreases l.len(),
{
    if i == l.len() - 1 {
        assert(l.update(i, x).drop_last() =~= l.drop_last());
    } else {
        assert(l.update(i, x).drop_last() =~= l.drop_last().update(i, x));
        lemma_count_update(l.drop_last(), i, x);
    }
}

proof fn lemma_count_remove(l: Seq<Transaction>, j: int)
    requires
        0 <= j < l.len(),
    ensures
        normal_count(l.remove(j)) + normal_flag(l[j]) == normal_count(l),
        transfer_count(l.remove(j)) + 1 - normal_flag(l[j]) == transfer_count(l),
    decreases l.len(),
{
    if j == l.len() - 1 {
        assert(l.remove(j) =~= l.drop_last());
    } else {
        assert(l.remove(j).drop_last() =~= l.drop_last().remove(j));
        assert(l.remove(j).last() == l.last());
        lemma_count_remove(l.drop_last(), j);
    }
}

/// One auto step either leaves the list alone or trades two normals for one
/// transfer.
proof fn lemma_auto_step_counts(l: Seq<Transaction>, i: int)
    requires
        all_wf(l),
        0 <= i < l.len() <= usize::MAX,
    ensures
        auto_step(l, i) == l || (normal_count(auto_step(l, i)) + 2 == normal_count(l)
            && transfer_count(auto_step(l, i)) == transfer_count(l) + 1),
{
    let l2 = auto_step(l, i);
    if l2 != l {
        let target = normal_of(l[i]);
        let tail = l.skip(i + 1);
        let scored = scored_eligibles(tail, target);
        let perfects = perfects_of(scored);
        let c = perfects[0];
        assert(perfects.contains(c));
        scored.lemma_filter_contains_rev(perfect_pred(), c);
        lemma_scored_member(tail, target, c);
        let j0 = i + 1 + c.index;
        let partner = normal_of(l[j0]);
        let upd = l.update(i, Transaction::Transfer(spec_fuse(target, partner)));
        lemma_count_update(l, i, Transaction::Transfer(spec_fuse(target, partner)));
        lemma_count_remove(upd, j0);
        assert(upd[j0] == l[j0]);
    }
}

/// Conservation: from `i` to the end, the pass only collapses pairs of
/// normal movements into single transfers. Writing `k` for the number of
/// transfers it adds, the emitted ledger holds exactly `2k` fewer normals,
/// and never fewer transfers than it started with.
pub proof fn lemma_conservation(l: Seq<Transaction>, i: int)
    requires
        all_wf(l),
        0 <= i <= l.len() <= usize::MAX,
    ensures
        transfer_count(run_from(l, i)) >= transfer_count(l),
        normal_count(run_from(l, i)) + 2 * (transfer_count(run_from(l, i)) - transfer_count(l))
            == normal_count(l),
    decreases l.len() - i,
{
    if i < l.len() {
        lemma_auto_step_counts(l, i);
        lemma_auto_step_wf(l, i);
        lemma_conservation(auto_step(l, i), i + 1);
    }
}

/// A close pair: eligible, and strictly inside the open date window (a
/// same-day pair is a close pair too).
pub open spec fn close_pair(t: NormalTransaction, c: NormalTransaction) -> bool {
    &&& eligible(t, c)
    &&& -(CLOSE_WINDOW_DAYS as int) < score(t, c)
    &&& score(t, c) < CLOSE_WINDOW_DAYS as int
}

/// The normal at position `j` (if it is one) has no close-eligible normal
/// anywhere after it in the list.
pub open spec fn no_close_partner(l: Seq<Transaction>, j: int) -> bool {
    l[j] is Normal ==> forall|m: int|
        j < m < l.len() && (#[trigger] l[m]) is Normal ==> !close_pair(
            normal_of(l[j]),
            normal_of(l[m]),
        )
}

/// Everything before the cursor is settled: no visited normal still has a
/// close-eligible partner anywhere after it.
pub open spec fn settled(l: Seq<Transaction>, i: int) -> bool {
    forall|j: int| 0 <= j < i ==> #[trigger] no_close_partner(l, j)
}

/// The pass never needs the oracle from cursor `i` on: every visited normal
/// has either a unique same-day candidate or nothing in the window at all.
pub open spec fn quiet(l: Seq<Transaction>, i: int) -> bool
    decreases l.len() - i,
{
    if i < 0 || i >= l.len() {
        true
    } else {
        let ok = match l[i] {
            Transaction::Transfer(_) => true,
            Transaction::Normal(t) => {
                let s = scored_eligibles(l.skip(i + 1), t);
                ||| perfects_of(s).len() == 1
                ||| (perfects_of(s).len() == 0 && closes_of(s).len() == 0)
            },
        };
        ok && quiet(auto_step(l, i), i + 1)
    }
}

/// Completeness of the scorer: an eligible normal at tail position `k` does
/// appear among the scored candidates, at its position and with its score.
pub proof fn lemma_scored_complete(tail: Seq<Transaction>, target: NormalTransaction, k: int)
    requires
        0 <= k < tail.len() <= usize::MAX,
        tail[k] is Normal,
        eligible(target, normal_of(tail[k])),
    ensures
        scored_eligibles(tail, target).contains(
            ScoredCandidate { index: k as usize, score: score(target, normal_of(tail[k])) as i64 },
        ),
    decreases tail.len(),
{
    let s = scored_eligibles(tail, target);
    let prefix = scored_eligibles(tail.drop_last(), target);
    let c = ScoredCandidate { index: k as usize, score: score(target, normal_of(tail[k])) as i64 };
    if k == tail.len() - 1 {
        assert(s[prefix.len() as int] == c);
        assert(s.contains(c));
    } else {
        assert(tail.drop_last()[k] == tail[k]);
        lemma_scored_complete(tail.drop_last(), target, k);
        let w = choose|w: int| 0 <= w < prefix.len() && prefix[w] == c;
        assert(s[w] == c);
        assert(s.contains(c));
    }
}

/// A target whose selector says no match really has no close-eligible
/// partner left anywhere after it.
proof fn lemma_no_match_settles(l: Seq<Transaction>, i: int)
    requires
        0 <= i < l.len() <= usize::MAX,
        l[i] is Normal,
        closes_of(scored_eligibles(l.skip(i + 1), normal_of(l[i]))).len() == 0,
    ensures
        no_close_partner(l, i),
{
    let t = normal_of(l[i]);
    let tail = l.skip(i + 1);
    let scored = scored_eligibles(tail, t);
    assert forall|m: int|
        i < m < l.len() && (#[trigger] l[m]) is Normal implies !close_pair(
        t,
        normal_of(l[m]),
    ) by {
        if close_pair(t, normal_of(l[m])) {
            let k = m - i - 1;
            assert(tail[k] == l[m]);
            lemma_scored_complete(tail, t, k);
            let c = ScoredCandidate {
                index: k as usize,
                score: score(t, normal_of(tail[k])) as i64,
            };
            let w = choose|w: int| 0 <= w < scored.len() && scored[w] == c;
            assert(close_pred()(scored[w]));
            scored.lemma_filter_contains(close_pred(), w);
            assert(closes_of(scored).contains(c));
        }
    }
}

/// A quiet pass settles the whole list: afterwards no remaining normal has a
/// close-eligible partner after it.
pub proof fn lemma_quiet_run_settled(l: Seq<Transaction>, i: int)
    requires
        0 <= i <= l.len() <= usize::MAX,
        quiet(l, i),
        settled(l, i),
    ensures
        settled(run_from(l, i), run_from(l, i).len() as int),
        run_from(l, i).len() <= l.len(),
    decreases l.len() - i,
{
    if i < l.len() {
        let l2 = auto_step(l, i);
        match l[i] {
            Transaction::Transfer(_) => {
                assert(l2 == l);
                assert(settled(l, i + 1));
                lemma_quiet_run_settled(l, i + 1);
            },
            Transaction::Normal(t) => {
                let tail = l.skip(i + 1);
                let scored = scored_eligibles(tail, t);
                let perfects = perfects_of(scored);
                if perfects.len() == 1 {
                    let c = perfects[0];
                    assert(perfects.contains(c));
                    scored.lemma_filter_contains_rev(perfect_pred(), c);
                    lemma_scored_member(tail, t, c);
                    let j0 = i + 1 + c.index;
                    let partner = normal_of(l[j0]);
                    let upd = l.update(i, Transaction::Transfer(spec_fuse(t, partner)));
                    assert(l2 == upd.remove(j0));
                    assert(l2.len() == l.len() - 1);
                    assert forall|j: int| 0 <= j < i + 1 implies #[trigger] no_close_partner(
                        l2,
                        j,
                    ) by {
                        if j == i {
                            assert(l2[j] == upd[j]);
                            assert(l2[j] is Transfer);
                        } else {
                            assert(no_close_partner(l, j));
                            assert(l2[j] == upd[j] && upd[j] == l[j]);
                            if l2[j] is Normal {
                                assert forall|m: int|
                                    j < m < l2.len() && (#[trigger] l2[m])
                                        is Normal implies !close_pair(
                                    normal_of(l2[j]),
                                    normal_of(l2[m]),
                                ) by {
                                    if m < j0 {
                                        assert(l2[m] == upd[m]);
                                        if m != i {
                                            assert(l2[m] == l[m]);
                                        }
                                    } else {
                                        assert(l2[m] == upd[m + 1]);
                                        assert(l2[m] == l[m + 1]);
                                    }
                                }
                            }
                        }
                    }
                    assert(settled(l2, i + 1));
                    lemma_quiet_run_settled(l2, i + 1);
                } else {
                    assert(l2 == l);
                    lemma_no_match_settles(l, i);
                    assert(settled(l, i + 1));
                    lemma_quiet_run_settled(l, i + 1);
                }
            },
        }
    }
}

/// A settled list is a fixed point of the pass: every normal gets no match,
/// every transfer is skipped.
pub proof fn lemma_settled_fixpoint(l: Seq<Transaction>, i: int)
    requires
        0 <= i <= l.len() <= usize::MAX,
        settled(l, l.len() as int),
    ensures
        run_from(l, i) == l,
    decreases l.len() - i,
{
    if i < l.len() {
        match l[i] {
            Transaction::Transfer(_) => {
                lemma_settled_fixpoint(l, i + 1);
            },
            Transaction::Normal(t) => {
                let tail = l.skip(i + 1);
                let scored = scored_eligibles(tail, t);
                assert(no_close_partner(l, i));
                assert forall|idx: int|
                    0 <= idx < scored.len() implies !(close_pred()(#[trigger] scored[idx])) by {
                    let c = scored[idx];
                    assert(scored.contains(c));
                    lemma_scored_member(tail, t, c);
                    let m = i + 1 + c.index;
                    assert(tail[c.index as int] == l[m]);
                    assert(l[m] is Normal);
                    assert(!close_pair(t, normal_of(l[m])));
                }
                assert forall|idx: int|
                    0 <= idx < scored.len() implies !(perfect_pred()(#[trigger] scored[idx])) by {
                    assert(!(close_pred()(scored[idx])));
                }
                scored.lemma_all_neg_filter_empty(close_pred());
                scored.lemma_all_neg_filter_empty(perfect_pred());
                assert(auto_step(l, i) == l);
                lemma_settled_fixpoint(l, i + 1);
            },
        }
    }
}

/// Idempotence of a second pass: when the first pass never needed the
/// oracle, running the matcher again over its output changes nothing — the
/// transfers are skipped and no new ones arise.
pub proof fn lemma_second_pass_identity(l: Seq<Transaction>)
    requires
        l.len() <= usize::MAX,
        quiet(l, 0),
    ensures
        run_from(run_from(l, 0), 0) == run_from(l, 0),
{
    lemma_quiet_run_settled(l, 0);
    lemma_settled_fixpoint(run_from(l, 0), 0);
}

/// No ties means no oracle: on a quiet list the selector at the cursor never
/// reports an ambiguity, so the pass consumes no human input — together with
/// the driver's contract, the emitted ledger is a pure function of the input
/// order.
pub proof fn lemma_quiet_oracle_free(l: Seq<Transaction>, i: int)
    requires
        0 <= i < l.len(),
        quiet(l, i),
        l[i] is Normal,
    ensures
        ({
            let s = scored_eligibles(l.skip(i + 1), normal_of(l[i]));
            &&& !(perfects_of(s).len() >= 2)
            &&& !(perfects_of(s).len() == 0 && closes_of(s).len() >= 1)
        }),
        quiet(auto_step(l, i), i + 1),
{
}

/// Account disjointness: every transfer in the emitted ledger moves between
/// two distinct accounts.
pub proof fn lemma_account_disjointness(l: Seq<Transaction>, i: int)
    requires
        all_wf(l),
        0 <= i <= l.len() <= usize::MAX,
    ensures
        forall|j: int|
            0 <= j < run_from(l, i).len() ==> match #[trigger] run_from(l, i)[j] {
                Transaction::Transfer(t) => t.from.id@ != t.to.id@,
                Transaction::Normal(_) => true,
            },
{
    lemma_run_preserves_wf(l, i);
}

} // verus!
