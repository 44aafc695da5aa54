//! The driver: a single pass over the working list.
//!
//! The cursor starts at the head. At each position, an already-fused transfer
//! is skipped; for a normal movement the tail is scored and the selector
//! consulted. An obvious choice is fused on the spot: the target's slot is
//! overwritten with the transfer and the partner is removed from the tail.
//! An ambiguous choice suspends the pass: [`Matcher::step`] hands the close
//! candidates out, and the caller answers through [`Matcher::resolve`] with
//! the human's pick (or none). Either way the cursor then advances, so the
//! pass terminates.
//!
//! The whole non-interactive pass (every ambiguity declined) is mirrored by
//! the specification function [`run_from`], and [`match_transactions`]
//! promises to compute exactly that.

use vstd::prelude::*;

use crate::account::Account;
use crate::matcher::{
    closes_of, eligible, perfects_of, pick_match, score, scored_eligibles, spec_fuse,
    find_matches, fuse, Match, ScoredCandidate,
};
use crate::transaction::{NormalTransaction, RawTransaction, Transaction};

verus! {

use vstd::pervasive::unreached;
use vstd::slice::slice_subrange;

/// The normal movement inside a working-list element; arbitrary on an
/// already-fused element.
pub open spec fn normal_of(t: Transaction) -> NormalTransaction {
    t->Normal_0
}

/// The working list after fusing the normal at `i` with the normal at
/// `i + 1 + k`: the target's slot is overwritten by the transfer, the
/// partner's slot is removed.
pub open spec fn fuse_at(l: Seq<Transaction>, i: int, k: int) -> Seq<Transaction> {
    let target = normal_of(l[i]);
    let partner = normal_of(l[i + 1 + k]);
    l.update(i, Transaction::Transfer(spec_fuse(target, partner))).remove(i + 1 + k)
}

/// One non-interactive driver step at cursor `i`: a transfer is skipped, a
/// normal is fused exactly when its tail holds a unique perfect candidate,
/// and everything else (no candidate in the window, or an ambiguity that
/// would need a human) leaves the list unchanged.
pub open spec fn auto_step(l: Seq<Transaction>, i: int) -> Seq<Transaction>
    recommends
        0 <= i < l.len(),
{
    match l[i] {
        Transaction::Transfer(_) => l,
        Transaction::Normal(target) => {
            let perfects = perfects_of(scored_eligibles(l.skip(i + 1), target));
            if perfects.len() == 1 && i + 1 + perfects[0].index < l.len() {
                fuse_at(l, i, perfects[0].index as int)
            } else {
                l
            }
        },
    }
}

/// The non-interactive pass from cursor `i` to the end of the list.
pub open spec fn run_from(l: Seq<Transaction>, i: int) -> Seq<Transaction>
    decreases l.len() - i,
{
    if i < 0 || i >= l.len() {
        l
    } else {
        run_from(auto_step(l, i), i + 1)
    }
}

/// Unfolds one step of [`run_from`].
pub proof fn lemma_run_from_unfold(l: Seq<Transaction>, i: int)
    requires
        0 <= i < l.len(),
    ensures
        run_from(l, i) == run_from(auto_step(l, i), i + 1),
{
}

/// A member of a scored candidate list really is an eligible normal of the
/// tail it was drawn from, at its recorded position, with its recorded score.
pub proof fn lemma_scored_member(
    tail: Seq<Transaction>,
    target: NormalTransaction,
    c: ScoredCandidate,
)
    requires
        tail.len() <= usize::MAX,
        scored_eligibles(tail, target).contains(c),
    ensures
        c.index < tail.len(),
        tail[c.index as int] is Normal,
        eligible(target, normal_of(tail[c.index as int])),
        c.score == score(target, normal_of(tail[c.index as int])),
    decreases tail.len(),
{
    if tail.len() == 0 {
    } else {
        let s = scored_eligibles(tail, target);
        let prefix = scored_eligibles(tail.drop_last(), target);
        let w = choose|w: int| 0 <= w < s.len() && s[w] == c;
        if w < prefix.len() {
            assert(prefix[w] == c);
            assert(prefix.contains(c));
            lemma_scored_member(tail.drop_last(), target, c);
            assert(tail.drop_last()[c.index as int] == tail[c.index as int]);
        } else {
            // c is the element contributed by the last position.
            assert(tail.last() is Normal && eligible(target, normal_of(tail.last())));
            assert(tail[c.index as int] == tail.last());
        }
    }
}

/// A fused pair keeps the working list well formed: the transfer carries a
/// well-formed non-negative amount, a non-empty currency, and two distinct
/// accounts.
pub proof fn lemma_fuse_wf(target: NormalTransaction, partner: NormalTransaction)
    requires
        target.wf(),
        partner.wf(),
        eligible(target, partner),
    ensures
        spec_fuse(target, partner).wf(),
{
}

/// What one [`Matcher::step`] reports.
#[derive(Debug, Clone, PartialEq, Eq)]
pub enum StepOutcome {
    /// The cursor moved on: the element was already a transfer, or had no
    /// candidate in the window, or was fused with its unique same-day
    /// candidate.
    Advanced,
    /// The tie-break needs the human oracle: either several same-day
    /// candidates, or only near-dated ones. The state is unchanged; answer
    /// through [`Matcher::resolve`]. Candidates are in tail order; their
    /// `index` is relative to the tail that starts right after the cursor.
    HumanNeeded(Vec<ScoredCandidate>),
}

/// The matcher's working state: the working list and the cursor of the
/// single pass. Drive it with [`Matcher::step`] and [`Matcher::resolve`]
/// until [`Matcher::done`], then take the ledger with
/// [`Matcher::into_ledger`].
pub struct Matcher {
    list: Vec<Transaction>,
    index: usize,
}

impl Matcher {
    /// The working list.
    pub closed spec fn working(&self) -> Seq<Transaction> {
        self.list@
    }

    /// The cursor: everything before it is settled.
    pub closed spec fn cursor(&self) -> int {
        self.index as int
    }

    /// The state invariant: the cursor is within (one past) the list, and
    /// every element is well formed.
    pub closed spec fn wf(&self) -> bool {
        &&& self.index <= self.list@.len()
        &&& forall|j: int| 0 <= j < self.list@.len() ==> (#[trigger] self.list@[j]).wf()
    }

    pub fn new(transactions: Vec<Transaction>) -> (m: Matcher)
        requires
            forall|j: int|
                0 <= j < transactions@.len() ==> (#[trigger] transactions@[j]).wf(),
        ensures
            m.wf(),
            m.working() == transactions@,
            m.cursor() == 0,
    {
        Matcher { list: transactions, index: 0 }
    }

    /// Whether the pass has visited the whole list.
    pub fn done(&self) -> (r: bool)
        ensures
            r <==> self.cursor() >= self.working().len(),
    {
        self.index >= self.list.len()
    }

    /// The number of elements currently in the working list.
    pub fn len(&self) -> (n: usize)
        ensures
            n == self.working().len(),
    {
        self.list.len()
    }

    /// The element at `i`, for rendering.
    pub fn peek(&self, i: usize) -> (t: &Transaction)
        requires
            i < self.working().len(),
        ensures
            *t == self.working()[i as int],
    {
        &self.list[i]
    }

    /// The cursor's position.
    pub fn position(&self) -> (i: usize)
        ensures
            i == self.cursor(),
    {
        self.index
    }

    /// Runs the scorer and selector at the cursor. On anything but an
    /// ambiguity this performs the step (skip, no match, or obvious fusion)
    /// and advances; the resulting state is exactly one [`auto_step`], so a
    /// caller that never answers ambiguities computes [`run_from`]. On an
    /// ambiguity the state is untouched and the close candidates are handed
    /// out for [`Matcher::resolve`].
    pub fn step(&mut self) -> (outcome: StepOutcome)
        requires
            old(self).wf(),
            old(self).cursor() < old(self).working().len(),
        ensures
            final(self).wf(),
            match outcome {
                StepOutcome::Advanced => {
                    &&& final(self).cursor() == old(self).cursor() + 1
                    &&& final(self).working() == auto_step(
                        old(self).working(),
                        old(self).cursor(),
                    )
                    &&& run_from(final(self).working(), final(self).cursor()) == run_from(
                        old(self).working(),
                        old(self).cursor(),
                    )
                },
                StepOutcome::HumanNeeded(v) => {
                    &&& *final(self) == *old(self)
                    &&& old(self).working()[old(self).cursor()] is Normal
                    &&& {
                        let target = normal_of(old(self).working()[old(self).cursor()]);
                        let scored = scored_eligibles(
                            old(self).working().skip(old(self).cursor() + 1),
                            target,
                        );
                        ||| (perfects_of(scored).len() >= 2 && v@ == perfects_of(scored))
                        ||| (perfects_of(scored).len() == 0 && closes_of(scored).len() >= 1
                            && v@ == closes_of(scored))
                    }
                },
            },
    {
        let ghost l = self.list@;
        let ghost i0 = self.index as int;
        proof {
            lemma_run_from_unfold(l, i0);
        }
        let n = self.list.len();
        let i = self.index;
        let is_normal = match &self.list[i] {
            Transaction::Normal(_) => true,
            Transaction::Transfer(_) => false,
        };
        if !is_normal {
            self.index = i + 1;
            return StepOutcome::Advanced;
        }
        let target = match &self.list[i] {
            Transaction::Normal(t) => t.duplicate(),
            Transaction::Transfer(_) => unreached(),
        };
        let tail = slice_subrange(self.list.as_slice(), i + 1, self.list.len());
        let scored = find_matches(tail, &target);
        match pick_match(&scored) {
            Match::NoMatch => {
                proof {
                    // No perfect candidate at all, so no fusion happens.
                    assert(auto_step(l, i0) == l);
                }
                self.index = i + 1;
                StepOutcome::Advanced
            },
            Match::ObviousChoice(c) => {
                proof {
                    let elig = scored_eligibles(l.skip(i0 + 1), target);
                    assert(perfects_of(elig).contains(c));
                    elig.lemma_filter_contains_rev(crate::matcher::perfect_pred(), c);
                    lemma_scored_member(l.skip(i0 + 1), target, c);
                }
                self.apply_choice(&target, c);
                StepOutcome::Advanced
            },
            Match::HumanInterventionRequired(v) => StepOutcome::HumanNeeded(v),
        }
    }

    /// Applies the human oracle's answer to the ambiguity that
    /// [`Matcher::step`] just reported: fuses with the chosen candidate, or
    /// leaves the target unmatched, and advances the cursor either way.
    /// `candidates` must be (a subsequence of) the list that `step` handed
    /// out, untouched: each entry a scored eligible candidate of the
    /// cursor's tail.
    pub fn resolve(&mut self, candidates: &Vec<ScoredCandidate>, choice: Option<usize>)
        requires
            old(self).wf(),
            old(self).cursor() < old(self).working().len(),
            old(self).working()[old(self).cursor()] is Normal,
            forall|j: int|
                0 <= j < candidates@.len() ==> scored_eligibles(
                    old(self).working().skip(old(self).cursor() + 1),
                    normal_of(old(self).working()[old(self).cursor()]),
                ).contains(#[trigger] candidates@[j]),
            choice matches Some(k) ==> k < candidates@.len(),
        ensures
            final(self).wf(),
            final(self).cursor() == old(self).cursor() + 1,
            match choice {
                Option::None => final(self).working() == old(self).working(),
                Option::Some(k) => final(self).working() == fuse_at(
                    old(self).working(),
                    old(self).cursor(),
                    candidates@[k as int].index as int,
                ),
            },
    {
        let n = self.list.len();
        let i = self.index;
        match choice {
            None => {
                self.index = i + 1;
            },
            Some(k) => {
                let c = candidates[k];
                let target = match &self.list[i] {
                    Transaction::Normal(t) => t.duplicate(),
                    Transaction::Transfer(_) => unreached(),
                };
                proof {
                    lemma_scored_member(
                        self.list@.skip(i + 1),
                        target,
                        c,
                    );
                }
                self.apply_choice(&target, c);
            },
        }
    }

    /// Overwrites the cursor's slot with the fused transfer, removes the
    /// partner from the tail, and advances the cursor.
    fn apply_choice(&mut self, target: &NormalTransaction, c: ScoredCandidate)
        requires
            old(self).wf(),
            old(self).cursor() < old(self).working().len(),
            old(self).working()[old(self).cursor()] is Normal,
            *target == normal_of(old(self).working()[old(self).cursor()]),
            old(self).cursor() + 1 + c.index < old(self).working().len(),
            old(self).working()[old(self).cursor() + 1 + c.index] is Normal,
            eligible(
                *target,
                normal_of(old(self).working()[old(self).cursor() + 1 + c.index]),
            ),
        ensures
            final(self).wf(),
            final(self).cursor() == old(self).cursor() + 1,
            final(self).working() == fuse_at(
                old(self).working(),
                old(self).cursor(),
                c.index as int,
            ),
    {
        let ghost l = self.list@;
        let ghost i0 = self.index as int;
        let ghost j0 = i0 + 1 + c.index;
        let n = self.list.len();
        let i = self.index;
        let partner_pos = i + 1 + c.index;
        let partner = match &self.list[partner_pos] {
            Transaction::Normal(t) => t.duplicate(),
            Transaction::Transfer(_) => unreached(),
        };
        let transfer = fuse(target, &partner);
        proof {
            lemma_fuse_wf(*target, partner);
        }
        self.list[i] = Transaction::Transfer(transfer);
        self.list.remove(partner_pos);
        self.index = i + 1;
        proof {
            let upd = l.update(i0, Transaction::Transfer(spec_fuse(*target, partner)));
            assert(self.list@ == upd.remove(j0));
            assert forall|m: int| 0 <= m < self.list@.len() implies (#[trigger] self.list@[m]).wf()
            by {
                if m < j0 {
                    assert(self.list@[m] == upd[m]);
                } else {
                    assert(self.list@[m] == upd[m + 1]);
                }
            }
        }
    }

    /// Surrenders the working list: the ledger in its final order.
    pub fn into_ledger(self) -> (r: Vec<Transaction>)
        ensures
            r@ == self.working(),
    {
        self.list
    }
}

/// Classification of the whole ingested stream, in order.
pub open spec fn classify_all(raw: Seq<(RawTransaction, Account)>) -> Seq<Transaction> {
    raw.map_values(
        |p: (RawTransaction, Account)|
            Transaction::Normal(NormalTransaction::spec_classify(p.0, p.1)),
    )
}

/// The non-interactive matcher: classifies the ingested stream and runs the
/// single pass over it, declining every ambiguity (a run without a human
/// treats `HumanNeeded` as no match). The result is exactly the
/// specification-level pass [`run_from`] — a pure function of the input
/// order.
pub fn match_transactions(raw_transactions: &Vec<(RawTransaction, Account)>) -> (out: Vec<
    Transaction,
>)
    requires
        forall|j: int|
            0 <= j < raw_transactions@.len() ==> (#[trigger] raw_transactions@[j]).0.wf(),
    ensures
        out@ == run_from(classify_all(raw_transactions@), 0),
{
    let mut transactions: Vec<Transaction> = Vec::new();
    let mut i: usize = 0;
    while i < raw_transactions.len()
        invariant
            i <= raw_transactions@.len(),
            forall|j: int|
                0 <= j < raw_transactions@.len() ==> (#[trigger] raw_transactions@[j]).0.wf(),
            transactions@ == classify_all(raw_transactions@.take(i as int)),
        decreases raw_transactions@.len() - i,
    {
        let pair = &raw_transactions[i];
        let normal = NormalTransaction::classify(&pair.0, &pair.1);
        transactions.push(Transaction::Normal(normal));
        proof {
            assert(transactions@ =~= classify_all(raw_transactions@.take(i + 1)));
        }
        i = i + 1;
    }
    proof {
        assert(raw_transactions@.take(raw_transactions@.len() as int) =~= raw_transactions@);
    }
    let ghost initial = transactions@;
    let mut m = Matcher::new(transactions);
    while !m.done()
        invariant
            m.wf(),
            run_from(m.working(), m.cursor()) == run_from(initial, 0),
        decreases m.working().len() - m.cursor(),
    {
        let ghost l = m.working();
        let ghost i0 = m.cursor();
        match m.step() {
            StepOutcome::Advanced => {},
            StepOutcome::HumanNeeded(candidates) => {
                proof {
                    // An ambiguity never holds exactly one perfect
                    // candidate, so the auto step leaves the list unchanged.
                    lemma_run_from_unfold(l, i0);
                    assert(auto_step(l, i0) == l);
                    let target = normal_of(l[i0]);
                    let elig = scored_eligibles(l.skip(i0 + 1), target);
                    assert forall|j: int|
                        0 <= j < candidates@.len() implies elig.contains(
                        #[trigger] candidates@[j],
                    ) by {
                        if candidates@ == perfects_of(elig) {
                            assert(perfects_of(elig)[j] == candidates@[j]);
                            elig.lemma_filter_contains_rev(
                                crate::matcher::perfect_pred(),
                                candidates@[j],
                            );
                        } else {
                            assert(closes_of(elig)[j] == candidates@[j]);
                            elig.lemma_filter_contains_rev(
                                crate::matcher::close_pred(),
                                candidates@[j],
                            );
                        }
                    }
                }
                m.resolve(&candidates, None);
            },
        }
    }
    m.into_ledger()
}

} // verus!
