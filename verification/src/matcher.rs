//! The pair scorer, match selector and fusion.
//!
//! A candidate is eligible as the other half of a target's transfer when it
//! sits on a different account, shares the currency, and its exact amount
//! cancels the target's. Each eligible candidate is scored by the signed
//! date difference in days. The selector then applies the tie-break policy:
//! a single same-day candidate wins outright; several same-day candidates, or
//! only near-dated ones, go to the human oracle; nothing within the window is
//! no match.

use vstd::prelude::*;

use crate::amount;
use crate::amount::Amount;
use crate::transaction::{NormalTransaction, Transaction, TransferTransaction};

verus! {

/// Half-width of the open date window, in days: a candidate scoring exactly
/// this far from the target is already out.
pub const CLOSE_WINDOW_DAYS: i64 = 5;

/// The hard matching predicate: different accounts, byte-equal currency, and
/// amounts that sum to exactly zero.
pub open spec fn eligible(target: NormalTransaction, candidate: NormalTransaction) -> bool {
    &&& target.account.id@ != candidate.account.id@
    &&& target.currency@ == candidate.currency@
    &&& target.amount.units() + candidate.amount.units() == 0
}

/// The score of an eligible candidate: the signed date difference
/// `target.date - candidate.date` in whole days.
pub open spec fn score(target: NormalTransaction, candidate: NormalTransaction) -> int {
    target.date.day_number - candidate.date.day_number
}

/// Decides eligibility of `candidate` for `target`; `Some(score)` when the
/// hard predicate holds, `None` otherwise.
pub fn evaluate_match(target: &NormalTransaction, candidate: &NormalTransaction) -> (r: Option<
    i64,
>)
    requires
        target.amount.wf(),
        candidate.amount.wf(),
    ensures
        r is Some <==> eligible(*target, *candidate),
        r matches Some(d) ==> d == score(*target, *candidate),
{
    if target.account.id == candidate.account.id {
        return None;
    }
    if !(target.currency == candidate.currency) {
        return None;
    }
    if !amount::sums_to_zero(&target.amount, &candidate.amount) {
        return None;
    }
    Some(target.date.days_since(&candidate.date))
}

/// An eligible candidate: its position in the tail slice it was drawn from,
/// and its date score.
#[derive(Debug, Clone, Copy, PartialEq, Eq, Structural)]
pub struct ScoredCandidate {
    pub index: usize,
    pub score: i64,
}

impl ScoredCandidate {
    /// Score exactly zero: the candidate is booked on the target's own date.
    pub open spec fn is_perfect(self) -> bool {
        self.score == 0
    }

    /// Score strictly inside the open window around the target's date.
    pub open spec fn is_close(self) -> bool {
        -(CLOSE_WINDOW_DAYS as int) < self.score && self.score < CLOSE_WINDOW_DAYS as int
    }
}

/// The eligible candidates of `tail` for `target`, in tail order, each with
/// its position and score.
pub open spec fn scored_eligibles(tail: Seq<Transaction>, target: NormalTransaction) -> Seq<
    ScoredCandidate,
>
    decreases tail.len(),
{
    if tail.len() == 0 {
        Seq::empty()
    } else {
        let prefix = scored_eligibles(tail.drop_last(), target);
        match tail.last() {
            Transaction::Normal(c) => if eligible(target, c) {
                prefix.push(
                    ScoredCandidate {
                        index: (tail.len() - 1) as usize,
                        score: score(target, c) as i64,
                    },
                )
            } else {
                prefix
            },
            Transaction::Transfer(_) => prefix,
        }
    }
}

/// The pair scorer: walks the tail slice and returns every eligible
/// candidate with its position and score, in tail order.
pub fn find_matches(candidates: &[Transaction], target: &NormalTransaction) -> (r: Vec<
    ScoredCandidate,
>)
    requires
        target.amount.wf(),
        forall|j: int| 0 <= j < candidates@.len() ==> (#[trigger] candidates@[j]).wf(),
    ensures
        r@ == scored_eligibles(candidates@, *target),
{
    let mut r: Vec<ScoredCandidate> = Vec::new();
    let mut i: usize = 0;
    while i < candidates.len()
        invariant
            i <= candidates@.len(),
            target.amount.wf(),
            forall|j: int| 0 <= j < candidates@.len() ==> (#[trigger] candidates@[j]).wf(),
            r@ == scored_eligibles(candidates@.take(i as int), *target),
        decreases candidates@.len() - i,
    {
        proof {
            assert(candidates@.take(i + 1).drop_last() =~= candidates@.take(i as int));
            assert(candidates@.take(i + 1).last() == candidates@[i as int]);
        }
        match &candidates[i] {
            Transaction::Normal(c) => {
                if let Some(d) = evaluate_match(target, c) {
                    r.push(ScoredCandidate { index: i, score: d });
                }
            },
            Transaction::Transfer(_) => {},
        }
        i = i + 1;
    }
    proof {
        assert(candidates@.take(candidates@.len() as int) =~= candidates@);
    }
    r
}

/// The perfect predicate, as a function value for filtering.
pub open spec fn perfect_pred() -> spec_fn(ScoredCandidate) -> bool {
    |c: ScoredCandidate| c.is_perfect()
}

/// The close predicate, as a function value for filtering.
pub open spec fn close_pred() -> spec_fn(ScoredCandidate) -> bool {
    |c: ScoredCandidate| c.is_close()
}

/// The perfect (same-day) members of a scored candidate list, in order.
pub open spec fn perfects_of(s: Seq<ScoredCandidate>) -> Seq<ScoredCandidate> {
    s.filter(perfect_pred())
}

/// The close (strictly inside the open window) members of a scored candidate
/// list, in order.
pub open spec fn closes_of(s: Seq<ScoredCandidate>) -> Seq<ScoredCandidate> {
    s.filter(close_pred())
}

/// What the selector decided for one target.
#[derive(Debug, Clone, PartialEq, Eq)]
pub enum Match {
    /// No candidate inside the window: the target stays a normal movement.
    NoMatch,
    /// Exactly one same-day candidate: fuse without asking.
    ObviousChoice(ScoredCandidate),
    /// Several same-day candidates, or only near-dated ones: the human
    /// oracle must pick (or decline). The list is in tail order.
    HumanInterventionRequired(Vec<ScoredCandidate>),
}

/// The tie-break policy over a scored candidate list:
/// a unique perfect candidate is obvious; two or more perfects need a human;
/// with no perfect, the close ones (if any) need a human; else no match.
pub fn pick_match(scored: &Vec<ScoredCandidate>) -> (m: Match)
    ensures
        ({
            let perfects = perfects_of(scored@);
            let closes = closes_of(scored@);
            match m {
                Match::NoMatch => perfects.len() == 0 && closes.len() == 0,
                Match::ObviousChoice(c) => perfects.len() == 1 && c == perfects[0],
                Match::HumanInterventionRequired(v) => (perfects.len() >= 2 && v@ == perfects) || (
                perfects.len() == 0 && closes.len() >= 1 && v@ == closes),
            }
        }),
{
    let perfect_candidates = filter_perfect(scored);
    if perfect_candidates.len() == 1 {
        let c = perfect_candidates[0];
        return Match::ObviousChoice(c);
    }
    if perfect_candidates.len() >= 2 {
        return Match::HumanInterventionRequired(perfect_candidates);
    }
    let close_candidates = filter_close(scored);
    if close_candidates.len() == 0 {
        Match::NoMatch
    } else {
        Match::HumanInterventionRequired(close_candidates)
    }
}

fn filter_perfect(scored: &Vec<ScoredCandidate>) -> (r: Vec<ScoredCandidate>)
    ensures
        r@ == perfects_of(scored@),
{
    let mut r: Vec<ScoredCandidate> = Vec::new();
    let mut i: usize = 0;
    while i < scored.len()
        invariant
            i <= scored@.len(),
            r@ == perfects_of(scored@.take(i as int)),
        decreases scored@.len() - i,
    {
        proof {
            assert(scored@.take(i + 1) =~= scored@.take(i as int).push(scored@[i as int]));
            scored@.take(i as int).lemma_filter_push(scored@[i as int], perfect_pred());
        }
        let c = scored[i];
        if c.score == 0 {
            r.push(c);
        }
        i = i + 1;
    }
    proof {
        assert(scored@.take(scored@.len() as int) =~= scored@);
    }
    r
}

fn filter_close(scored: &Vec<ScoredCandidate>) -> (r: Vec<ScoredCandidate>)
    ensures
        r@ == closes_of(scored@),
{
    let mut r: Vec<ScoredCandidate> = Vec::new();
    let mut i: usize = 0;
    while i < scored.len()
        invariant
            i <= scored@.len(),
            r@ == closes_of(scored@.take(i as int)),
        decreases scored@.len() - i,
    {
        proof {
            assert(scored@.take(i + 1) =~= scored@.take(i as int).push(scored@[i as int]));
            scored@.take(i as int).lemma_filter_push(scored@[i as int], close_pred());
        }
        let c = scored[i];
        if -CLOSE_WINDOW_DAYS < c.score && c.score < CLOSE_WINDOW_DAYS {
            r.push(c);
        }
        i = i + 1;
    }
    proof {
        assert(scored@.take(scored@.len() as int) =~= scored@);
    }
    r
}

/// Fusion of a target with its chosen partner: the negative-amount side is
/// the `from` leg, the other the `to` leg; the transfer carries the absolute
/// amount, the shared currency, the `from` leg's date, and both legs'
/// descriptions. A target with a non-negative amount (including zero) takes
/// the credit side.
pub open spec fn spec_fuse(target: NormalTransaction, partner: NormalTransaction)
    -> TransferTransaction {
    let from = if target.amount.units() < 0 {
        target
    } else {
        partner
    };
    let to = if target.amount.units() < 0 {
        partner
    } else {
        target
    };
    TransferTransaction {
        from: from.account,
        to: to.account,
        amount: Amount { negative: false, mantissa: from.amount.mantissa, scale: from.amount.scale },
        currency: from.currency,
        date: from.date,
        from_additional_info: from.additional_info,
        to_additional_info: to.additional_info,
    }
}

/// Collapses a chosen pair into a transfer, per [`spec_fuse`].
pub fn fuse(target: &NormalTransaction, partner: &NormalTransaction) -> (t: TransferTransaction)
    requires
        target.amount.wf(),
        partner.amount.wf(),
    ensures
        t == spec_fuse(*target, *partner),
{
    let (from, to) = if target.amount.is_negative() {
        (target, partner)
    } else {
        (partner, target)
    };
    TransferTransaction {
        from: from.account.duplicate(),
        to: to.account.duplicate(),
        amount: from.amount.abs(),
        currency: from.currency.clone(),
        date: from.date,
        from_additional_info: from.additional_info.clone(),
        to_additional_info: to.additional_info.clone(),
    }
}

} // verus!
