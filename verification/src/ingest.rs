//! De-duplication of the ingested stream.
//!
//! The aggregator may report a transaction more than once across runs; the
//! engine must see each `(account id, transaction id)` pair exactly once.
//! [`SeenTransactions`] remembers the pairs already observed, and
//! [`select_unseen`] threads a batch of raw transactions through it, keeping
//! the fresh ones in order and binding each to its owning account.

use vstd::prelude::*;

use crate::account::Account;
use crate::http_interface::accounts::BookedTransaction;
use crate::transaction::RawTransaction;

verus! {

/// The set of `(account id, transaction id)` pairs observed so far.
pub struct SeenTransactions {
    seen: Vec<(String, String)>,
}

impl SeenTransactions {
    /// The observed pairs, as character sequences, in observation order.
    pub closed spec fn model(&self) -> Seq<(Seq<char>, Seq<char>)> {
        self.seen@.map_values(|p: (String, String)| (p.0@, p.1@))
    }

    pub fn new() -> (r: SeenTransactions)
        ensures
            r.model() == Seq::<(Seq<char>, Seq<char>)>::empty(),
    {
        let r = SeenTransactions { seen: Vec::new() };
        proof {
            assert(r.model() =~= Seq::<(Seq<char>, Seq<char>)>::empty());
        }
        r
    }

    /// Rebuilds the set from persisted pairs, in their stored order.
    pub fn from_pairs(pairs: Vec<(String, String)>) -> (r: SeenTransactions)
        ensures
            r.model() == pairs@.map_values(|p: (String, String)| (p.0@, p.1@)),
    {
        SeenTransactions { seen: pairs }
    }

    /// Surrenders the observed pairs for persisting, in observation order.
    pub fn into_pairs(self) -> (r: Vec<(String, String)>)
        ensures
            r@.map_values(|p: (String, String)| (p.0@, p.1@)) == self.model(),
    {
        self.seen
    }

    /// Records the pair and reports whether it was fresh: true exactly when
    /// the pair had not been observed before, which also is when the model
    /// grows.
    pub fn observe(&mut self, account_id: &String, tx_id: &String) -> (unseen: bool)
        ensures
            unseen <==> !old(self).model().contains((account_id@, tx_id@)),
            final(self).model() == if unseen {
                old(self).model().push((account_id@, tx_id@))
            } else {
                old(self).model()
            },
    {
        let ghost m = self.model();
        let n = self.seen.len();
        let mut i: usize = 0;
        while i < n
            invariant
                n == self.seen@.len(),
                i <= n,
                m == self.model(),
                forall|j: int|
                    0 <= j < i ==> !((#[trigger] self.seen@[j]).0@ == account_id@
                        && self.seen@[j].1@ == tx_id@),
            decreases n - i,
        {
            let entry = &self.seen[i];
            if entry.0 == *account_id && entry.1 == *tx_id {
                proof {
                    assert(m[i as int] == (account_id@, tx_id@));
                    assert(m.contains((account_id@, tx_id@)));
                }
                return false;
            }
            i = i + 1;
        }
        proof {
            if m.contains((account_id@, tx_id@)) {
                let w = choose|w: int| 0 <= w < m.len() && m[w] == (account_id@, tx_id@);
                assert((self.seen@[w].0@, self.seen@[w].1@) == (account_id@, tx_id@));
            }
        }
        self.seen.push((account_id.clone(), tx_id.clone()));
        proof {
            assert(self.model() =~= m.push((account_id@, tx_id@)));
        }
        true
    }
}

/// What threading one batch through the seen set yields: the fresh
/// transactions in order, each bound to the owning account, and the grown
/// set.
pub open spec fn spec_select(
    m: Seq<(Seq<char>, Seq<char>)>,
    account: Account,
    txs: Seq<RawTransaction>,
) -> (Seq<(RawTransaction, Account)>, Seq<(Seq<char>, Seq<char>)>)
    decreases txs.len(),
{
    if txs.len() == 0 {
        (Seq::empty(), m)
    } else {
        let (picked, m2) = spec_select(m, account, txs.drop_last());
        let pair = (account.id@, txs.last().id@);
        if m2.contains(pair) {
            (picked, m2)
        } else {
            (picked.push((txs.last(), account)), m2.push(pair))
        }
    }
}

/// Keeps the not-yet-observed transactions of one account's batch, in order,
/// each paired with the account; every pair of the batch is recorded as
/// observed.
pub fn select_unseen(
    seen: &mut SeenTransactions,
    account: &Account,
    transactions: &Vec<RawTransaction>,
) -> (r: Vec<(RawTransaction, Account)>)
    ensures
        ({
            let (picked, m2) = spec_select(old(seen).model(), *account, transactions@);
            r@ == picked && final(seen).model() == m2
        }),
{
    let mut r: Vec<(RawTransaction, Account)> = Vec::new();
    let mut i: usize = 0;
    while i < transactions.len()
        invariant
            i <= transactions@.len(),
            ({
                let (picked, m2) = spec_select(
                    old(seen).model(),
                    *account,
                    transactions@.take(i as int),
                );
                r@ == picked && seen.model() == m2
            }),
        decreases transactions@.len() - i,
    {
        proof {
            assert(transactions@.take(i + 1).drop_last() =~= transactions@.take(i as int));
        }
        let tx = &transactions[i];
        let fresh = seen.observe(&account.id, &tx.id);
        if fresh {
            r.push((tx.duplicate(), account.duplicate()));
        }
        i = i + 1;
    }
    proof {
        assert(transactions@.take(transactions@.len() as int) =~= transactions@);
    }
    r
}

/// The raw transaction a booked listing entry describes, under the account
/// it was listed for.
pub open spec fn raw_of_booked(account_id: String, booked: BookedTransaction) -> RawTransaction {
    RawTransaction {
        account: account_id,
        date: booked.value_date,
        currency: booked.currency,
        amount: booked.amount,
        additional_info: booked.additional_information,
        id: booked.transaction_id,
    }
}

/// Lifts one account's booked listing into raw transactions, in order.
pub fn raw_transactions_of(account_id: &String, booked: &Vec<BookedTransaction>) -> (r: Vec<
    RawTransaction,
>)
    ensures
        r@.len() == booked@.len(),
        forall|j: int|
            0 <= j < booked@.len() ==> #[trigger] r@[j] == raw_of_booked(*account_id, booked@[j]),
{
    let mut r: Vec<RawTransaction> = Vec::new();
    let mut i: usize = 0;
    while i < booked.len()
        invariant
            i <= booked@.len(),
            r@.len() == i,
            forall|j: int|
                0 <= j < i ==> #[trigger] r@[j] == raw_of_booked(*account_id, booked@[j]),
        decreases booked@.len() - i,
    {
        let b = &booked[i];
        r.push(
            RawTransaction {
                account: account_id.clone(),
                date: b.value_date,
                currency: b.currency.clone(),
                amount: b.amount,
                additional_info: b.additional_information.clone(),
                id: b.transaction_id.clone(),
            },
        );
        i = i + 1;
    }
    r
}

} // verus!
