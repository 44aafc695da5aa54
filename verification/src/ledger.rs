//! The emitted ledger's record shape.
//!
//! One row per working-list element: a normal movement keeps its signed
//! amount and has no destination column; a transfer carries its positive
//! amount, both account labels, and a description built from both legs'
//! texts. Account columns render by the label fallback chain.

use vstd::prelude::*;

use crate::amount::Amount;
use crate::date::Date;
use crate::transaction::Transaction;

verus! {

use vstd::string::StringExecFns;

/// One row of the emitted ledger.
#[derive(Debug, Clone, PartialEq, Eq)]
pub struct OutputFormat {
    pub date: Date,
    pub account_from: String,
    pub account_to: Option<String>,
    pub amount: Amount,
    pub currency: String,
    pub description: String,
}

impl OutputFormat {
    /// The row a working-list element emits.
    pub fn from_transaction(transaction: &Transaction) -> (r: OutputFormat)
        ensures
            match transaction {
                Transaction::Normal(n) => {
                    &&& r.date == n.date
                    &&& r.account_from@ == n.account.spec_display_label()
                    &&& r.account_to is None
                    &&& r.amount == n.amount
                    &&& r.currency@ == n.currency@
                    &&& r.description@ == n.additional_info@
                },
                Transaction::Transfer(t) => {
                    &&& r.date == t.date
                    &&& r.account_from@ == t.from.spec_display_label()
                    &&& r.account_to matches Some(to) && to@ == t.to.spec_display_label()
                    &&& r.amount == t.amount
                    &&& r.currency@ == t.currency@
                    &&& r.description@ == "from: "@ + t.from_additional_info@ + " to: "@
                        + t.to_additional_info@
                },
            },
    {
        match transaction {
            Transaction::Normal(n) => OutputFormat {
                date: n.date,
                account_from: n.account.display_label(),
                account_to: None,
                amount: n.amount,
                currency: n.currency.clone(),
                description: n.additional_info.clone(),
            },
            Transaction::Transfer(t) => {
                let mut description: String = "from: ".to_owned();
                description.append(t.from_additional_info.as_str());
                description.append(" to: ");
                description.append(t.to_additional_info.as_str());
                OutputFormat {
                    date: t.date,
                    account_from: t.from.display_label(),
                    account_to: Some(t.to.display_label()),
                    amount: t.amount,
                    currency: t.currency.clone(),
                    description,
                }
            },
        }
    }
}

} // verus!
