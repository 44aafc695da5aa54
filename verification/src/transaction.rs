//! The transaction data model.
//!
//! A `RawTransaction` is a movement as the ingestion layer delivers it. The
//! classifier binds it to its owning account, giving a `NormalTransaction`:
//! one signed movement on one account. The matcher collapses chosen pairs of
//! normals into a `TransferTransaction`, the reconstructed two-sided event.
//! `Transaction` is the tagged union of the two, the element of the working
//! list.

use vstd::prelude::*;

use crate::account::Account;
use crate::amount::Amount;
use crate::date::Date;

verus! {

/// A booked movement as delivered from the ingestion layer, before it is
/// bound to its owning [`Account`].
#[derive(Debug, Clone, PartialEq, Eq)]
pub struct RawTransaction {
    /// Id of the owning account.
    pub account: String,
    pub date: Date,
    pub currency: String,
    pub amount: Amount,
    pub additional_info: String,
    /// Unique within the owning account.
    pub id: String,
}

impl RawTransaction {
    pub open spec fn wf(self) -> bool {
        &&& self.amount.wf()
        &&& self.currency@.len() > 0
    }

    pub fn duplicate(&self) -> (r: RawTransaction)
        ensures
            r == *self,
    {
        RawTransaction {
            account: self.account.clone(),
            date: self.date,
            currency: self.currency.clone(),
            amount: self.amount,
            additional_info: self.additional_info.clone(),
            id: self.id.clone(),
        }
    }
}

/// An atomic movement affecting one account, signed: negative is a debit.
#[derive(Debug, Clone, PartialEq, Eq)]
pub struct NormalTransaction {
    pub account: Account,
    pub amount: Amount,
    pub currency: String,
    pub date: Date,
    pub additional_info: String,
}

impl NormalTransaction {
    pub open spec fn wf(self) -> bool {
        &&& self.amount.wf()
        &&& self.currency@.len() > 0
    }

    /// The classifier: binds a raw movement to its owning account. Pure, and
    /// total: classification has no failure modes.
    pub open spec fn spec_classify(raw: RawTransaction, account: Account) -> NormalTransaction {
        NormalTransaction {
            account,
            amount: raw.amount,
            currency: raw.currency,
            date: raw.date,
            additional_info: raw.additional_info,
        }
    }

    pub fn classify(raw: &RawTransaction, account: &Account) -> (t: NormalTransaction)
        ensures
            t == NormalTransaction::spec_classify(*raw, *account),
    {
        NormalTransaction {
            account: account.duplicate(),
            amount: raw.amount,
            currency: raw.currency.clone(),
            date: raw.date,
            additional_info: raw.additional_info.clone(),
        }
    }

    pub fn duplicate(&self) -> (r: NormalTransaction)
        ensures
            r == *self,
    {
        NormalTransaction {
            account: self.account.duplicate(),
            amount: self.amount,
            currency: self.currency.clone(),
            date: self.date,
            additional_info: self.additional_info.clone(),
        }
    }
}

/// A reconstructed two-sided transfer: a debit leg on `from`, a credit leg on
/// `to`, dated by the debit side, with both legs' descriptions preserved.
#[derive(Debug, Clone, PartialEq, Eq)]
pub struct TransferTransaction {
    pub from: Account,
    pub to: Account,
    pub amount: Amount,
    pub currency: String,
    pub date: Date,
    pub from_additional_info: String,
    pub to_additional_info: String,
}

impl TransferTransaction {
    pub open spec fn wf(self) -> bool {
        &&& self.amount.wf()
        &&& self.amount.units() >= 0
        &&& self.currency@.len() > 0
        &&& self.from.id@ != self.to.id@
    }
}

/// The element of the working list: either still a single-account movement,
/// or an already-fused transfer.
#[derive(Debug, Clone, PartialEq, Eq)]
pub enum Transaction {
    Normal(NormalTransaction),
    Transfer(TransferTransaction),
}

impl Transaction {
    pub open spec fn wf(self) -> bool {
        match self {
            Transaction::Normal(t) => t.wf(),
            Transaction::Transfer(t) => t.wf(),
        }
    }
}

} // verus!
