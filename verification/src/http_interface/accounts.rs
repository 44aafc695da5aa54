//! Wire shapes of the account endpoints: details and transaction listings.

use vstd::prelude::*;

use crate::amount::Amount;
use crate::date::Date;

verus! {

/// The label fields and status of one account, as its details endpoint
/// reports them.
#[derive(Debug, Clone, PartialEq, Eq)]
pub struct AccountDetails {
    pub bban: Option<String>,
    pub iban: Option<String>,
    pub status: String,
    pub name: Option<String>,
    pub display_name: Option<String>,
}

/// A monetary amount with its currency, as listed on a pending transaction:
/// both still raw text.
#[derive(Debug, Clone, PartialEq, Eq)]
pub struct TransactionAmount {
    pub currency: String,
    pub amount: String,
}

/// A not-yet-booked transaction; the engine ignores these.
#[derive(Debug, Clone, PartialEq, Eq)]
pub struct PendingTransaction {
    pub transaction_amount: TransactionAmount,
    pub value_date: String,
    pub remittance_information_unstructured: String,
}

/// The counterparty account named on a listed transaction.
#[derive(Debug, Clone, PartialEq, Eq)]
pub struct DebtorAccount {
    pub iban: String,
}

/// A booked transaction, with its value date as a day number and its amount
/// as an exact decimal.
#[derive(Debug, Clone, PartialEq, Eq)]
pub struct BookedTransaction {
    pub value_date: Date,
    pub amount: Amount,
    pub currency: String,
    pub transaction_id: String,
    pub additional_information: String,
}

/// The transaction listing of one account.
#[derive(Debug, Clone, PartialEq, Eq)]
pub struct Transactions {
    pub booked: Vec<BookedTransaction>,
}

/// The body of a transaction-listing response.
#[derive(Debug, Clone, PartialEq, Eq)]
pub struct GetResponseBody {
    pub transactions: Transactions,
}

} // verus!
