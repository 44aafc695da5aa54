//! Requisitions: a granted consent and the accounts it opens.

use vstd::prelude::*;

use crate::account::Account;
use crate::http_interface::accounts::AccountDetails;
use crate::http_interface::requisitions::RequisitionRecord;

verus! {

/// A requisition with its accounts resolved: only the available ones are
/// kept.
#[derive(Debug, Clone, PartialEq, Eq)]
pub struct Requisition {
    pub id: String,
    pub created: i64,
    pub status: String,
    pub accounts: Vec<Account>,
    pub link: String,
}

impl Requisition {
    /// Assembles a requisition from its wire record and its resolved
    /// accounts, keeping only the available ones.
    pub fn from_record(record: RequisitionRecord, resolved: Vec<Account>) -> (r: Requisition)
        ensures
            r.id == record.id,
            r.created == record.created,
            r.status == record.status,
            r.link == record.link,
            r.accounts@ == resolved@.filter(available_pred()),
    {
        Requisition {
            id: record.id,
            created: record.created,
            status: record.status,
            accounts: available_accounts(resolved),
            link: record.link,
        }
    }

    /// Whether the consent flow has completed.
    pub fn is_linked(&self) -> (r: bool)
        ensures
            r <==> self.status@ == "LN"@,
    {
        let linked: String = "LN".to_owned();
        self.status == linked
    }
}

/// The account a details response describes, under the id it was asked for.
pub fn account_from_details(id: String, details: AccountDetails) -> (r: Account)
    ensures
        r == (Account {
            id,
            bban: details.bban,
            iban: details.iban,
            status: details.status,
            name: details.name,
            display_name: details.display_name,
        }),
{
    Account {
        id,
        bban: details.bban,
        iban: details.iban,
        status: details.status,
        name: details.name,
        display_name: details.display_name,
    }
}

/// The predicate by which accounts are kept, as a function value.
pub open spec fn available_pred() -> spec_fn(Account) -> bool {
    |a: Account| a.status@ == "enabled"@
}

/// Keeps the available accounts, in order.
pub fn available_accounts(accounts: Vec<Account>) -> (r: Vec<Account>)
    ensures
        r@ == accounts@.filter(available_pred()),
{
    let mut r: Vec<Account> = Vec::new();
    let mut i: usize = 0;
    while i < accounts.len()
        invariant
            i <= accounts@.len(),
            r@ == accounts@.take(i as int).filter(available_pred()),
        decreases accounts@.len() - i,
    {
        proof {
            assert(accounts@.take(i + 1) =~= accounts@.take(i as int).push(accounts@[i as int]));
            accounts@.take(i as int).lemma_filter_push(accounts@[i as int], available_pred());
        }
        let account = &accounts[i];
        if account.is_available() {
            r.push(account.duplicate());
        }
        i = i + 1;
    }
    proof {
        assert(accounts@.take(accounts@.len() as int) =~= accounts@);
    }
    r
}

} // verus!
