//! Transfer-matching engine for a personal-finance ledger.
//!
//! The engine takes a flat, ordered list of single-account bank movements and
//! reconstructs the logical two-sided transfer events among them: two
//! movements on different accounts, in the same currency, whose exact decimal
//! amounts sum to zero and whose booking dates lie close together, are
//! collapsed into one `TransferTransaction`. Ambiguous pairings are handed to
//! a human oracle, which the caller drives through the [`matcher::Matcher`]
//! state machine.

use vstd::prelude::*;

pub mod account;
pub mod amount;
pub mod client_credentials;
pub mod data;
pub mod date;
pub mod driver;
pub mod http_interface;
pub mod ingest;
pub mod institution;
pub mod interactions;
pub mod laws;
pub mod ledger;
pub mod matcher;
pub mod requisition;
pub mod state;
pub mod token;
pub mod transaction;

verus! {

} // verus!
