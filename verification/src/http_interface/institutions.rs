//! Wire shape of the institution listing.

use vstd::prelude::*;

verus! {

/// One institution as the listing endpoint reports it.
#[derive(Debug, Clone, PartialEq, Eq)]
pub struct InstitutionEntry {
    pub id: String,
    pub name: String,
    pub bic: Option<String>,
    pub transaction_total_days: Option<String>,
    pub countries: Vec<String>,
    pub logo: String,
}

} // verus!
