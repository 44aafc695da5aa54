//! Requisition lifecycle states, as two-letter codes on the wire.

use vstd::prelude::*;

verus! {

/// Where a requisition stands in the aggregator's consent flow.
#[derive(Debug, Clone, Copy, PartialEq, Eq, Structural)]
pub enum RequisitionStatus {
    Created,
    GivingConsent,
    UndergoingAuthentication,
    Rejected,
    SelectingAccounts,
    GrantingAccess,
    Linked,
    Suspended,
    Expired,
}

impl RequisitionStatus {
    /// The state a two-letter wire code names; `None` on an unknown code.
    pub fn from_code(code: &str) -> (r: Option<RequisitionStatus>)
        ensures
            match r {
                Option::Some(RequisitionStatus::Created) => code@ == "CR"@,
                Option::Some(RequisitionStatus::GivingConsent) => code@ == "GC"@,
                Option::Some(RequisitionStatus::UndergoingAuthentication) => code@ == "UA"@,
                Option::Some(RequisitionStatus::Rejected) => code@ == "RJ"@,
                Option::Some(RequisitionStatus::SelectingAccounts) => code@ == "SA"@,
                Option::Some(RequisitionStatus::GrantingAccess) => code@ == "GA"@,
                Option::Some(RequisitionStatus::Linked) => code@ == "LN"@,
                Option::Some(RequisitionStatus::Suspended) => code@ == "SU"@,
                Option::Some(RequisitionStatus::Expired) => code@ == "EX"@,
                Option::None => {
                    &&& code@ != "CR"@
                    &&& code@ != "GC"@
                    &&& code@ != "UA"@
                    &&& code@ != "RJ"@
                    &&& code@ != "SA"@
                    &&& code@ != "GA"@
                    &&& code@ != "LN"@
                    &&& code@ != "SU"@
                    &&& code@ != "EX"@
                },
            },
    {
        let owned: String = code.to_owned();
        if owned == "CR".to_owned() {
            Some(RequisitionStatus::Created)
        } else if owned == "GC".to_owned() {
            Some(RequisitionStatus::GivingConsent)
        } else if owned == "UA".to_owned() {
            Some(RequisitionStatus::UndergoingAuthentication)
        } else if owned == "RJ".to_owned() {
            Some(RequisitionStatus::Rejected)
        } else if owned == "SA".to_owned() {
            Some(RequisitionStatus::SelectingAccounts)
        } else if owned == "GA".to_owned() {
            Some(RequisitionStatus::GrantingAccess)
        } else if owned == "LN".to_owned() {
            Some(RequisitionStatus::Linked)
        } else if owned == "SU".to_owned() {
            Some(RequisitionStatus::Suspended)
        } else if owned == "EX".to_owned() {
            Some(RequisitionStatus::Expired)
        } else {
            None
        }
    }
}

} // verus!
