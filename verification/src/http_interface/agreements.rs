//! Wire shapes of the end-user-agreement endpoints.

use vstd::prelude::*;

verus! {

/// An end-user agreement, with instants as unix seconds.
#[derive(Debug, Clone, PartialEq, Eq)]
pub struct EndUserAgreement {
    pub id: String,
    pub created: i64,
    pub institution_id: String,
    pub max_historical_days: u64,
    pub access_valid_for_days: u64,
    pub access_scope: Vec<String>,
    pub accepted: Option<i64>,
}

/// The body of an agreement-creation request. Both day spans must be
/// positive, as the wire format demands.
#[derive(Debug, Clone, PartialEq, Eq)]
pub struct PostRequestBody {
    pub institution_id: String,
    pub max_historical_days: u64,
    pub access_valid_for_days: u64,
}

impl PostRequestBody {
    pub open spec fn wf(self) -> bool {
        &&& self.max_historical_days > 0
        &&& self.access_valid_for_days > 0
    }

    pub fn new(institution_id: String, max_historical_days: u64, access_valid_for_days: u64) -> (r:
        PostRequestBody)
        requires
            max_historical_days > 0,
            access_valid_for_days > 0,
        ensures
            r == (PostRequestBody { institution_id, max_historical_days, access_valid_for_days }),
            r.wf(),
    {
        PostRequestBody { institution_id, max_historical_days, access_valid_for_days }
    }
}

} // verus!
