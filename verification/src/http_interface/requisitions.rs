//! Wire shapes of the requisition endpoints.

use vstd::prelude::*;

verus! {

/// A requisition as the aggregator reports it, with its creation instant as
/// unix seconds and its accounts still bare ids.
#[derive(Debug, Clone, PartialEq, Eq)]
pub struct RequisitionRecord {
    pub id: String,
    pub created: i64,
    pub status: String,
    pub institution_id: String,
    pub agreement: Option<String>,
    pub accounts: Vec<String>,
    pub link: String,
}

/// The body of a requisition-creation request.
#[derive(Debug, Clone, PartialEq, Eq)]
pub struct PostRequestBody {
    pub redirect: String,
    pub institution_id: String,
}

impl PostRequestBody {
    pub fn new(redirect: String, institution_id: String) -> (r: PostRequestBody)
        ensures
            r == (PostRequestBody { redirect, institution_id }),
    {
        PostRequestBody { redirect, institution_id }
    }
}

} // verus!
