//! Aggregator client credentials.

use vstd::prelude::*;

verus! {

/// The secret pair that identifies this client to the aggregator.
#[derive(Debug, Clone, PartialEq, Eq)]
pub struct ClientCredentials {
    pub id: String,
    pub secret: String,
}

impl ClientCredentials {
    pub fn new(id: String, secret: String) -> (r: ClientCredentials)
        ensures
            r.id == id,
            r.secret == secret,
    {
        ClientCredentials { id, secret }
    }
}

} // verus!
