//! Wire shapes of the token-creation endpoint.

use vstd::prelude::*;

use crate::client_credentials::ClientCredentials;

verus! {

/// The body of a token-creation request: the client's secret pair.
#[derive(Debug, Clone, PartialEq, Eq)]
pub struct PostRequestBody {
    pub secret_id: String,
    pub secret_key: String,
}

impl PostRequestBody {
    /// The request body that presents the given credentials.
    pub fn of_credentials(credentials: &ClientCredentials) -> (r: PostRequestBody)
        ensures
            r.secret_id == credentials.id,
            r.secret_key == credentials.secret,
    {
        PostRequestBody {
            secret_id: credentials.id.clone(),
            secret_key: credentials.secret.clone(),
        }
    }
}

/// The granted token pair, each with its lifetime in seconds.
#[derive(Debug, Clone, PartialEq, Eq)]
pub struct PostResponseBody {
    pub access: String,
    pub access_expires: i64,
    pub refresh: String,
    pub refresh_expires: i64,
}

} // verus!
