//! Wire shapes of the token-refresh endpoint.

use vstd::prelude::*;

verus! {

/// The body of a token-refresh request: the refresh token to present.
#[derive(Debug, Clone, PartialEq, Eq)]
pub struct PostRequestBody {
    pub refresh: String,
}

/// The refreshed access token with its lifetime in seconds.
#[derive(Debug, Clone, PartialEq, Eq)]
pub struct PostResponseBody {
    pub access: String,
    pub access_expires: i64,
}

} // verus!
