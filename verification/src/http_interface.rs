//! The aggregator's wire shapes, modeled with plain values.
//!
//! The HTTP calls themselves live outside the library; what stands here is
//! the data they carry, with dates as day numbers, instants as unix seconds,
//! and amounts as exact decimals, so that the logic over them can be
//! verified. The caller converts at the boundary.

use vstd::prelude::*;

pub mod accounts;
pub mod agreements;
pub mod institutions;
pub mod requisitions;
pub mod token_new;
pub mod token_refresh;

verus! {

/// One page of a paginated listing.
#[derive(Debug, Clone, PartialEq, Eq)]
pub struct PaginatedResult<E> {
    pub count: i64,
    pub next: Option<String>,
    pub previous: Option<String>,
    pub results: Vec<E>,
}

} // verus!
