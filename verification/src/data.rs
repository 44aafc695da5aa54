//! The greeter's per-target visit counter.
//!
//! The stored record is a name and how often it has been greeted; the update
//! rule is: a missing record counts as zero, and a visit adds one.

use vstd::prelude::*;

verus! {

/// One counter record: a target name and its visit count.
#[derive(Debug, Clone, PartialEq, Eq)]
pub struct Count {
    pub target: String,
    pub count: u64,
}

impl Count {
    /// The record to store after one more visit to `target`: the previous
    /// count (zero when no record existed) plus one.
    pub fn incremented(target: String, previous: Option<&Count>) -> (r: Count)
        requires
            previous matches Some(c) ==> c.count < u64::MAX,
        ensures
            r.target == target,
            r.count == match previous {
                Option::Some(c) => c.count + 1,
                Option::None => 1int,
            },
    {
        let count = match previous {
            Some(c) => c.count + 1,
            None => 1,
        };
        Count { target, count }
    }
}

} // verus!
