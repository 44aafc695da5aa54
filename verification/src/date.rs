//! Calendar dates as day numbers.
//!
//! The matcher never looks inside a date: it only measures the signed
//! distance, in whole calendar days, between two of them. A date is therefore
//! carried as a day number in a fixed proleptic calendar (any epoch works, as
//! long as all dates of one run share it). Callers that hold a year-month-day
//! date convert it to its day number at the boundary.

use vstd::prelude::*;

verus! {

/// A calendar date, as a day number in a fixed proleptic calendar.
#[derive(Debug, Clone, Copy, PartialEq, Eq, Structural)]
pub struct Date {
    pub day_number: i32,
}

impl Date {
    pub fn new(day_number: i32) -> (r: Date)
        ensures
            r.day_number == day_number,
    {
        Date { day_number }
    }

    /// The signed difference `self - other` in whole days.
    pub fn days_since(&self, other: &Date) -> (d: i64)
        ensures
            d == self.day_number - other.day_number,
    {
        (self.day_number as i64) - (other.day_number as i64)
    }
}

} // verus!
