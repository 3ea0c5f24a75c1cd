//! Calendar dates.

use vstd::prelude::*;

verus! {

/// A calendar date: a year, a month and a day of the month.
///
/// Dates are ordered by year, then by month, then by day.
#[derive(Clone, Copy, Debug, PartialEq, Eq, Structural, Hash)]
pub struct Date {
    /// the year
    pub year: i32,
    /// the month of the year, counted from 1
    pub month: u8,
    /// the day of the month, counted from 1
    pub day: u8,
}

impl Date {
    /// Whether this date comes strictly later than `other`.
    pub open spec fn after(self, other: Date) -> bool {
        ||| self.year > other.year
        ||| self.year == other.year && self.month > other.month
        ||| self.year == other.year && self.month == other.month && self.day > other.day
    }

    /// Whether this date is `other` or comes before it.
    pub open spec fn not_after(self, other: Date) -> bool {
        !self.after(other)
    }

    /// The date of the given year, month and day.
    pub fn new(year: i32, month: u8, day: u8) -> (date: Date)
        ensures
            date == (Date { year, month, day }),
    {
        Date { year, month, day }
    }

    /// Whether this date comes strictly later than `other`.
    pub fn is_after(&self, other: &Date) -> (later: bool)
        ensures
            later == self.after(*other),
    {
        if self.year != other.year {
            self.year > other.year
        } else if self.month != other.month {
            self.month > other.month
        } else {
            self.day > other.day
        }
    }
}

} // verus!
