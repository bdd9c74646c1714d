use vstd::prelude::*;

use chrono::Datelike;

verus! {

/// A calendar date as plain year, month and day values.
#[derive(Clone, Copy, PartialEq, Eq, Structural, Debug)]
pub struct Date {
    pub year: i32,
    pub month: u8,
    pub day: u8,
}

impl Date {
    /// `self` comes strictly before `other` in calendar order.
    pub open spec fn spec_before(self, other: Date) -> bool {
        self.year < other.year
            || (self.year == other.year && self.month < other.month)
            || (self.year == other.year && self.month == other.month && self.day < other.day)
    }

    /// `self` comes strictly after `other` in calendar order.
    pub fn is_after(&self, other: &Date) -> (r: bool)
        ensures
            r == other.spec_before(*self),
    {
        other.year < self.year
            || (other.year == self.year && other.month < self.month)
            || (other.year == self.year && other.month == self.month && other.day < self.day)
    }
}

/// The current date in the machine's local time zone.
///
/// Relies on chrono's `Local::now` and `DateTime::date_naive`, with `Datelike`
/// field accessors: `month` is documented to range from 1 to 12 and `day` from
/// 1 to 31. Which date comes back depends on the clock, so nothing more is
/// stated.
#[verifier::external_body]
pub(crate) fn today() -> (r: Date)
    ensures
        1 <= r.month <= 12,
        1 <= r.day <= 31,
{
    let now = chrono::Local::now().date_naive();
    Date { year: now.year(), month: now.month() as u8, day: now.day() as u8 }
}

} // verus!
