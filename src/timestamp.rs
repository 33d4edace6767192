//! Naive (zone-less) date and time of a test's start.
use chrono::{Datelike, Timelike};
use vstd::prelude::*;

verus! {

/// A calendar date and wall-clock time without a time zone, as chrono's
/// `NaiveDateTime` holds it.
#[derive(Clone, Copy, Debug, PartialEq, Eq, Structural)]
pub struct Timestamp {
    pub year: i32,
    pub month: u32,
    pub day: u32,
    pub hour: u32,
    pub minute: u32,
    pub second: u32,
    pub nanosecond: u32,
}

/// The date and time that chrono reads from a text of the form
/// `YYYY-MM-DDTHH:MM:SS[.fraction]`, or `None` where it reads none.
pub uninterp spec fn naive_datetime_of(s: Seq<char>) -> Option<Timestamp>;

/// Relies on chrono's `FromStr` for `NaiveDateTime` (the form that its serde
/// support reads): the outcome depends on the text alone.
#[verifier::external_body]
pub(crate) fn parse_timestamp(s: &str) -> (r: Option<Timestamp>)
    ensures
        r == naive_datetime_of(s@),
{
    s.parse::<chrono::NaiveDateTime>().ok().map(|t| Timestamp {
        year: t.year(),
        month: t.month(),
        day: t.day(),
        hour: t.hour(),
        minute: t.minute(),
        second: t.second(),
        nanosecond: t.nanosecond(),
    })
}

} // verus!
