//! Calendar time (UTC), for token expiry and message timestamps.

use vstd::prelude::*;

verus! {

/// A UTC calendar time, held as chrono's `DateTime<Utc>` in a private field that only
/// the wrappers below read.
#[verifier::external_body]
pub struct CalendarTime {
    t: chrono::DateTime<chrono::Utc>,
}

/// `chrono::Utc::now`: the current calendar time. Nothing is claimed of it: it is the time.
#[verifier::external_body]
fn utc_now() -> CalendarTime {
    CalendarTime { t: chrono::Utc::now() }
}

/// Days on either side of the Unix epoch within which every calendar time lies: chrono
/// keeps dates between the years -262143 and 262142, less than 97 million days from it.
pub const CALENDAR_DAYS_BOUND: i64 = 97_000_000;

/// Whether `s` can be a calendar time in whole seconds since the Unix epoch: within
/// `CALENDAR_DAYS_BOUND` days of it.
pub open spec fn is_calendar_seconds(s: i64) -> bool {
    -CALENDAR_DAYS_BOUND * 86_400 <= s <= CALENDAR_DAYS_BOUND * 86_400
}

/// `chrono::DateTime::timestamp`: whole seconds since the Unix epoch. The claim, from the
/// crate's source: the value is the day number counted from the epoch times 86 400 plus
/// the seconds since midnight, for a date between the years -262143 and 262142, so it
/// lies within `CALENDAR_DAYS_BOUND` days of the epoch. Which second it is is not
/// claimed: it is the time.
#[verifier::external_body]
fn unix_seconds(t: &CalendarTime) -> (r: i64)
    ensures
        is_calendar_seconds(r),
{
    t.t.timestamp()
}

/// `chrono::DateTime::timestamp_millis`: milliseconds since the Unix epoch. Nothing is
/// claimed beyond its type: the value is opaque here.
#[verifier::external_body]
fn unix_millis(t: &CalendarTime) -> i64 {
    t.t.timestamp_millis()
}

/// The current calendar time in whole seconds since the Unix epoch.
pub fn unix_now_secs() -> (r: i64)
    ensures
        is_calendar_seconds(r),
{
    let now = utc_now();
    unix_seconds(&now)
}

/// The current calendar time in milliseconds since the Unix epoch.
pub fn unix_now_millis() -> i64 {
    let now = utc_now();
    unix_millis(&now)
}

} // verus!
