use chrono::{Datelike, TimeZone, Timelike};
use crate::stamp::{Stamp, days_in_month};
use vstd::prelude::*;

verus! {

/// The largest Unix time, in seconds, for which a local stamp is promised: its
/// local year is at most 9900 in every zone.
pub const ORDINARY_SECS_MAX: i64 = 250_000_000_000;

/// The calendar fields of a date and time that exists: the ranges that chrono
/// documents for `Datelike::month`, `day` and `Timelike::hour`, `minute`,
/// `second`, with the day within its month.
pub open spec fn fields_in_range(f: (i32, u32, u32, u32, u32, u32)) -> bool {
    &&& 1 <= f.1 <= 12
    &&& 1 <= f.2 <= days_in_month(f.0 as int, f.1 as int)
    &&& f.3 < 24
    &&& f.4 < 60
    &&& f.5 < 60
}

/// Relies on chrono's `TimeZone::timestamp_opt` on `Local` and
/// `LocalResult::single`: the calendar fields of a Unix time in seconds in the
/// machine's zone. chrono documents a single result for every number of seconds
/// in its range, which holds all of `0..=ORDINARY_SECS_MAX`; local years there
/// lie within a day of the UTC ones, 1970 to 9892.
#[verifier::external_body]
pub(crate) fn local_fields_of(secs: i64) -> (r: Option<(i32, u32, u32, u32, u32, u32)>)
    ensures
        r matches Some(f) ==> fields_in_range(f),
        0 <= secs <= ORDINARY_SECS_MAX ==> r is Some,
        0 <= secs <= ORDINARY_SECS_MAX ==> 1969 <= (r->0).0 <= 9900,
{
    chrono::Local.timestamp_opt(secs, 0).single().map(
        |dt| (dt.year(), dt.month(), dt.day(), dt.hour(), dt.minute(), dt.second()),
    )
}

/// The local stamp of a Unix time in seconds; `None` where the local zone gives
/// no single time or no four-digit year. Every time from 1970 up to
/// `ORDINARY_SECS_MAX` has one.
pub fn local_stamp(secs: i64) -> (r: Option<Stamp>)
    ensures
        r matches Some(s) ==> s.wf(),
        0 <= secs <= ORDINARY_SECS_MAX ==> r is Some,
{
    match local_fields_of(secs) {
        Some(f) => Stamp::from_fields(f.0, f.1, f.2, f.3, f.4, f.5),
        None => None,
    }
}

} // verus!
