//! The wall clock, read through `chrono`.

use vstd::prelude::*;

verus! {

/// The day of the Unix epoch, counted from the first day of the year 1.
pub open spec fn unix_epoch_day() -> int {
    719_163
}

/// A lower bound of every time that the clock reports, in seconds since the
/// Unix epoch: what the least day number of 32 bits gives, at midnight.
pub open spec fn timestamp_lower_bound() -> int {
    (i32::MIN - unix_epoch_day()) * 86_400
}

/// An upper bound of every time that the clock reports, in seconds since the
/// Unix epoch: what the greatest day number of 32 bits gives, with the
/// greatest count of seconds of 32 bits.
pub open spec fn timestamp_upper_bound() -> int {
    (i32::MAX - unix_epoch_day()) * 86_400 + u32::MAX
}

/// `chrono::DateTime::<Utc>::from` on the reading of `SystemTime::now`, then
/// `timestamp`: the seconds since the Unix epoch at the moment of the call,
/// before 1970 as a negative number. Claimed of the value, whatever the clock
/// says: it lies between two bounds that follow from the types in what
/// `timestamp` computes, which is the day of the date as an `i32`, less the
/// day of the epoch, times the seconds of a day, plus the seconds since
/// midnight as a `u32`. The times that `chrono` can hold are far fewer: the
/// conversion does not return for a clock that reads a year beyond some 262
/// thousand, before or after the epoch.
#[verifier::external_body]
pub(crate) fn utc_now_seconds() -> (seconds: i64)
    ensures
        timestamp_lower_bound() <= seconds <= timestamp_upper_bound(),
{
    chrono::DateTime::<chrono::Utc>::from(std::time::SystemTime::now()).timestamp()
}

} // verus!
