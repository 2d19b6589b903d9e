//! The wall clock. Nothing is known of what it reads but the range of the
//! numbers; every function that depends on the time has a twin that takes the
//! time as an argument. (`chrono` gives up on a system clock that stands
//! before 1970.)

use vstd::prelude::*;

verus! {

/// No Unix time that `chrono` can hold is this far from the epoch in seconds.
pub const CLOCK_BOUND_SECONDS: i64 = 0x1_0000_0000_0000;

/// No Unix time that `chrono` can hold is this far from the epoch in
/// milliseconds.
pub const CLOCK_BOUND_MILLIS: i64 = 0x400_0000_0000_0000;

/// Calls `chrono::Utc::now` and `DateTime::timestamp`: the current time in
/// seconds since the Unix epoch.
///
/// Assumed of it: the range only. `timestamp` multiplies a day count that is
/// an `i32` by 86 400 and adds the second of the day, so the result stays
/// below 2^48 in size.
#[verifier::external_body]
pub(crate) fn unix_seconds() -> (now: i64)
    ensures
        -CLOCK_BOUND_SECONDS < now < CLOCK_BOUND_SECONDS,
{
    chrono::Utc::now().timestamp()
}

/// Calls `chrono::Utc::now` and `DateTime::timestamp_millis`: the current time
/// in milliseconds since the Unix epoch.
///
/// Assumed of it: the range only, a thousand times that of the seconds and
/// so below 2^58 in size.
#[verifier::external_body]
pub(crate) fn unix_millis() -> (now: i64)
    ensures
        -CLOCK_BOUND_MILLIS < now < CLOCK_BOUND_MILLIS,
{
    chrono::Utc::now().timestamp_millis()
}

/// Calls `chrono::Utc::now` and `DateTime::to_rfc3339_opts`: the current time
/// as text, in UTC with microseconds and a `Z` at the end. Nothing is assumed
/// of the text.
#[verifier::external_body]
pub(crate) fn rfc3339_now() -> (text: String) {
    chrono::Utc::now().to_rfc3339_opts(chrono::SecondsFormat::Micros, true)
}

} // verus!
