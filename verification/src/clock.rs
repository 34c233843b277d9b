//! The wall clock.
use chrono::Utc;
use vstd::prelude::*;

verus! {

/// Reads the wall clock: `chrono::Utc::now()`, and of that moment
/// `DateTime::timestamp_nanos_opt()`, the nanoseconds since the Unix epoch, which
/// is `None` for a date whose count does not fit 64 bits.
///
/// Nothing is claimed of the reading: it is the time of the call. `Utc::now()`
/// panics where the system clock stands before the epoch.
#[verifier::external_body]
pub(crate) fn utc_now_nanos() -> (reading: Option<i64>) {
    Utc::now().timestamp_nanos_opt()
}

/// The timestamp for a reading of the clock: the reading itself, and the latest
/// timestamp there is for a date past it.
pub open spec fn spec_nanos_or_latest(reading: Option<i64>) -> i64 {
    match reading {
        Some(nanos) => nanos,
        None => i64::MAX,
    }
}

/// Turns a reading of the clock into a timestamp.
#[verifier::when_used_as_spec(spec_nanos_or_latest)]
pub fn nanos_or_latest(reading: Option<i64>) -> (nanos: i64)
    ensures
        nanos == spec_nanos_or_latest(reading),
{
    match reading {
        Some(nanos) => nanos,
        None => i64::MAX,
    }
}

/// The wall-clock time in nanoseconds since the Unix epoch.
pub fn current_timestamp() -> (nanos: i64) {
    nanos_or_latest(utc_now_nanos())
}

} // verus!
