//! A single record of a value at a point in time.
use vstd::prelude::*;
use crate::io::datum::Datum;

verus! {

/// A single record of a value at a specific point in time.
///
/// `timestamp` counts microseconds since the Unix epoch, in UTC.
#[derive(Debug, Clone, Copy)]
pub struct IOEvent {
    pub timestamp: i64,
    pub value: Datum,
}

/// The latest time chrono represents, 31 December 262142 23:59:59.999999
/// UTC, in microseconds since the Unix epoch.
pub const CLOCK_MAX_MICROS: i64 = 8_210_266_876_799_999_999;

/// The current UTC time in microseconds since the Unix epoch, as read from
/// `chrono::Utc::now`.
///
/// `Utc::now` measures the system time as a duration since the epoch and
/// builds a date that chrono represents, so the value lies between 0 and
/// [`CLOCK_MAX_MICROS`]; which time it is, is not promised. It
/// panics when the machine's clock reads a time before 1970 or beyond what
/// chrono represents; that is the machine's state, not an input, so no
/// precondition excludes it, and every function that reads the clock
/// through this one shares that panic.
#[verifier::external_body]
pub(crate) fn utc_now_micros() -> (t: i64)
    ensures
        0 <= t <= CLOCK_MAX_MICROS,
{
    chrono::Utc::now().timestamp_micros()
}

impl IOEvent {
    /// An event with the given timestamp and value.
    pub fn with_timestamp(timestamp: i64, value: Datum) -> (e: IOEvent)
        ensures
            e.timestamp == timestamp,
            e.value == value,
    {
        IOEvent { timestamp, value }
    }

    /// An event stamped with the current time.
    pub fn new(value: Datum) -> (e: IOEvent)
        ensures
            e.value == value,
            0 <= e.timestamp <= CLOCK_MAX_MICROS,
    {
        let timestamp = utc_now_micros();
        IOEvent::with_timestamp(timestamp, value)
    }
}

} // verus!
