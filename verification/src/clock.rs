//! A monotonic clock that reads in whole nanoseconds since it was started.

use std::time::Duration;
use std::time::Instant;
use std::time::SystemTime;
use std::time::UNIX_EPOCH;
use vstd::prelude::*;

verus! {

/// An instant of the monotonic clock, opaque to the verifier.
#[verifier::external_type_specification]
#[verifier::external_body]
pub struct ExInstant(std::time::Instant);

/// The largest reading a clock can give: the nanoseconds of the longest
/// `Duration`, which is `u64::MAX` seconds and 999,999,999 nanoseconds.
pub const MAX_READING: u128 = 18_446_744_073_709_551_615_999_999_999;

/// `std::time::Instant::now` gives the current instant of the monotonic
/// clock. Nothing is claimed of the instant.
pub assume_specification[ Instant::now ]() -> Instant;

/// `std::time::Instant::elapsed` gives the time that has passed since the
/// instant was taken. Nothing is claimed of the duration.
pub assume_specification[ Instant::elapsed ](origin: &Instant) -> Duration;

/// `std::time::Duration::as_nanos` gives the duration in whole nanoseconds.
/// A duration holds at most `u64::MAX` seconds and a fraction below one
/// second, which bounds the result.
pub assume_specification[ Duration::as_nanos ](d: &Duration) -> (nanos: u128)
    ensures
        nanos <= MAX_READING,
;

/// A time of the system clock, opaque to the verifier.
#[verifier::external_type_specification]
#[verifier::external_body]
pub struct ExSystemTime(std::time::SystemTime);

/// `std::time::SystemTime::now` gives the current time of the system clock.
/// Nothing is claimed of it.
pub assume_specification[ SystemTime::now ]() -> SystemTime;

/// `std::time::SystemTime::duration_since` with `UNIX_EPOCH` gives the time
/// that has passed since the epoch, and an error where the time lies before
/// it. Nothing is claimed of the duration.
#[verifier::external_body]
fn since_epoch(time: &SystemTime) -> (passed: Option<Duration>) {
    time.duration_since(UNIX_EPOCH).ok()
}

/// `std::time::Duration::as_millis` gives the duration in whole
/// milliseconds. Nothing is claimed of the number.
pub assume_specification[ Duration::as_millis ](d: &Duration) -> (millis: u128);

/// The timestamp for the milliseconds that have passed since the epoch, if
/// the clock gave any: the number itself where it fits.
pub open spec fn timestamp_of(passed: Option<u128>) -> Option<i64> {
    match passed {
        Some(millis) => if millis <= i64::MAX {
            Some(millis as i64)
        } else {
            None
        },
        None => None,
    }
}

/// The timestamp for the milliseconds that have passed since the epoch.
pub fn timestamp_from(passed: Option<u128>) -> (millis: Option<i64>)
    ensures
        millis == timestamp_of(passed),
{
    match passed {
        Some(millis) => if millis <= i64::MAX as u128 {
            Some(millis as i64)
        } else {
            None
        },
        None => None,
    }
}

/// Milliseconds since the Unix epoch by the system clock, where the clock
/// stands at or after the epoch and the number fits.
pub fn epoch_millis() -> (millis: Option<i64>)
    ensures
        millis matches Some(ms) ==> ms >= 0,
{
    let passed = match since_epoch(&SystemTime::now()) {
        Some(passed) => Some(passed.as_millis()),
        None => None,
    };
    timestamp_from(passed)
}

/// A monotonic clock. Its readings count from the moment it was started.
pub struct Clock {
    origin: Instant,
}

impl Clock {
    /// Starts a clock at the current instant.
    pub fn start() -> Clock {
        Clock { origin: Instant::now() }
    }

    /// Nanoseconds since the clock was started.
    pub fn now(&self) -> (nanos: u128)
        ensures
            nanos <= MAX_READING,
    {
        self.origin.elapsed().as_nanos()
    }
}

} // verus!
