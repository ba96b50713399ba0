//! Readings of the system clock and of the monotonic clock.
//!
//! Nothing is promised about a reading; the functions that use one are
//! verified for every value it may have.

use vstd::prelude::*;

verus! {

/// `std::time::Instant`, carried through as an opaque value.
#[verifier::external_type_specification]
#[verifier::external_body]
pub struct ExInstant(std::time::Instant);

/// `std::time::SystemTime`, carried through as an opaque value.
#[verifier::external_type_specification]
#[verifier::external_body]
pub struct ExSystemTime(std::time::SystemTime);

/// The present moment on the system clock, from `std::time::SystemTime::now`.
#[verifier::external_body]
pub(crate) fn system_now() -> (moment: std::time::SystemTime) {
    std::time::SystemTime::now()
}

/// The time from the Unix epoch to `moment`, from
/// `std::time::SystemTime::duration_since` with `std::time::UNIX_EPOCH`. A
/// moment before the epoch, which that function reports as an error, gives
/// `None`.
#[verifier::external_body]
pub(crate) fn since_epoch(moment: &std::time::SystemTime) -> (elapsed: Option<
    std::time::Duration,
>) {
    match moment.duration_since(std::time::UNIX_EPOCH) {
        Ok(elapsed) => Some(elapsed),
        Err(_) => None,
    }
}

/// The whole milliseconds in `elapsed`, from `std::time::Duration::as_millis`.
#[verifier::external_body]
pub(crate) fn whole_millis(elapsed: &std::time::Duration) -> (millis: u128) {
    elapsed.as_millis()
}

/// The timestamp that a reading of the system clock stands for: the
/// milliseconds since the epoch, held at the greatest 64-bit value, and zero
/// for a clock that stands before the epoch.
pub open spec fn timestamp_of(reading: Option<u128>) -> i64 {
    match reading {
        Some(millis) => if millis > i64::MAX {
            i64::MAX
        } else {
            millis as i64
        },
        None => 0,
    }
}

/// Turns a reading of the system clock into a timestamp.
pub(crate) fn timestamp_from(reading: Option<u128>) -> (millis: i64)
    ensures
        millis == timestamp_of(reading),
{
    match reading {
        Some(millis) => if millis > i64::MAX as u128 {
            i64::MAX
        } else {
            millis as i64
        },
        None => 0,
    }
}

/// Milliseconds since the Unix epoch by the system clock; zero where the
/// clock stands before the epoch. The reading is whatever the clock says.
pub(crate) fn now_millis() -> (millis: i64)
    ensures
        millis >= 0,
        exists|reading: Option<u128>| millis == #[trigger] timestamp_of(reading),
{
    let moment = system_now();
    let reading = match since_epoch(&moment) {
        Some(elapsed) => Some(whole_millis(&elapsed)),
        None => None,
    };
    timestamp_from(reading)
}

/// The present moment on the monotonic clock, from `std::time::Instant::now`.
#[verifier::external_body]
pub(crate) fn monotonic_now() -> (instant: std::time::Instant) {
    std::time::Instant::now()
}

/// The time that has passed since `start`, from `std::time::Instant::elapsed`.
#[verifier::external_body]
pub(crate) fn elapsed_since(start: &std::time::Instant) -> (elapsed: std::time::Duration) {
    start.elapsed()
}

/// The whole nanoseconds in `elapsed`, from `std::time::Duration::as_nanos`.
#[verifier::external_body]
pub(crate) fn whole_nanos(elapsed: &std::time::Duration) -> (nanos: u128) {
    elapsed.as_nanos()
}

/// The number of whole seconds that a duration contains.
pub uninterp spec fn duration_secs(elapsed: std::time::Duration) -> u64;

/// The whole seconds in `elapsed`, from `std::time::Duration::as_secs`,
/// which returns the number of whole seconds the duration contains. The
/// contract only gives the result its name.
#[verifier::external_body]
pub(crate) fn whole_secs(elapsed: &std::time::Duration) -> (secs: u64)
    ensures
        secs == duration_secs(*elapsed),
{
    elapsed.as_secs()
}

} // verus!
