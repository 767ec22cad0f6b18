//! Reading the wall clock.

use std::time::{Duration, SystemTime, SystemTimeError, UNIX_EPOCH};
use vstd::prelude::*;

verus! {

/// `std::time::SystemTime`, a reading of the system clock.
#[verifier::external_type_specification]
#[verifier::external_body]
pub struct ExSystemTime(SystemTime);

/// `std::time::SystemTimeError`, returned when a reading lies before the
/// instant it is measured against.
#[verifier::external_type_specification]
#[verifier::external_body]
pub struct ExSystemTimeError(SystemTimeError);

/// `SystemTime::now`. The reading is whatever the machine's clock says, so
/// nothing is claimed of it.
#[verifier::external_body]
fn system_now() -> SystemTime {
    SystemTime::now()
}

/// `SystemTime::duration_since`, measured against `UNIX_EPOCH`. Whether the
/// reading lies before the epoch depends on the clock, so nothing is claimed
/// of the result.
#[verifier::external_body]
fn since_unix_epoch(reading: &SystemTime) -> Result<Duration, SystemTimeError> {
    reading.duration_since(UNIX_EPOCH)
}

/// `Duration::as_secs`: the whole seconds of a duration. Nothing is claimed of
/// the number.
#[verifier::external_body]
fn whole_seconds(elapsed: &Duration) -> u64 {
    elapsed.as_secs()
}

/// Seconds since the Unix epoch by the system clock, and 0 when the clock
/// stands before the epoch.
pub(crate) fn unix_seconds() -> u64 {
    let reading = system_now();
    let elapsed = match since_unix_epoch(&reading) {
        Ok(elapsed) => Some(whole_seconds(&elapsed)),
        Err(_) => None,
    };
    timestamp_of(elapsed)
}

/// The timestamp that stands for a measurement of the time since the Unix
/// epoch: the whole seconds that were measured, and 0 where the clock stood
/// before the epoch, so that there is nothing to measure.
pub fn timestamp_of(elapsed: Option<u64>) -> (timestamp: u64)
    ensures
        timestamp == match elapsed {
            Some(seconds) => seconds,
            None => 0,
        },
{
    match elapsed {
        Some(seconds) => seconds,
        None => 0,
    }
}

} // verus!
