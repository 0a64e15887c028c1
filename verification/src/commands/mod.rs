//! Logic behind the application's commands: the capture pipeline's
//! decisions, device selection, speaker lookups and health probing.

pub mod devices;
pub mod health;
pub mod pipeline;
pub mod speakers;

use vstd::prelude::*;

use std::time::{Duration, SystemTime, SystemTimeError};

verus! {

#[verifier::external_type_specification]
#[verifier::external_body]
pub struct ExSystemTime(SystemTime);

#[verifier::external_type_specification]
#[verifier::external_body]
pub struct ExSystemTimeError(SystemTimeError);

/// Reads the system clock (`std::time::SystemTime::now`). Nothing is stated
/// of the time returned.
#[verifier::external_body]
fn system_time_now() -> SystemTime {
    SystemTime::now()
}

/// The time elapsed from the Unix epoch to `t`
/// (`SystemTime::duration_since(UNIX_EPOCH)`); an error when `t` lies
/// before the epoch. Nothing is stated of the duration.
#[verifier::external_body]
fn since_unix_epoch(t: &SystemTime) -> Result<Duration, SystemTimeError> {
    t.duration_since(std::time::UNIX_EPOCH)
}

/// Whole milliseconds in `d` (`Duration::as_millis`). Durations are opaque
/// here, so nothing is stated of the value.
#[verifier::external_body]
fn duration_as_millis(d: &Duration) -> u128 {
    d.as_millis()
}

/// Current time as milliseconds since the Unix epoch, truncated to 64 bits.
/// A clock set before the epoch (which no supported platform has) reads as 0.
pub fn unix_ms() -> i64 {
    let now = system_time_now();
    match since_unix_epoch(&now) {
        Ok(d) => {
            let ms = duration_as_millis(&d);
            ms as i64
        },
        Err(_) => 0,
    }
}

} // verus!
