//! Reading the wall clock. What the clock says depends on the moment of the
//! call, so nothing is promised of the readings: the functions that use them
//! take them as arguments and are verified for every value.
use std::time::Duration;
use std::time::SystemTime;
use std::time::SystemTimeError;
use vstd::prelude::*;

verus! {

#[verifier::external_type_specification]
#[verifier::external_body]
pub struct ExSystemTime(SystemTime);

#[verifier::external_type_specification]
#[verifier::external_body]
pub struct ExSystemTimeError(SystemTimeError);

/// `SystemTime::now`: the current wall-clock time. Nothing is stated of it.
#[verifier::external_body]
fn system_time_now() -> SystemTime {
    SystemTime::now()
}

/// `SystemTime::duration_since` the Unix epoch: an error where the clock
/// stands before the epoch. Nothing is stated of the duration.
#[verifier::external_body]
fn duration_since_unix_epoch(t: &SystemTime) -> Result<Duration, SystemTimeError> {
    t.duration_since(std::time::UNIX_EPOCH)
}

/// `Duration::as_secs`: the whole seconds of a duration. A duration is
/// opaque here, so nothing is stated of the number.
#[verifier::external_body]
fn duration_as_secs(d: &Duration) -> u64 {
    d.as_secs()
}

/// `Duration::as_nanos`: the whole nanoseconds of a duration. A duration
/// holds whole seconds as a `u64` and fewer than 10^9 further nanoseconds,
/// so its total is below 2^64 seconds' worth of nanoseconds; nothing more is
/// stated, since a duration is opaque here.
#[verifier::external_body]
fn duration_as_nanos(d: &Duration) -> (n: u128)
    ensures
        n < nanos_limit(),
{
    d.as_nanos()
}

/// Seconds since the Unix epoch, or 0 where the clock stands before it.
pub fn current_tick() -> u64 {
    let now = system_time_now();
    match duration_since_unix_epoch(&now) {
        Ok(d) => duration_as_secs(&d),
        Err(_) => 0,
    }
}

/// The nanoseconds in 2^64 seconds: every duration is shorter.
pub open spec fn nanos_limit() -> int {
    18_446_744_073_709_551_616_000_000_000
}

/// Nanoseconds since the Unix epoch, or 0 where the clock stands before it.
/// The reading is shorter than 2^64 seconds, so its whole seconds fit a
/// `u64`.
pub fn current_time_nanos() -> (n: u128)
    ensures
        n < nanos_limit(),
{
    let now = system_time_now();
    match duration_since_unix_epoch(&now) {
        Ok(d) => duration_as_nanos(&d),
        Err(_) => 0,
    }
}

} // verus!
