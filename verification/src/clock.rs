//! The system clock, read as whole seconds since the Unix epoch.
//!
//! The three functions that touch `std::time` are trusted: nothing is
//! proved of them, and nothing is claimed of what they return.

use vstd::prelude::*;
use std::time::{Duration, SystemTime, SystemTimeError, UNIX_EPOCH};

verus! {

/// Declares `std::time::SystemTime`, an instant of the system clock. It
/// is opaque here: it is only handed from one trusted function to the
/// next.
#[verifier::external_type_specification]
#[verifier::external_body]
pub struct ExSystemTime(std::time::SystemTime);

/// Declares `std::time::SystemTimeError`, the error of a clock that
/// stands before the instant it is compared with. It is opaque here.
#[verifier::external_type_specification]
#[verifier::external_body]
pub struct ExSystemTimeError(std::time::SystemTimeError);

/// Calls `std::time::SystemTime::now`. The reading differs from call to
/// call, so no claim is made of it.
#[verifier::external_body]
fn system_now() -> (now: SystemTime) {
    SystemTime::now()
}

/// Calls `std::time::SystemTime::duration_since` with the Unix epoch as
/// the earlier instant. It fails when the clock stands before the epoch;
/// no claim is made of either result.
#[verifier::external_body]
fn since_unix_epoch(now: &SystemTime) -> (elapsed: Result<Duration, SystemTimeError>) {
    now.duration_since(UNIX_EPOCH)
}

/// Calls `std::time::Duration::as_secs`, the whole seconds of a span of
/// time. The span is opaque here, so no claim is made of the number.
#[verifier::external_body]
fn whole_seconds(elapsed: &Duration) -> (seconds: u64) {
    elapsed.as_secs()
}

/// Reads the clock: the whole seconds since the Unix epoch, or an error
/// when the clock stands before the epoch. Two readings may differ, so
/// callers must be ready for any number and for the error.
pub(crate) fn unix_seconds() -> (seconds: Result<u64, ()>) {
    let now = system_now();
    match since_unix_epoch(&now) {
        Ok(elapsed) => Ok(whole_seconds(&elapsed)),
        Err(_) => Err(()),
    }
}

} // verus!
