//! The wall clock, read as nanoseconds since the Unix epoch.

use std::time::{Duration, SystemTime, SystemTimeError};
use vstd::prelude::*;

verus! {

/// `std::time::SystemTime`, a point in time on the system clock. Verus sees
/// nothing inside such a value.
#[verifier::external_type_specification]
#[verifier::external_body]
pub struct ExSystemTime(std::time::SystemTime);

/// `std::time::SystemTimeError`, which says that one point in time lies
/// before another. Verus sees nothing inside such a value.
#[verifier::external_type_specification]
#[verifier::external_body]
pub struct ExSystemTimeError(std::time::SystemTimeError);

/// Why the clock gave no usable time.
#[derive(Clone, Copy, Debug, PartialEq, Eq, Structural)]
pub enum ClockError {
    /// The system clock stands before the Unix epoch.
    BeforeEpoch,
    /// The clock reads an earlier time than the one noted before.
    WentBackwards,
}

/// Reads the system clock with `SystemTime::now`. Nothing is claimed of the
/// time that comes back.
#[verifier::external_body]
fn read_clock() -> (time: SystemTime) {
    SystemTime::now()
}

/// The span from the Unix epoch to `time`, by `SystemTime::duration_since`
/// with `std::time::UNIX_EPOCH` as the earlier time. Nothing is claimed of
/// the result: not when it is an error, nor how long the span is.
#[verifier::external_body]
fn since_epoch(time: &SystemTime) -> (span: Result<Duration, SystemTimeError>) {
    time.duration_since(std::time::UNIX_EPOCH)
}

/// The nanoseconds in `span`, by `Duration::as_nanos`. Nothing is claimed of
/// the number.
#[verifier::external_body]
fn whole_nanos(span: &Duration) -> (nanos: u128) {
    span.as_nanos()
}

/// The time now, in nanoseconds since the Unix epoch.
///
/// The time is whatever the system clock says, so the contract leaves it
/// open. The one error is a clock that stands before the epoch.
pub fn now_nanos() -> (now: Result<u128, ClockError>)
    ensures
        now is Err ==> now == Err::<u128, ClockError>(ClockError::BeforeEpoch),
{
    let time: SystemTime = read_clock();
    match since_epoch(&time) {
        Ok(span) => Ok(whole_nanos(&span)),
        Err(_) => Err(ClockError::BeforeEpoch),
    }
}

} // verus!
