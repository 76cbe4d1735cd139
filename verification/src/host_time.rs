//! The time sources of the host, as this crate sees them.
//!
//! Everything here is trusted: the types are opaque to the verifier, and of the
//! functions it knows only what their contracts say. A reading depends on the
//! moment of the call, so no contract here says what a reading is.

use vstd::prelude::*;

verus! {

/// `std::time::Instant`, a point on the monotonic clock of the host.
#[verifier::external_type_specification]
#[verifier::external_body]
pub struct ExInstant(std::time::Instant);

/// `std::time::SystemTime`, a point on the wall clock of the host.
#[verifier::external_type_specification]
#[verifier::external_body]
pub struct ExSystemTime(std::time::SystemTime);

/// `std::time::SystemTimeError`, the failure of a difference of two points on
/// the wall clock.
#[verifier::external_type_specification]
#[verifier::external_body]
pub struct ExSystemTimeError(std::time::SystemTimeError);

/// `std::io::Error`, the failure of a call into the operating system.
#[verifier::external_type_specification]
#[verifier::external_body]
pub struct ExIoError(std::io::Error);

/// `cpu_time::ProcessTime`, the CPU time that the process had used at some moment.
#[verifier::external_type_specification]
#[verifier::external_body]
pub struct ExProcessTime(cpu_time::ProcessTime);

/// `cpu_time::ThreadTime`, the CPU time that a thread had used at some moment.
#[verifier::external_type_specification]
#[verifier::external_body]
pub struct ExThreadTime(cpu_time::ThreadTime);

/// Calls `std::time::Instant::now`. Nothing is claimed of the instant.
#[verifier::external_body]
pub(crate) fn instant_now() -> (now: std::time::Instant) {
    std::time::Instant::now()
}

/// Calls `std::time::Instant::elapsed`. Nothing is claimed of the duration.
#[verifier::external_body]
pub(crate) fn instant_elapsed(start: &std::time::Instant) -> (elapsed: std::time::Duration) {
    start.elapsed()
}

/// Calls `std::time::SystemTime::now`. Nothing is claimed of the time.
#[verifier::external_body]
pub(crate) fn system_time_now() -> (now: std::time::SystemTime) {
    std::time::SystemTime::now()
}

/// Calls `std::time::SystemTime::duration_since` with `std::time::UNIX_EPOCH`:
/// the time since the epoch, or the failure where the time lies before it.
/// Nothing is claimed of which it is.
#[verifier::external_body]
pub(crate) fn system_time_since_epoch(time: &std::time::SystemTime) -> (since: Result<
    std::time::Duration,
    std::time::SystemTimeError,
>) {
    time.duration_since(std::time::UNIX_EPOCH)
}

/// Calls `cpu_time::ProcessTime::try_now`, which asks the operating system for
/// the CPU time of the process. Nothing is claimed of the outcome.
#[verifier::external_body]
pub(crate) fn process_time_try_now() -> (now: Result<cpu_time::ProcessTime, std::io::Error>) {
    cpu_time::ProcessTime::try_now()
}

/// Calls `cpu_time::ProcessTime::as_duration`. Nothing is claimed of the duration.
#[verifier::external_body]
pub(crate) fn process_time_as_duration(time: &cpu_time::ProcessTime) -> (used: std::time::Duration) {
    time.as_duration()
}

/// Calls `cpu_time::ThreadTime::try_now`, which asks the operating system for
/// the CPU time of the calling thread. Nothing is claimed of the outcome.
#[verifier::external_body]
pub(crate) fn thread_time_try_now() -> (now: Result<cpu_time::ThreadTime, std::io::Error>) {
    cpu_time::ThreadTime::try_now()
}

/// Calls `cpu_time::ThreadTime::as_duration`. Nothing is claimed of the duration.
#[verifier::external_body]
pub(crate) fn thread_time_as_duration(time: &cpu_time::ThreadTime) -> (used: std::time::Duration) {
    time.as_duration()
}

/// Calls `std::time::Duration::as_nanos`: the whole duration in nanoseconds.
/// Nothing is claimed of the number.
#[verifier::external_body]
pub(crate) fn duration_as_nanos(duration: &std::time::Duration) -> (nanos: u128) {
    duration.as_nanos()
}

} // verus!
