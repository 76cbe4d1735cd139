//! The clocks a guest can read: their ids, their resolutions and their
//! readings.

use vstd::prelude::*;
use std::time::{Duration, Instant, SystemTimeError};
use crate::error::ErrorKind;
use crate::host_time::{
    duration_as_nanos, instant_elapsed, instant_now, process_time_as_duration,
    process_time_try_now, system_time_now, system_time_since_epoch, thread_time_as_duration,
    thread_time_try_now,
};

verus! {

/// Id of the wall clock.
pub const CLOCK_REALTIME: u32 = 0;

/// Id of the clock that never runs backwards.
pub const CLOCK_MONOTONIC: u32 = 1;

/// Id of the clock that counts the CPU time of the process.
pub const CLOCK_PROCESS_CPUTIME_ID: u32 = 2;

/// Id of the clock that counts the CPU time of the calling thread.
pub const CLOCK_THREAD_CPUTIME_ID: u32 = 3;

/// Nanoseconds in one second.
pub const NANOS_PER_SEC: u64 = 1_000_000_000;

/// Resolution of the wall clock in nanoseconds: the coarsest step the host is
/// known to take, 55 milliseconds.
pub const REALTIME_RESOLUTION_NS: u64 = 55_000_000;

/// Resolution of the two CPU-time clocks in nanoseconds.
pub const CPUTIME_RESOLUTION_NS: u64 = 100;

/// The clocks of this layer.
#[derive(Clone, Copy, Debug, PartialEq, Eq, Structural)]
pub enum ClockId {
    /// Time since the calendar epoch.
    Realtime,
    /// Time since a reference point fixed once per process.
    Monotonic,
    /// CPU time the process has consumed.
    ProcessCpuTime,
    /// CPU time the calling thread has consumed.
    ThreadCpuTime,
}

/// The clock that a raw id selects, `None` for an id that selects none.
pub open spec fn clock_of(raw: u32) -> Option<ClockId> {
    if raw == CLOCK_REALTIME {
        Some(ClockId::Realtime)
    } else if raw == CLOCK_MONOTONIC {
        Some(ClockId::Monotonic)
    } else if raw == CLOCK_PROCESS_CPUTIME_ID {
        Some(ClockId::ProcessCpuTime)
    } else if raw == CLOCK_THREAD_CPUTIME_ID {
        Some(ClockId::ThreadCpuTime)
    } else {
        None
    }
}

impl ClockId {
    /// The raw id of this clock.
    pub open spec fn spec_raw(self) -> u32 {
        match self {
            ClockId::Realtime => CLOCK_REALTIME,
            ClockId::Monotonic => CLOCK_MONOTONIC,
            ClockId::ProcessCpuTime => CLOCK_PROCESS_CPUTIME_ID,
            ClockId::ThreadCpuTime => CLOCK_THREAD_CPUTIME_ID,
        }
    }

    /// Decodes a raw clock id. Every id but the four known ones is rejected.
    pub fn from_raw(raw: u32) -> (res: Result<ClockId, ErrorKind>)
        ensures
            match clock_of(raw) {
                Some(id) => res == Ok::<ClockId, ErrorKind>(id),
                None => res == Err::<ClockId, ErrorKind>(ErrorKind::InvalidArgument),
            },
    {
        if raw == CLOCK_REALTIME {
            Ok(ClockId::Realtime)
        } else if raw == CLOCK_MONOTONIC {
            Ok(ClockId::Monotonic)
        } else if raw == CLOCK_PROCESS_CPUTIME_ID {
            Ok(ClockId::ProcessCpuTime)
        } else if raw == CLOCK_THREAD_CPUTIME_ID {
            Ok(ClockId::ThreadCpuTime)
        } else {
            Err(ErrorKind::InvalidArgument)
        }
    }

    /// The raw id of this clock.
    #[verifier::when_used_as_spec(spec_raw)]
    pub fn raw(self) -> (raw: u32)
        ensures
            raw == self.spec_raw(),
    {
        match self {
            ClockId::Realtime => CLOCK_REALTIME,
            ClockId::Monotonic => CLOCK_MONOTONIC,
            ClockId::ProcessCpuTime => CLOCK_PROCESS_CPUTIME_ID,
            ClockId::ThreadCpuTime => CLOCK_THREAD_CPUTIME_ID,
        }
    }
}

/// Decoding undoes encoding: the raw id of a clock selects that clock.
pub proof fn lemma_clock_of_raw(id: ClockId)
    ensures
        clock_of(id.spec_raw()) == Some(id),
{
}

/// A raw id selects a clock exactly if it is one of the four known ids, and
/// then the clock's raw id is that id.
pub proof fn lemma_clock_of_known(raw: u32)
    ensures
        clock_of(raw) is Some <==> raw <= CLOCK_THREAD_CPUTIME_ID,
        clock_of(raw) matches Some(id) ==> id.spec_raw() == raw,
{
}

/// The resolution of a performance counter that ticks `frequency` times a
/// second, in whole nanoseconds.
pub open spec fn counter_resolution(frequency: u64) -> u64 {
    NANOS_PER_SEC / frequency
}

/// The resolution of the performance counter behind the monotonic clock, from
/// the frequency that the host reports for it. A counter that does not tick has
/// none: a frequency of zero is a fault of the system.
pub fn get_perf_counter_resolution_ns(frequency: u64) -> (res: Result<u64, ErrorKind>)
    ensures
        frequency == 0 ==> res == Err::<u64, ErrorKind>(ErrorKind::SystemFault),
        frequency > 0 ==> res == Ok::<u64, ErrorKind>(counter_resolution(frequency)),
{
    if frequency == 0 {
        Err(ErrorKind::SystemFault)
    } else {
        let epsilon = NANOS_PER_SEC / frequency;
        Ok(epsilon)
    }
}

/// What the clocks of one process share: the reference point of the monotonic
/// clock and its resolution. Both are fixed when the value is made, and
/// nothing changes them afterwards.
pub struct ClockSource {
    start_monotonic: Instant,
    monotonic_resolution: u64,
}

impl ClockSource {
    /// The resolution of the monotonic clock in nanoseconds.
    pub closed spec fn monotonic_resolution(&self) -> u64 {
        self.monotonic_resolution
    }

    /// The resolution of a clock in nanoseconds.
    pub open spec fn spec_resolution(&self, id: ClockId) -> u64 {
        match id {
            ClockId::Realtime => REALTIME_RESOLUTION_NS,
            ClockId::Monotonic => self.monotonic_resolution(),
            ClockId::ProcessCpuTime => CPUTIME_RESOLUTION_NS,
            ClockId::ThreadCpuTime => CPUTIME_RESOLUTION_NS,
        }
    }

    /// The resolution of a clock in nanoseconds. It is a lower bound on the
    /// steps that readings can be told apart by, it may be coarse, and it is
    /// the same at every call.
    #[verifier::when_used_as_spec(spec_resolution)]
    pub fn resolution(&self, id: ClockId) -> (res: u64)
        ensures
            res == self.spec_resolution(id),
    {
        match id {
            ClockId::Realtime => REALTIME_RESOLUTION_NS,
            ClockId::Monotonic => self.monotonic_resolution,
            ClockId::ProcessCpuTime => CPUTIME_RESOLUTION_NS,
            ClockId::ThreadCpuTime => CPUTIME_RESOLUTION_NS,
        }
    }

    /// Reads a clock: the wall clock as the time since the calendar epoch, the
    /// monotonic clock as the time since its reference point, the CPU clocks
    /// as the time consumed, each in nanoseconds.
    pub fn now(&self, id: ClockId) -> (res: Result<u64, ErrorKind>)
        ensures
            res matches Err(e) ==> reading_may_fail_with(Some(id), e),
    {
        let reading = match id {
            ClockId::Realtime => get_realtime_time(),
            ClockId::Monotonic => Ok(get_monotonic_time(self)),
            ClockId::ProcessCpuTime => get_proc_cputime(),
            ClockId::ThreadCpuTime => get_thread_cputime(),
        };
        match reading {
            Ok(duration) => timestamp_from_nanos(duration_as_nanos(&duration)),
            Err(e) => Err(e),
        }
    }

    /// Fixes the reference point of the monotonic clock at this moment, and its
    /// resolution from the frequency of the performance counter.
    pub fn new(perf_counter_frequency: u64) -> (res: Result<ClockSource, ErrorKind>)
        ensures
            perf_counter_frequency == 0 ==> res matches Err(ErrorKind::SystemFault),
            perf_counter_frequency > 0 ==> (res matches Ok(clocks)
                && clocks.monotonic_resolution() == counter_resolution(perf_counter_frequency)),
    {
        match get_perf_counter_resolution_ns(perf_counter_frequency) {
            Ok(monotonic_resolution) => Ok(
                ClockSource { start_monotonic: instant_now(), monotonic_resolution },
            ),
            Err(e) => Err(e),
        }
    }
}

/// The resolution of the clock that `clock_id` selects, in nanoseconds. An id
/// that selects no clock is refused.
pub fn clock_res_get(clocks: &ClockSource, clock_id: u32) -> (res: Result<u64, ErrorKind>)
    ensures
        match clock_of(clock_id) {
            Some(id) => res == Ok::<u64, ErrorKind>(clocks.spec_resolution(id)),
            None => res == Err::<u64, ErrorKind>(ErrorKind::InvalidArgument),
        },
{
    match ClockId::from_raw(clock_id) {
        Ok(id) => Ok(clocks.resolution(id)),
        Err(e) => Err(e),
    }
}

/// The timestamp that stands for a number of nanoseconds: the number itself
/// where 64 bits hold it. A number beyond that is a fault of the system.
pub open spec fn timestamp_of_nanos(nanos: u128) -> Result<u64, ErrorKind> {
    if nanos <= u64::MAX {
        Ok(nanos as u64)
    } else {
        Err(ErrorKind::SystemFault)
    }
}

/// Turns a reading in nanoseconds into a timestamp.
pub fn timestamp_from_nanos(nanos: u128) -> (res: Result<u64, ErrorKind>)
    ensures
        res == timestamp_of_nanos(nanos),
{
    if nanos <= u64::MAX as u128 {
        Ok(nanos as u64)
    } else {
        Err(ErrorKind::SystemFault)
    }
}

/// Timestamps keep the order of the readings they stand for: of two readings,
/// the earlier one has a timestamp if the later one has, and it is not the
/// greater of the two.
pub proof fn lemma_timestamp_monotone(earlier: u128, later: u128)
    requires
        earlier <= later,
        timestamp_of_nanos(later) is Ok,
    ensures
        timestamp_of_nanos(earlier) is Ok,
        timestamp_of_nanos(earlier)->Ok_0 <= timestamp_of_nanos(later)->Ok_0,
{
}

/// The time since the reference point of the monotonic clock.
pub fn get_monotonic_time(clocks: &ClockSource) -> (elapsed: Duration) {
    instant_elapsed(&clocks.start_monotonic)
}

/// The time since the calendar epoch. A wall clock that stands before the
/// epoch is a fault of the resource, and the only failure there is.
pub fn get_realtime_time() -> (res: Result<Duration, ErrorKind>)
    ensures
        res matches Err(e) ==> e == ErrorKind::ResourceFault,
{
    let now = system_time_now();
    let since_epoch = system_time_since_epoch(&now);
    realtime_reading(since_epoch)
}

/// The CPU time that the process has consumed. A host that cannot measure it
/// is a fault of the system, and the only failure there is.
pub fn get_proc_cputime() -> (res: Result<Duration, ErrorKind>)
    ensures
        res matches Err(e) ==> e == ErrorKind::SystemFault,
{
    match cputime_reading(process_time_try_now()) {
        Ok(now) => Ok(process_time_as_duration(&now)),
        Err(e) => Err(e),
    }
}

/// The CPU time that the calling thread has consumed. A host that cannot
/// measure it is a fault of the system, and the only failure there is.
pub fn get_thread_cputime() -> (res: Result<Duration, ErrorKind>)
    ensures
        res matches Err(e) ==> e == ErrorKind::SystemFault,
{
    match cputime_reading(thread_time_try_now()) {
        Ok(now) => Ok(thread_time_as_duration(&now)),
        Err(e) => Err(e),
    }
}

/// What the answer of the host to the time since the calendar epoch becomes:
/// that time, or a fault of the resource where the wall clock stands before
/// the epoch.
pub fn realtime_reading(since_epoch: Result<Duration, SystemTimeError>) -> (res: Result<
    Duration,
    ErrorKind,
>)
    ensures
        match since_epoch {
            Ok(since) => res == Ok::<Duration, ErrorKind>(since),
            Err(_) => res == Err::<Duration, ErrorKind>(ErrorKind::ResourceFault),
        },
{
    match since_epoch {
        Ok(since) => Ok(since),
        Err(_) => Err(ErrorKind::ResourceFault),
    }
}

/// What the answer of the host to a measurement of CPU time becomes: the
/// measurement, or a fault of the system where the host could not measure.
pub fn cputime_reading<T>(measured: Result<T, std::io::Error>) -> (res: Result<T, ErrorKind>)
    ensures
        match measured {
            Ok(time) => res == Ok::<T, ErrorKind>(time),
            Err(_) => res == Err::<T, ErrorKind>(ErrorKind::SystemFault),
        },
{
    match measured {
        Ok(time) => Ok(time),
        Err(_) => Err(ErrorKind::SystemFault),
    }
}

/// The failures that a reading of a clock can end in: an id that selects no
/// clock is an invalid argument and nothing else; the wall clock fails where it
/// stands before the epoch; every clock fails where the system cannot measure
/// or where 64 bits cannot hold the reading.
pub open spec fn reading_may_fail_with(clock: Option<ClockId>, e: ErrorKind) -> bool {
    match clock {
        None => e == ErrorKind::InvalidArgument,
        Some(ClockId::Realtime) => e == ErrorKind::ResourceFault || e == ErrorKind::SystemFault,
        Some(_) => e == ErrorKind::SystemFault,
    }
}

/// Reads the clock that `clock_id` selects, in nanoseconds. An id that selects
/// no clock is refused, and no other failure is taken for that one.
pub fn clock_time_get(clocks: &ClockSource, clock_id: u32) -> (res: Result<u64, ErrorKind>)
    ensures
        clock_of(clock_id) is None <==> res == Err::<u64, ErrorKind>(ErrorKind::InvalidArgument),
        res matches Err(e) ==> reading_may_fail_with(clock_of(clock_id), e),
{
    match ClockId::from_raw(clock_id) {
        Ok(id) => clocks.now(id),
        Err(e) => Err(e),
    }
}

} // verus!
