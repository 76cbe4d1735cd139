//! The boundary that every host call crosses on its way back to the guest:
//! the outcome becomes one numeric status and one record of the trace.

use vstd::prelude::*;
use crate::error::{status_of, ErrorKind, ESUCCESS};

verus! {

/// The host calls of this layer.
#[derive(Clone, Copy, Debug, PartialEq, Eq, Structural)]
pub enum Hostcall {
    ClockResGet,
    ClockTimeGet,
    PollOneoff,
}

impl Hostcall {
    /// The name of the call, as the trace shows it.
    pub open spec fn spec_name(&self) -> Seq<char> {
        match self {
            Hostcall::ClockResGet => "clock_res_get"@,
            Hostcall::ClockTimeGet => "clock_time_get"@,
            Hostcall::PollOneoff => "poll_oneoff"@,
        }
    }

    /// The name of the call, as the trace shows it.
    pub fn name(&self) -> (name: &'static str)
        ensures
            name@ == self.spec_name(),
    {
        match self {
            Hostcall::ClockResGet => "clock_res_get",
            Hostcall::ClockTimeGet => "clock_time_get",
            Hostcall::PollOneoff => "poll_oneoff",
        }
    }
}

/// One record of the trace: which call was made, and how it ended.
#[derive(Clone, Copy, Debug, PartialEq, Eq)]
pub struct TraceRecord {
    pub call: Hostcall,
    pub outcome: Result<(), ErrorKind>,
}

/// What crosses the boundary after a call: the status for the guest, the value
/// of a call that succeeded, and the record for the trace. The failure itself
/// is in the record only.
#[derive(Debug, PartialEq, Eq)]
pub struct Reply<T> {
    /// Zero for success, the code of the failure otherwise.
    pub status: u16,
    /// What the call computed, `None` where it failed.
    pub value: Option<T>,
    /// The one record that the call leaves in the trace.
    pub trace: TraceRecord,
}

/// How a call ended, without what it computed.
pub open spec fn outcome_of<T>(result: Result<T, ErrorKind>) -> Result<(), ErrorKind> {
    match result {
        Ok(_) => Ok(()),
        Err(e) => Err(e),
    }
}

/// What a call computed, `None` where it failed.
pub open spec fn value_of<T>(result: Result<T, ErrorKind>) -> Option<T> {
    match result {
        Ok(v) => Some(v),
        Err(_) => None,
    }
}

/// The reply to a call that ended in `result`.
pub open spec fn reply_of<T>(call: Hostcall, result: Result<T, ErrorKind>) -> Reply<T> {
    Reply {
        status: status_of(result),
        value: value_of(result),
        trace: TraceRecord { call, outcome: outcome_of(result) },
    }
}

/// Turns the result of a call into its reply.
pub fn dispatch<T>(call: Hostcall, result: Result<T, ErrorKind>) -> (reply: Reply<T>)
    ensures
        reply == reply_of(call, result),
{
    match result {
        Ok(v) => Reply {
            status: ESUCCESS,
            value: Some(v),
            trace: TraceRecord { call, outcome: Ok(()) },
        },
        Err(e) => Reply {
            status: e.as_wasi_errno(),
            value: None,
            trace: TraceRecord { call, outcome: Err(e) },
        },
    }
}

/// Makes a call through the boundary: runs the implementation once and turns
/// what it returns into the reply.
pub fn hostcall<T, F: FnOnce() -> Result<T, ErrorKind>>(call: Hostcall, implementation: F) -> (reply:
    Reply<T>)
    requires
        implementation.requires(()),
    ensures
        exists|result: Result<T, ErrorKind>|
            implementation.ensures((), result) && reply == #[trigger] reply_of(call, result),
{
    let result = implementation();
    dispatch(call, result)
}

/// The status tells success from failure: it is zero exactly for a call that
/// succeeded, and exactly then the reply holds a value.
pub proof fn lemma_reply_status<T>(call: Hostcall, result: Result<T, ErrorKind>)
    ensures
        reply_of(call, result).status == ESUCCESS <==> result is Ok,
        reply_of(call, result).value is Some <==> result is Ok,
        reply_of(call, result).trace.outcome is Ok <==> result is Ok,
{
}

/// The status of a failure is the code of that failure, and the record names
/// the same failure.
pub proof fn lemma_reply_failure<T>(call: Hostcall, e: ErrorKind)
    ensures
        reply_of::<T>(call, Err(e)).status == e.errno(),
        reply_of::<T>(call, Err(e)).value is None,
        reply_of::<T>(call, Err(e)).trace == (TraceRecord { call, outcome: Err(e) }),
{
}

} // verus!
