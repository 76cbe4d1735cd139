//! The end of a poll that had to wait: what the outcome of the wait becomes.

use vstd::prelude::*;
use crate::clock::{clock_of, ClockId};
use crate::error::{ErrorKind, ESUCCESS};
use crate::poll::{lemma_parts_contain, wait_part, wait_required, WaitRequest};
use crate::subscription::{EventKind, ResultEvent, Strategy, Subscription, TimeoutSpec};

verus! {

/// How a wait ended.
#[derive(Clone, Copy, Debug, PartialEq, Eq, Structural)]
pub enum WaitOutcome {
    /// Standard input signalled data: `nbytes` bytes can be read.
    DataReady { nbytes: u64 },
    /// The deadline passed before standard input signalled anything.
    TimedOut,
    /// The primitive that waits reported a failure.
    Failed,
}

/// Whether every one of the subscriptions needs a wait.
pub open spec fn all_wait_required(reads: Seq<Subscription>) -> bool {
    forall|i: int| 0 <= i < reads.len() ==> wait_required(#[trigger] reads[i])
}

/// One read event for each of the subscriptions, each reporting `nbytes` bytes.
pub open spec fn read_events(reads: Seq<Subscription>, nbytes: u64) -> Seq<ResultEvent> {
    reads.map_values(|s: Subscription| s.event(nbytes))
}

/// What is wrong with a request to wait, `None` where nothing is.
///
/// A deadline on an unknown clock is refused as in the poll. A subscription
/// that needs no wait has no place in a request: that is a broken invariant.
pub open spec fn request_error(reads: Seq<Subscription>, timeout: Option<TimeoutSpec>) -> Option<
    ErrorKind,
> {
    if timeout matches Some(t) && clock_of(t.clock_id) is None {
        Some(ErrorKind::InvalidArgument)
    } else if !all_wait_required(reads) {
        Some(ErrorKind::Internal)
    } else {
        None
    }
}

/// The failure of a wait, `None` where it ends in events.
///
/// What is wrong with the request comes first. A failed wait is a fault of the
/// system. An outcome that the request cannot have led to is a broken
/// invariant: data without a subscription that waits for it, a passed deadline
/// without a deadline.
pub open spec fn wait_error(
    reads: Seq<Subscription>,
    timeout: Option<TimeoutSpec>,
    outcome: WaitOutcome,
) -> Option<ErrorKind> {
    if request_error(reads, timeout) is Some {
        request_error(reads, timeout)
    } else {
        match outcome {
            WaitOutcome::Failed => Some(ErrorKind::SystemFault),
            WaitOutcome::DataReady { .. } => if reads.len() == 0 {
                Some(ErrorKind::Internal)
            } else {
                None
            },
            WaitOutcome::TimedOut => if timeout is None {
                Some(ErrorKind::Internal)
            } else {
                None
            },
        }
    }
}

/// The events that a wait ends in: none where it fails, the read events where
/// data came first, the one clock event where the deadline came first.
pub open spec fn wait_events(
    reads: Seq<Subscription>,
    timeout: Option<TimeoutSpec>,
    outcome: WaitOutcome,
) -> Seq<ResultEvent> {
    if wait_error(reads, timeout, outcome) is Some {
        Seq::empty()
    } else {
        match outcome {
            WaitOutcome::DataReady { nbytes } => read_events(reads, nbytes),
            WaitOutcome::TimedOut => seq![timeout->0.event()],
            WaitOutcome::Failed => Seq::empty(),
        }
    }
}

impl WaitRequest {
    /// Checks that the request is one that a poll can have made.
    pub fn validate(&self) -> (res: Result<(), ErrorKind>)
        ensures
            match request_error(self.reads@, self.timeout) {
                Some(e) => res == Err::<(), ErrorKind>(e),
                None => res == Ok::<(), ErrorKind>(()),
            },
    {
        if let Some(t) = self.timeout {
            if let Err(e) = ClockId::from_raw(t.clock_id) {
                return Err(e);
            }
        }
        let mut i: usize = 0;
        while i < self.reads.len()
            invariant
                i <= self.reads.len(),
                !(self.timeout matches Some(t) && clock_of(t.clock_id) is None),
                forall|j: int| 0 <= j < i ==> wait_required(#[trigger] self.reads@[j]),
            decreases self.reads.len() - i,
        {
            match self.reads[i].strategy() {
                Strategy::Wait => {},
                _ => {
                    assert(!wait_required(self.reads@[i as int]));
                    return Err(ErrorKind::Internal);
                },
            }
            i += 1;
        }
        Ok(())
    }
}

/// Answers every one of the subscriptions with `nbytes` bytes to report.
pub fn answer_reads(reads: &Vec<Subscription>, nbytes: u64) -> (events: Vec<ResultEvent>)
    ensures
        events@ == read_events(reads@, nbytes),
{
    let mut events: Vec<ResultEvent> = Vec::new();
    let mut i: usize = 0;
    while i < reads.len()
        invariant
            i <= reads.len(),
            events@.len() == i,
            forall|j: int| 0 <= j < i ==> #[trigger] events@[j] == reads@[j].event(nbytes),
        decreases reads.len() - i,
    {
        events.push(reads[i].answer(nbytes));
        i += 1;
    }
    assert(events@ == read_events(reads@, nbytes));
    events
}

/// Ends a poll that had to wait: turns the outcome of the wait into events and
/// appends them to `events`. A wait that fails appends nothing.
pub fn complete_wait(
    request: &WaitRequest,
    outcome: WaitOutcome,
    events: &mut Vec<ResultEvent>,
) -> (res: Result<(), ErrorKind>)
    ensures
        match wait_error(request.reads@, request.timeout, outcome) {
            Some(e) => res == Err::<(), ErrorKind>(e),
            None => res == Ok::<(), ErrorKind>(()),
        },
        final(events)@ == old(events)@ + wait_events(request.reads@, request.timeout, outcome),
{
    proof {
        assert(old(events)@ + Seq::<ResultEvent>::empty() == old(events)@);
    }
    if let Err(e) = request.validate() {
        return Err(e);
    }
    match outcome {
        WaitOutcome::Failed => Err(ErrorKind::SystemFault),
        WaitOutcome::DataReady { nbytes } => {
            if request.reads.len() == 0 {
                Err(ErrorKind::Internal)
            } else {
                let mut ready = answer_reads(&request.reads, nbytes);
                events.append(&mut ready);
                Ok(())
            }
        },
        WaitOutcome::TimedOut => match request.timeout {
            None => Err(ErrorKind::Internal),
            Some(t) => {
                events.push(t.expired());
                assert(old(events)@.push(t.event()) == old(events)@ + seq![t.event()]);
                Ok(())
            },
        },
    }
}

/// A wait ends in one kind of event, never in both: where data came first,
/// every subscription that waited gets its read event with the bytes that can
/// be read, in the order of the subscriptions; where the deadline came first,
/// the clock event is the only one.
pub proof fn lemma_wait_events(
    reads: Seq<Subscription>,
    timeout: Option<TimeoutSpec>,
    outcome: WaitOutcome,
)
    requires
        wait_error(reads, timeout, outcome) is None,
    ensures
        match outcome {
            WaitOutcome::DataReady { nbytes } => {
                let events = wait_events(reads, timeout, outcome);
                &&& events.len() == reads.len() > 0
                &&& forall|i: int|
                    0 <= i < reads.len() ==> #[trigger] events[i] == (ResultEvent {
                        userdata: reads[i].userdata,
                        kind: EventKind::Read,
                        status: ESUCCESS,
                        nbytes,
                        flags: 0,
                    })
            },
            WaitOutcome::TimedOut => {
                &&& timeout is Some
                &&& wait_events(reads, timeout, outcome) == seq![
                    ResultEvent {
                        userdata: timeout->0.userdata,
                        kind: EventKind::Clock,
                        status: ESUCCESS,
                        nbytes: 0,
                        flags: 0,
                    },
                ]
            },
            WaitOutcome::Failed => false,
        },
{
    if let WaitOutcome::DataReady { nbytes } = outcome {
        let events = wait_events(reads, timeout, outcome);
        assert forall|i: int| 0 <= i < reads.len() implies #[trigger] events[i] == (ResultEvent {
            userdata: reads[i].userdata,
            kind: EventKind::Read,
            status: ESUCCESS,
            nbytes,
            flags: 0,
        }) by {
            assert(wait_required(reads[i]));
        }
    }
}

/// What a poll asks to wait for can be waited for: the request of a poll is
/// never refused for what it holds.
pub proof fn lemma_poll_request_is_valid(subs: Seq<Subscription>, timeout: Option<TimeoutSpec>)
    requires
        !(timeout matches Some(t) && clock_of(t.clock_id) is None),
    ensures
        request_error(wait_part(subs), timeout) is None,
{
    let part = wait_part(subs);
    assert forall|i: int| 0 <= i < part.len() implies wait_required(#[trigger] part[i]) by {
        lemma_parts_contain(subs, part[i]);
        assert(part.contains(part[i]));
    }
}

} // verus!
