//! Subscriptions and the events that answer them, and the classifier that
//! says how the readiness of a subscription is found out.

use vstd::prelude::*;
use crate::error::ESUCCESS;

verus! {

/// A waitable host resource, classified by how its readiness is found out.
#[derive(Clone, Copy, Debug, PartialEq, Eq, Structural)]
pub enum Descriptor {
    /// Standard input: whether it has data is only known after a wait.
    StandardInput,
    /// Standard output, standard error and every resource whose readiness the
    /// platform cannot cheaply compute.
    TriviallyReady,
    /// A resource with a size. `length` is what the size query gave when the
    /// descriptor was classified, `None` where that query failed.
    FileLike { length: Option<u64> },
}

/// What a subscription waits for.
#[derive(Clone, Copy, Debug, PartialEq, Eq, Structural)]
pub enum Interest {
    Read,
    Write,
}

/// A request to learn when a resource can be read or written.
#[derive(Clone, Copy, Debug, PartialEq, Eq, Structural)]
pub struct Subscription {
    pub descriptor: Descriptor,
    pub interest: Interest,
    /// Opaque value of the caller, echoed in the event.
    pub userdata: u64,
}

/// A deadline that ends a wait.
#[derive(Clone, Copy, Debug, PartialEq, Eq, Structural)]
pub struct TimeoutSpec {
    /// The clock the deadline is measured on, as the guest wrote it.
    pub clock_id: u32,
    /// The deadline in nanoseconds.
    pub deadline: u64,
    /// Opaque value of the caller, echoed in the event.
    pub userdata: u64,
}

/// What an event reports.
#[derive(Clone, Copy, Debug, PartialEq, Eq, Structural)]
pub enum EventKind {
    Read,
    Write,
    Clock,
}

/// One answer of the poll.
#[derive(Clone, Copy, Debug, PartialEq, Eq, Structural)]
pub struct ResultEvent {
    pub userdata: u64,
    pub kind: EventKind,
    /// Status of this event, zero for success.
    pub status: u16,
    /// Bytes that can be read. Zero for write and clock events.
    pub nbytes: u64,
    /// Flags of the readiness state. Zero for write and clock events.
    pub flags: u16,
}

/// The class of a descriptor, without what was learnt of the resource.
#[derive(Clone, Copy, Debug, PartialEq, Eq, Structural)]
pub enum DescriptorKind {
    StandardInput,
    TriviallyReady,
    FileLike,
}

/// How the readiness of one subscription is found out.
#[derive(Clone, Copy, Debug, PartialEq, Eq, Structural)]
pub enum Strategy {
    /// Ready at once, with this many bytes to report.
    Ready { nbytes: u64 },
    /// Ready at once in principle, but the size query behind the answer failed.
    QueryFailed,
    /// Only a wait can tell.
    Wait,
}

/// What the host platform can wait on.
#[derive(Clone, Copy, Debug, PartialEq, Eq, Structural)]
pub struct Platform {
    /// Whether the platform has a way to wait for data on standard input.
    pub stdin_wait: bool,
}

impl Descriptor {
    /// The class of this descriptor.
    pub open spec fn spec_kind(&self) -> DescriptorKind {
        match self {
            Descriptor::StandardInput => DescriptorKind::StandardInput,
            Descriptor::TriviallyReady => DescriptorKind::TriviallyReady,
            Descriptor::FileLike { .. } => DescriptorKind::FileLike,
        }
    }

    /// The class of this descriptor.
    #[verifier::when_used_as_spec(spec_kind)]
    pub fn kind(&self) -> (kind: DescriptorKind)
        ensures
            kind == self.spec_kind(),
    {
        match self {
            Descriptor::StandardInput => DescriptorKind::StandardInput,
            Descriptor::TriviallyReady => DescriptorKind::TriviallyReady,
            Descriptor::FileLike { .. } => DescriptorKind::FileLike,
        }
    }
}

impl Platform {
    /// Whether a wait on a resource of this class can be honored. Only standard
    /// input ever needs one, so only there the platform decides.
    pub open spec fn spec_can_wait_on(&self, kind: DescriptorKind) -> bool {
        kind is StandardInput ==> self.stdin_wait
    }

    /// Whether a wait on a resource of this class can be honored.
    #[verifier::when_used_as_spec(spec_can_wait_on)]
    pub fn can_wait_on(&self, kind: DescriptorKind) -> (can: bool)
        ensures
            can == self.spec_can_wait_on(kind),
    {
        match kind {
            DescriptorKind::StandardInput => self.stdin_wait,
            _ => true,
        }
    }
}

impl Subscription {
    /// The strategy of this subscription. A read of standard input waits, a
    /// read of a sized resource reports its length, everything else is ready
    /// with nothing to report: a write never waits.
    pub open spec fn spec_strategy(&self) -> Strategy {
        match (self.interest, self.descriptor) {
            (Interest::Read, Descriptor::StandardInput) => Strategy::Wait,
            (Interest::Read, Descriptor::FileLike { length: Some(n) }) => Strategy::Ready { nbytes: n },
            (Interest::Read, Descriptor::FileLike { length: None }) => Strategy::QueryFailed,
            _ => Strategy::Ready { nbytes: 0 },
        }
    }

    /// Classifies this subscription.
    #[verifier::when_used_as_spec(spec_strategy)]
    pub fn strategy(&self) -> (strategy: Strategy)
        ensures
            strategy == self.spec_strategy(),
    {
        match self.interest {
            Interest::Write => Strategy::Ready { nbytes: 0 },
            Interest::Read => match self.descriptor {
                Descriptor::StandardInput => Strategy::Wait,
                Descriptor::TriviallyReady => Strategy::Ready { nbytes: 0 },
                Descriptor::FileLike { length: Some(n) } => Strategy::Ready { nbytes: n },
                Descriptor::FileLike { length: None } => Strategy::QueryFailed,
            },
        }
    }

    /// The kind of event that answers this subscription.
    pub open spec fn event_kind(self) -> EventKind {
        match self.interest {
            Interest::Read => EventKind::Read,
            Interest::Write => EventKind::Write,
        }
    }

    /// The event that answers this subscription with `nbytes` bytes to report.
    pub open spec fn event(self, nbytes: u64) -> ResultEvent {
        ResultEvent {
            userdata: self.userdata,
            kind: self.event_kind(),
            status: ESUCCESS,
            nbytes,
            flags: 0,
        }
    }

    /// Answers this subscription with `nbytes` bytes to report.
    pub fn answer(&self, nbytes: u64) -> (event: ResultEvent)
        ensures
            event == self.event(nbytes),
    {
        ResultEvent {
            userdata: self.userdata,
            kind: match self.interest {
                Interest::Read => EventKind::Read,
                Interest::Write => EventKind::Write,
            },
            status: ESUCCESS,
            nbytes,
            flags: 0,
        }
    }
}

impl TimeoutSpec {
    /// The event that reports that this deadline has passed.
    pub open spec fn event(self) -> ResultEvent {
        ResultEvent {
            userdata: self.userdata,
            kind: EventKind::Clock,
            status: ESUCCESS,
            nbytes: 0,
            flags: 0,
        }
    }

    /// Reports that this deadline has passed.
    pub fn expired(&self) -> (event: ResultEvent)
        ensures
            event == self.event(),
    {
        ResultEvent {
            userdata: self.userdata,
            kind: EventKind::Clock,
            status: ESUCCESS,
            nbytes: 0,
            flags: 0,
        }
    }
}

} // verus!
