//! The readiness poll: which subscriptions are answered at once, with what
//! events, and when the caller is told to wait instead.

use vstd::prelude::*;
use crate::clock::{clock_of, ClockId};
use crate::error::{ErrorKind, ESUCCESS};
use crate::subscription::{
    Descriptor, DescriptorKind, EventKind, Platform, ResultEvent, Strategy, Subscription,
    TimeoutSpec,
};

verus! {

/// What the caller has to wait for where nothing could be answered at once.
#[derive(Debug, PartialEq, Eq)]
pub struct WaitRequest {
    /// The subscriptions that wait for data on standard input, in their order.
    pub reads: Vec<Subscription>,
    /// The deadline that ends the wait, if there is one.
    pub timeout: Option<TimeoutSpec>,
}

/// How a poll went on.
#[derive(Debug, PartialEq, Eq)]
pub enum PollStep {
    /// The poll is over; its events have been handed out.
    Complete,
    /// Nothing could be answered at once: the caller waits as the request says
    /// and hands the outcome to [`complete_wait`](crate::wait::complete_wait).
    Wait(WaitRequest),
}

/// Whether only a wait can answer the subscription.
pub open spec fn wait_required(s: Subscription) -> bool {
    s.spec_strategy() is Wait
}

/// The subscriptions that can be answered at once, in their order.
pub open spec fn immediate_part(subs: Seq<Subscription>) -> Seq<Subscription> {
    subs.filter(|s: Subscription| !wait_required(s))
}

/// The subscriptions that only a wait can answer, in their order.
pub open spec fn wait_part(subs: Seq<Subscription>) -> Seq<Subscription> {
    subs.filter(|s: Subscription| wait_required(s))
}

/// Whether one of the subscriptions needs a wait.
pub open spec fn has_wait_required(subs: Seq<Subscription>) -> bool {
    exists|i: int| 0 <= i < subs.len() && wait_required(#[trigger] subs[i])
}

/// Whether the size query behind one of the subscriptions failed.
pub open spec fn has_failed_query(subs: Seq<Subscription>) -> bool {
    exists|i: int| 0 <= i < subs.len() && (#[trigger] subs[i]).spec_strategy() is QueryFailed
}

/// Whether one of the subscriptions is on something else than standard input.
pub open spec fn has_other_than_stdin(subs: Seq<Subscription>) -> bool {
    exists|i: int| 0 <= i < subs.len() && (#[trigger] subs[i]).descriptor !is StandardInput
}

/// The event that answers a subscription at once.
pub open spec fn immediate_event(s: Subscription) -> ResultEvent {
    match s.spec_strategy() {
        Strategy::Ready { nbytes } => s.event(nbytes),
        _ => s.event(0),
    }
}

/// One event for each subscription, in the order of the subscriptions.
pub open spec fn events_of(subs: Seq<Subscription>) -> Seq<ResultEvent> {
    subs.map_values(|s: Subscription| immediate_event(s))
}

/// The events that answer the subscriptions which can be answered at once, one
/// each, in the order of the subscriptions.
pub open spec fn immediate_events(subs: Seq<Subscription>) -> Seq<ResultEvent> {
    events_of(immediate_part(subs))
}

/// The failure of a poll, `None` where it does not fail.
///
/// A deadline on an unknown clock is refused before anything else. A failed
/// size query fails the whole poll. A wait on standard input that the platform
/// cannot honor is refused, but only where nothing can be answered at once.
pub open spec fn poll_error(
    platform: Platform,
    timeout: Option<TimeoutSpec>,
    subs: Seq<Subscription>,
) -> Option<ErrorKind> {
    if timeout matches Some(t) && clock_of(t.clock_id) is None {
        Some(ErrorKind::InvalidArgument)
    } else if has_failed_query(subs) {
        Some(ErrorKind::ResourceFault)
    } else if immediate_part(subs).len() == 0 && wait_part(subs).len() > 0
        && !platform.spec_can_wait_on(DescriptorKind::StandardInput) {
        Some(ErrorKind::Unsupported)
    } else {
        None
    }
}

/// Whether a poll asks its caller to wait: it does not fail, nothing can be
/// answered at once, and there is a subscription or a deadline to wait for.
pub open spec fn poll_waits(
    platform: Platform,
    timeout: Option<TimeoutSpec>,
    subs: Seq<Subscription>,
) -> bool {
    &&& poll_error(platform, timeout, subs) is None
    &&& immediate_part(subs).len() == 0
    &&& (subs.len() > 0 || timeout is Some)
}

/// The events that a poll hands out: none where it fails, else one for each
/// subscription that can be answered at once.
pub open spec fn poll_events(
    platform: Platform,
    timeout: Option<TimeoutSpec>,
    subs: Seq<Subscription>,
) -> Seq<ResultEvent> {
    if poll_error(platform, timeout, subs) is None {
        immediate_events(subs)
    } else {
        Seq::empty()
    }
}

/// Splits the subscriptions into those that can be answered at once and those
/// that only a wait can answer. Each part keeps the order of the subscriptions.
pub fn partition(fd_events: &Vec<Subscription>) -> (parts: (Vec<Subscription>, Vec<Subscription>))
    ensures
        parts.0@ == immediate_part(fd_events@),
        parts.1@ == wait_part(fd_events@),
{
    let mut immediate: Vec<Subscription> = Vec::new();
    let mut waiting: Vec<Subscription> = Vec::new();
    let mut i: usize = 0;
    proof {
        lemma_parts_empty();
        assert(fd_events@.take(0) == Seq::<Subscription>::empty());
    }
    while i < fd_events.len()
        invariant
            i <= fd_events.len(),
            immediate@ == immediate_part(fd_events@.take(i as int)),
            waiting@ == wait_part(fd_events@.take(i as int)),
        decreases fd_events.len() - i,
    {
        let sub = fd_events[i];
        proof {
            lemma_parts_push(fd_events@.take(i as int), sub);
            assert(fd_events@.take(i + 1) == fd_events@.take(i as int).push(sub));
        }
        match sub.strategy() {
            Strategy::Wait => waiting.push(sub),
            _ => immediate.push(sub),
        }
        i += 1;
    }
    assert(fd_events@.take(i as int) == fd_events@);
    (immediate, waiting)
}

/// Answers subscriptions at once, one event each, in their order.
///
/// The call fails as a whole where one of them cannot be answered: with
/// `Internal` where one needs a wait, for such a subscription must not reach
/// this point, and otherwise with `ResourceFault` where a size query failed.
pub fn resolve_immediate(immediate: &Vec<Subscription>) -> (res: Result<Vec<ResultEvent>, ErrorKind>)
    ensures
        has_wait_required(immediate@) ==> res == Err::<Vec<ResultEvent>, ErrorKind>(
            ErrorKind::Internal,
        ),
        !has_wait_required(immediate@) && has_failed_query(immediate@) ==> res == Err::<
            Vec<ResultEvent>,
            ErrorKind,
        >(ErrorKind::ResourceFault),
        !has_wait_required(immediate@) && !has_failed_query(immediate@) ==> (res matches Ok(evs)
            && evs@ == events_of(immediate@)),
{
    let mut resolved: Vec<ResultEvent> = Vec::new();
    let mut saw_wait = false;
    let mut saw_failure = false;
    let mut i: usize = 0;
    while i < immediate.len()
        invariant
            i <= immediate.len(),
            saw_wait == has_wait_required(immediate@.take(i as int)),
            saw_failure == has_failed_query(immediate@.take(i as int)),
            !saw_wait && !saw_failure ==> resolved@ == events_of(immediate@.take(i as int)),
        decreases immediate.len() - i,
    {
        let sub = immediate[i];
        let ghost before = immediate@.take(i as int);
        let ghost after = immediate@.take(i + 1);
        proof {
            assert(after == before.push(sub));
            assert(forall|j: int| 0 <= j < before.len() ==> before[j] == after[j]);
            assert(after[i as int] == sub);
            if has_wait_required(before) {
                let j = choose|j: int| 0 <= j < before.len() && wait_required(#[trigger] before[j]);
                assert(wait_required(after[j]));
            }
            if has_failed_query(before) {
                let j = choose|j: int|
                    0 <= j < before.len() && (#[trigger] before[j]).spec_strategy() is QueryFailed;
                assert(after[j].spec_strategy() is QueryFailed);
            }
            before.lemma_push_map_commute(|s: Subscription| immediate_event(s), sub);
        }
        match sub.strategy() {
            Strategy::Wait => {
                saw_wait = true;
            },
            Strategy::QueryFailed => {
                saw_failure = true;
            },
            Strategy::Ready { nbytes } => {
                resolved.push(sub.answer(nbytes));
            },
        }
        i += 1;
    }
    assert(immediate@.take(i as int) == immediate@);
    if saw_wait {
        Err(ErrorKind::Internal)
    } else if saw_failure {
        Err(ErrorKind::ResourceFault)
    } else {
        Ok(resolved)
    }
}

/// Polls the subscriptions once.
///
/// Without subscriptions and without a deadline there is nothing to do. Where
/// a subscription can be answered at once, all such are answered, their events
/// are appended to `events` in the order of the subscriptions, and nothing is
/// waited for: not the deadline, not standard input. Otherwise the caller is
/// told to wait, or the poll fails where the platform cannot wait on standard
/// input. A poll that fails appends nothing.
pub fn poll_oneoff(
    platform: &Platform,
    timeout: Option<TimeoutSpec>,
    fd_events: Vec<Subscription>,
    events: &mut Vec<ResultEvent>,
) -> (res: Result<PollStep, ErrorKind>)
    ensures
        match poll_error(*platform, timeout, fd_events@) {
            Some(e) => res == Err::<PollStep, ErrorKind>(e),
            None => res is Ok,
        },
        final(events)@ == old(events)@ + poll_events(*platform, timeout, fd_events@),
        res matches Ok(PollStep::Complete) ==> !poll_waits(*platform, timeout, fd_events@),
        res matches Ok(PollStep::Wait(request)) ==> poll_waits(*platform, timeout, fd_events@)
            && request.reads@ == wait_part(fd_events@) && request.timeout == timeout,
        fd_events@.len() == 0 && timeout is None ==> res == Ok::<PollStep, ErrorKind>(
            PollStep::Complete,
        ) && final(events)@ == old(events)@,
        has_other_than_stdin(fd_events@) ==> !(res matches Ok(PollStep::Wait(_))),
{
    let ghost subs = fd_events@;
    proof {
        if has_other_than_stdin(subs) {
            let i = choose|i: int|
                0 <= i < subs.len() && (#[trigger] subs[i]).descriptor !is StandardInput;
            lemma_poll_priority(*platform, timeout, subs, i);
        }
    }
    if fd_events.is_empty() && timeout.is_none() {
        proof {
            lemma_parts_empty();
            assert(subs == Seq::<Subscription>::empty());
            assert(old(events)@ + events_of(Seq::<Subscription>::empty()) == old(events)@);
        }
        return Ok(PollStep::Complete);
    }
    if let Some(t) = timeout {
        if let Err(e) = ClockId::from_raw(t.clock_id) {
            assert(old(events)@ + Seq::<ResultEvent>::empty() == old(events)@);
            return Err(e);
        }
    }
    let (immediate, stdin_events) = partition(&fd_events);
    proof {
        lemma_failed_query_is_immediate(subs);
        lemma_immediate_part_needs_no_wait(subs);
    }
    if immediate.len() > 0 {
        match resolve_immediate(&immediate) {
            Ok(resolved) => {
                let mut resolved = resolved;
                events.append(&mut resolved);
                Ok(PollStep::Complete)
            },
            Err(e) => {
                assert(old(events)@ + Seq::<ResultEvent>::empty() == old(events)@);
                Err(e)
            },
        }
    } else if stdin_events.len() > 0 && !platform.can_wait_on(DescriptorKind::StandardInput) {
        assert(old(events)@ + Seq::<ResultEvent>::empty() == old(events)@);
        Err(ErrorKind::Unsupported)
    } else {
        assert(old(events)@ + events_of(Seq::<Subscription>::empty()) == old(events)@);
        Ok(PollStep::Wait(WaitRequest { reads: stdin_events, timeout }))
    }
}

/// The two parts of no subscriptions are empty.
pub proof fn lemma_parts_empty()
    ensures
        immediate_part(Seq::<Subscription>::empty()) == Seq::<Subscription>::empty(),
        wait_part(Seq::<Subscription>::empty()) == Seq::<Subscription>::empty(),
{
    reveal(Seq::filter);
}

/// Appending a subscription extends exactly one of the two parts.
pub proof fn lemma_parts_push(subs: Seq<Subscription>, s: Subscription)
    ensures
        immediate_part(subs.push(s)) == if wait_required(s) {
            immediate_part(subs)
        } else {
            immediate_part(subs).push(s)
        },
        wait_part(subs.push(s)) == if wait_required(s) {
            wait_part(subs).push(s)
        } else {
            wait_part(subs)
        },
{
    reveal(Seq::filter);
    assert(subs.push(s).drop_last() == subs);
}

/// What a sequence holds after a push: what it held before, and the new item.
proof fn lemma_contains_push(subs: Seq<Subscription>, last: Subscription, s: Subscription)
    ensures
        subs.push(last).contains(s) <==> subs.contains(s) || s == last,
{
    let pushed = subs.push(last);
    if subs.contains(s) {
        let i = choose|i: int| 0 <= i < subs.len() && subs[i] == s;
        assert(pushed[i] == s);
    }
    if s == last {
        assert(pushed[subs.len() as int] == s);
    }
    if pushed.contains(s) {
        let i = choose|i: int| 0 <= i < pushed.len() && pushed[i] == s;
        if i < subs.len() {
            assert(subs[i] == s);
        }
    }
}

/// A subscription is in the immediate part exactly if it is one of the
/// subscriptions and needs no wait; it is in the wait part exactly if it is one
/// of them and needs one.
pub proof fn lemma_parts_contain(subs: Seq<Subscription>, s: Subscription)
    ensures
        immediate_part(subs).contains(s) <==> subs.contains(s) && !wait_required(s),
        wait_part(subs).contains(s) <==> subs.contains(s) && wait_required(s),
    decreases subs.len(),
{
    if subs.len() == 0 {
        lemma_parts_empty();
        assert(subs == Seq::<Subscription>::empty());
    } else {
        let init = subs.drop_last();
        let last = subs.last();
        lemma_parts_contain(init, s);
        lemma_parts_push(init, last);
        assert(subs == init.push(last));
        lemma_contains_push(init, last, s);
        lemma_contains_push(immediate_part(init), last, s);
        lemma_contains_push(wait_part(init), last, s);
    }
}

/// Every subscription is in exactly one of the two parts.
pub proof fn lemma_parts_lengths(subs: Seq<Subscription>)
    ensures
        immediate_part(subs).len() + wait_part(subs).len() == subs.len(),
    decreases subs.len(),
{
    if subs.len() == 0 {
        lemma_parts_empty();
        assert(subs == Seq::<Subscription>::empty());
    } else {
        lemma_parts_lengths(subs.drop_last());
        lemma_parts_push(subs.drop_last(), subs.last());
        assert(subs == subs.drop_last().push(subs.last()));
    }
}

/// A failed size query is found among the subscriptions exactly if it is found
/// among those that can be answered at once.
pub proof fn lemma_failed_query_is_immediate(subs: Seq<Subscription>)
    ensures
        has_failed_query(immediate_part(subs)) <==> has_failed_query(subs),
{
    let part = immediate_part(subs);
    if has_failed_query(subs) {
        let i = choose|i: int|
            0 <= i < subs.len() && (#[trigger] subs[i]).spec_strategy() is QueryFailed;
        lemma_parts_contain(subs, subs[i]);
        assert(subs.contains(subs[i]));
        let j = choose|j: int| 0 <= j < part.len() && part[j] == subs[i];
        assert(part[j].spec_strategy() is QueryFailed);
    }
    if has_failed_query(part) {
        let j = choose|j: int|
            0 <= j < part.len() && (#[trigger] part[j]).spec_strategy() is QueryFailed;
        lemma_parts_contain(subs, part[j]);
        assert(part.contains(part[j]));
        let i = choose|i: int| 0 <= i < subs.len() && subs[i] == part[j];
        assert(subs[i].spec_strategy() is QueryFailed);
    }
}

/// None of the subscriptions that can be answered at once needs a wait.
pub proof fn lemma_immediate_part_needs_no_wait(subs: Seq<Subscription>)
    ensures
        !has_wait_required(immediate_part(subs)),
{
    let part = immediate_part(subs);
    if has_wait_required(part) {
        let j = choose|j: int| 0 <= j < part.len() && wait_required(#[trigger] part[j]);
        lemma_parts_contain(subs, part[j]);
        assert(part.contains(part[j]));
    }
}

/// The immediate part keeps the order of the subscriptions: of two of them
/// that need no wait, the earlier one stands earlier in the part.
pub proof fn lemma_immediate_part_keeps_order(subs: Seq<Subscription>, i: int, j: int) -> (at: (
    int,
    int,
))
    requires
        0 <= i < j < subs.len(),
        !wait_required(subs[i]),
        !wait_required(subs[j]),
    ensures
        0 <= at.0 < at.1 < immediate_part(subs).len(),
        immediate_part(subs)[at.0] == subs[i],
        immediate_part(subs)[at.1] == subs[j],
    decreases subs.len(),
{
    let init = subs.drop_last();
    let last = subs.last();
    lemma_parts_push(init, last);
    assert(subs == init.push(last));
    if j < subs.len() - 1 {
        let at = lemma_immediate_part_keeps_order(init, i, j);
        at
    } else {
        lemma_parts_contain(init, subs[i]);
        assert(init[i] == subs[i]);
        assert(init.contains(subs[i]));
        let part = immediate_part(init);
        let k = choose|k: int| 0 <= k < part.len() && part[k] == subs[i];
        (k, part.len() as int)
    }
}

/// Nothing to poll is no failure: without subscriptions and without a
/// deadline the poll succeeds, hands out no event and asks for no wait,
/// whatever the platform.
pub proof fn lemma_poll_noop(platform: Platform)
    ensures
        poll_error(platform, None, Seq::empty()) is None,
        poll_events(platform, None, Seq::empty()) == Seq::<ResultEvent>::empty(),
        !poll_waits(platform, None, Seq::empty()),
{
    lemma_parts_empty();
}

/// A poll with a subscription on anything but standard input never asks its
/// caller to wait, whatever the deadline, the platform and the other
/// subscriptions.
pub proof fn lemma_poll_priority(
    platform: Platform,
    timeout: Option<TimeoutSpec>,
    subs: Seq<Subscription>,
    i: int,
)
    requires
        0 <= i < subs.len(),
        subs[i].descriptor !is StandardInput,
    ensures
        !poll_waits(platform, timeout, subs),
{
    let part = immediate_part(subs);
    lemma_parts_contain(subs, subs[i]);
    assert(subs.contains(subs[i]));
    let j = choose|j: int| 0 <= j < part.len() && part[j] == subs[i];
}

/// A poll that does not fail answers every subscription that needs no wait:
/// its events hold the event of that subscription.
pub proof fn lemma_poll_answers(
    platform: Platform,
    timeout: Option<TimeoutSpec>,
    subs: Seq<Subscription>,
    i: int,
)
    requires
        0 <= i < subs.len(),
        !wait_required(subs[i]),
        poll_error(platform, timeout, subs) is None,
    ensures
        poll_events(platform, timeout, subs).contains(immediate_event(subs[i])),
{
    let part = immediate_part(subs);
    lemma_parts_contain(subs, subs[i]);
    assert(subs.contains(subs[i]));
    let j = choose|j: int| 0 <= j < part.len() && part[j] == subs[i];
    assert(events_of(part)[j] == immediate_event(subs[i]));
}

/// A read of a sized resource is answered with the length of the resource: a
/// poll that does not fail hands out a read event with exactly that many bytes.
pub proof fn lemma_poll_reports_length(
    platform: Platform,
    timeout: Option<TimeoutSpec>,
    subs: Seq<Subscription>,
    i: int,
    length: u64,
)
    requires
        0 <= i < subs.len(),
        subs[i].interest is Read,
        subs[i].descriptor == (Descriptor::FileLike { length: Some(length) }),
        poll_error(platform, timeout, subs) is None,
    ensures
        poll_events(platform, timeout, subs).contains(
            ResultEvent {
                userdata: subs[i].userdata,
                kind: EventKind::Read,
                status: ESUCCESS,
                nbytes: length,
                flags: 0,
            },
        ),
{
    lemma_poll_answers(platform, timeout, subs, i);
}

/// A read of a sized resource whose size query failed fails the whole poll: no
/// event is handed out, and none reports zero bytes in its place.
pub proof fn lemma_poll_failed_query(
    platform: Platform,
    timeout: Option<TimeoutSpec>,
    subs: Seq<Subscription>,
    i: int,
)
    requires
        0 <= i < subs.len(),
        subs[i].interest is Read,
        subs[i].descriptor == (Descriptor::FileLike { length: None }),
    ensures
        poll_error(platform, timeout, subs) is Some,
        !(timeout matches Some(t) && clock_of(t.clock_id) is None) ==> poll_error(
            platform,
            timeout,
            subs,
        ) == Some(ErrorKind::ResourceFault),
        poll_events(platform, timeout, subs) == Seq::<ResultEvent>::empty(),
{
    assert(subs[i].spec_strategy() is QueryFailed);
}

/// A write never waits and never fails: whatever the resource, the
/// subscription is ready at once with no bytes to report.
pub proof fn lemma_write_is_ready(s: Subscription)
    requires
        s.interest is Write,
    ensures
        s.spec_strategy() == (Strategy::Ready { nbytes: 0 }),
        immediate_event(s) == (ResultEvent {
            userdata: s.userdata,
            kind: EventKind::Write,
            status: ESUCCESS,
            nbytes: 0,
            flags: 0,
        }),
{
}

/// A poll that does not fail answers every write with a write event that
/// reports no bytes.
pub proof fn lemma_poll_answers_write(
    platform: Platform,
    timeout: Option<TimeoutSpec>,
    subs: Seq<Subscription>,
    i: int,
)
    requires
        0 <= i < subs.len(),
        subs[i].interest is Write,
        poll_error(platform, timeout, subs) is None,
    ensures
        poll_events(platform, timeout, subs).contains(
            ResultEvent {
                userdata: subs[i].userdata,
                kind: EventKind::Write,
                status: ESUCCESS,
                nbytes: 0,
                flags: 0,
            },
        ),
{
    lemma_write_is_ready(subs[i]);
    lemma_poll_answers(platform, timeout, subs, i);
}

/// The events of a poll mirror the order of the subscriptions: of two
/// subscriptions that need no wait, the event of the earlier one comes before
/// the event of the later one.
pub proof fn lemma_poll_keeps_order(
    platform: Platform,
    timeout: Option<TimeoutSpec>,
    subs: Seq<Subscription>,
    i: int,
    j: int,
) -> (at: (int, int))
    requires
        0 <= i < j < subs.len(),
        !wait_required(subs[i]),
        !wait_required(subs[j]),
        poll_error(platform, timeout, subs) is None,
    ensures
        0 <= at.0 < at.1 < poll_events(platform, timeout, subs).len(),
        poll_events(platform, timeout, subs)[at.0] == immediate_event(subs[i]),
        poll_events(platform, timeout, subs)[at.1] == immediate_event(subs[j]),
{
    lemma_immediate_part_keeps_order(subs, i, j)
}

/// A poll that does not fail hands out exactly one event for each subscription
/// that needs no wait, and none for the others.
pub proof fn lemma_poll_event_count(
    platform: Platform,
    timeout: Option<TimeoutSpec>,
    subs: Seq<Subscription>,
)
    requires
        poll_error(platform, timeout, subs) is None,
    ensures
        poll_events(platform, timeout, subs).len() == immediate_part(subs).len(),
        immediate_part(subs).len() + wait_part(subs).len() == subs.len(),
{
    lemma_parts_lengths(subs);
}

} // verus!
