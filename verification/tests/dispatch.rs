use hostcalls::clock::{clock_res_get, clock_time_get, ClockSource};
use hostcalls::dispatch::{dispatch, hostcall, Hostcall, Reply, TraceRecord};
use hostcalls::error::ErrorKind;
use hostcalls::poll::{poll_oneoff, PollStep};
use hostcalls::subscription::{
    Descriptor, EventKind, Interest, Platform, ResultEvent, Subscription,
};

#[test]
fn each_call_has_its_name() {
    assert_eq!(Hostcall::ClockResGet.name(), "clock_res_get");
    assert_eq!(Hostcall::ClockTimeGet.name(), "clock_time_get");
    assert_eq!(Hostcall::PollOneoff.name(), "poll_oneoff");
}

#[test]
fn success_crosses_as_zero_with_the_value() {
    let reply = dispatch(Hostcall::ClockResGet, Ok(100u64));
    assert_eq!(
        reply,
        Reply {
            status: 0,
            value: Some(100),
            trace: TraceRecord { call: Hostcall::ClockResGet, outcome: Ok(()) },
        }
    );
}

#[test]
fn each_failure_crosses_as_its_code() {
    let cases = [
        (ErrorKind::InvalidArgument, 28u16),
        (ErrorKind::Unsupported, 58),
        (ErrorKind::ResourceFault, 21),
        (ErrorKind::SystemFault, 29),
        (ErrorKind::Internal, 56),
    ];
    for (e, code) in cases {
        let reply = dispatch::<u64>(Hostcall::PollOneoff, Err(e));
        assert_eq!(
            reply,
            Reply {
                status: code,
                value: None,
                trace: TraceRecord { call: Hostcall::PollOneoff, outcome: Err(e) },
            }
        );
    }
}

#[test]
fn hostcall_runs_the_implementation_once() {
    let mut runs = 0;
    let reply = hostcall(Hostcall::ClockTimeGet, || {
        runs += 1;
        Ok::<u64, ErrorKind>(7)
    });
    assert_eq!(runs, 1);
    assert_eq!(reply.status, 0);
    assert_eq!(reply.value, Some(7));
    assert_eq!(reply.trace, TraceRecord { call: Hostcall::ClockTimeGet, outcome: Ok(()) });
}

#[test]
fn hostcall_traces_a_failure_too() {
    let reply = hostcall(Hostcall::ClockTimeGet, || Err::<u64, ErrorKind>(ErrorKind::SystemFault));
    assert_eq!(reply.status, 29);
    assert_eq!(reply.value, None);
    assert_eq!(
        reply.trace,
        TraceRecord { call: Hostcall::ClockTimeGet, outcome: Err(ErrorKind::SystemFault) }
    );
}

#[test]
fn clock_res_get_through_the_boundary() {
    let clocks = ClockSource::new(1_000_000).unwrap();
    let reply = hostcall(Hostcall::ClockResGet, || clock_res_get(&clocks, 0));
    assert_eq!((reply.status, reply.value), (0, Some(55_000_000)));
    let reply = hostcall(Hostcall::ClockResGet, || clock_res_get(&clocks, 1));
    assert_eq!((reply.status, reply.value), (0, Some(1000)));
    let reply = hostcall(Hostcall::ClockResGet, || clock_res_get(&clocks, 4));
    assert_eq!((reply.status, reply.value), (28, None));
    assert_eq!(reply.trace.outcome, Err(ErrorKind::InvalidArgument));
}

#[test]
fn clock_time_get_through_the_boundary() {
    let clocks = ClockSource::new(1_000_000).unwrap();
    let reply = hostcall(Hostcall::ClockTimeGet, || clock_time_get(&clocks, 1));
    assert_eq!(reply.status, 0);
    assert!(reply.value.is_some());
    let reply = hostcall(Hostcall::ClockTimeGet, || clock_time_get(&clocks, 99));
    assert_eq!((reply.status, reply.value), (28, None));
}

#[test]
fn poll_oneoff_through_the_boundary() {
    let platform = Platform { stdin_wait: false };
    let file = Subscription {
        descriptor: Descriptor::FileLike { length: Some(4096) },
        interest: Interest::Read,
        userdata: 1,
    };
    let mut events = Vec::new();
    let reply = hostcall(Hostcall::PollOneoff, || poll_oneoff(&platform, None, vec![file], &mut events));
    assert_eq!(reply.status, 0);
    assert_eq!(reply.value, Some(PollStep::Complete));
    assert_eq!(
        events,
        vec![ResultEvent { userdata: 1, kind: EventKind::Read, status: 0, nbytes: 4096, flags: 0 }]
    );

    let stdin = Subscription { descriptor: Descriptor::StandardInput, interest: Interest::Read, userdata: 2 };
    let mut events = Vec::new();
    let reply = hostcall(Hostcall::PollOneoff, || poll_oneoff(&platform, None, vec![stdin], &mut events));
    assert_eq!(reply.status, 58);
    assert_eq!(reply.value, None);
    assert_eq!(reply.trace, TraceRecord { call: Hostcall::PollOneoff, outcome: Err(ErrorKind::Unsupported) });
    assert_eq!(events, vec![]);
}
