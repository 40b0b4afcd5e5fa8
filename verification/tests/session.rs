use ogurpchik::session::{
    finish_wait, reply_for, route_inbound, CallError, ClientConfig, Envelope, Inbound, NoOpHandler,
    PendingCalls, Priority, ResponseGuard, RoundRobin, StartupReport, StartupStep, StartupTally,
    WaitOutcome,
};

type Env = Envelope<String, u32>;

#[test]
fn response_reaches_the_waiting_call_once() {
    let mut pending: PendingCalls<&str> = PendingCalls::new();
    let a = pending.register("first");
    let b = pending.register("second");
    assert_eq!((a, b), (0, 1));
    assert_eq!(pending.len(), 2);

    match route_inbound(&mut pending, Some(Env::Response { id: 1, payload: 7 })) {
        Inbound::Deliver { id, waiter } => assert_eq!((id, waiter), (1, "second")),
        _ => panic!("must deliver"),
    }
    match route_inbound(&mut pending, Some(Env::Response { id: 1, payload: 7 })) {
        Inbound::Unclaimed { id } => assert_eq!(id, 1),
        _ => panic!("second response must be unclaimed"),
    }
    assert!(pending.is_waiting(0));
    assert_eq!(pending.len(), 1);
}

#[test]
fn requests_and_events_go_to_the_handler() {
    let mut pending: PendingCalls<u8> = PendingCalls::new();
    match route_inbound(&mut pending, Some(Env::Request { id: 9, payload: "ping".to_string() })) {
        Inbound::Handle { reply_to, payload } => {
            assert_eq!(reply_to, Some(9));
            assert_eq!(payload, "ping");
        }
        _ => panic!("must handle"),
    }
    match route_inbound(&mut pending, Some(Env::Event { payload: "tick".to_string() })) {
        Inbound::Handle { reply_to, .. } => assert_eq!(reply_to, None),
        _ => panic!("must handle"),
    }
    assert!(matches!(route_inbound::<String, u32, u8>(&mut pending, None), Inbound::Undecodable));
}

#[test]
fn only_successful_requests_are_answered() {
    match reply_for::<String, u32, ()>(Some(4), Ok(10)) {
        Some(Envelope::Response { id, payload }) => assert_eq!((id, payload), (4, 10)),
        _ => panic!("must answer"),
    }
    assert!(reply_for::<String, u32, ()>(Some(4), Err(())).is_none());
    assert!(reply_for::<String, u32, ()>(None, Ok(10)).is_none());
}

#[test]
fn timed_out_call_leaves_the_table() {
    let mut pending: PendingCalls<u8> = PendingCalls::new();
    let id = pending.register(1);
    assert_eq!(finish_wait(&mut pending, id, WaitOutcome::TimedOut, 10), Err(CallError::Timeout { seconds: 10 }));
    assert!(!pending.is_waiting(id));
    assert!(matches!(
        route_inbound(&mut pending, Some(Env::Response { id, payload: 1 })),
        Inbound::Unclaimed { .. }
    ));
    let id2 = pending.register(2);
    assert_eq!(finish_wait(&mut pending, id2, WaitOutcome::Closed, 10), Err(CallError::ChannelClosed));
    assert_eq!(pending.len(), 0);
    assert_eq!(finish_wait(&mut pending, 77, WaitOutcome::Arrived, 10), Ok(()));
}

#[test]
fn call_errors_read_as_before() {
    assert_eq!(CallError::Timeout { seconds: 10 }.description(), "Request timeout (10s)");
    assert_eq!(CallError::ChannelClosed.description(), "Channel closed");
    assert_eq!(CallError::WorkerGone.description(), "Worker task dropped");
    assert_eq!(CallError::WorkerCancelled.description(), "Worker response cancelled");
    assert_eq!(CallError::InvalidResponse.description(), "Invalid response data");
    assert_eq!(CallError::NotAResponse.description(), "Not a response");
}

#[test]
fn response_guard_accepts_only_responses() {
    let guard = ResponseGuard::try_new(vec![1u8, 2], Some(Env::Response { id: 3, payload: 42 }))
        .expect("a response");
    assert_eq!(*guard.view(), 42);
    assert_eq!(guard.buffer(), &vec![1u8, 2]);
    assert_eq!(
        ResponseGuard::<Vec<u8>, u32>::try_new(vec![], Some(Env::Event { payload: "e".to_string() })).err(),
        Some(CallError::NotAResponse)
    );
    assert_eq!(ResponseGuard::<Vec<u8>, u32>::try_new::<String>(vec![], None).err(), Some(CallError::InvalidResponse));
}

#[test]
fn client_defaults() {
    let c = ClientConfig::default();
    assert_eq!(c.timeout_seconds, 10);
    assert_eq!(c.handshake.scheme_id(), 0);
    assert!(matches!(c.handshake, ogurpchik::handshake::HandshakeMode::Disabled));
    let _ = Priority::Bulk;
}

#[test]
fn round_robin_takes_turns() {
    let mut rr = RoundRobin::new();
    let picks: Vec<usize> = (0..7).map(|_| rr.pick(3)).collect();
    assert_eq!(picks, vec![0, 1, 2, 0, 1, 2, 0]);
}

#[test]
fn startup_needs_every_worker() {
    let mut tally = StartupTally::new(2);
    assert!(!tally.all_ready());
    assert!(matches!(tally.on_report::<String>(StartupReport::Ready { core: 1 }), StartupStep::Waiting));
    assert!(matches!(tally.on_report::<String>(StartupReport::Ready { core: 0 }), StartupStep::AllReady));
    assert!(tally.all_ready());

    let mut failing = StartupTally::new(3);
    failing.on_report::<String>(StartupReport::Ready { core: 0 });
    match failing.on_report(StartupReport::Failed("refused".to_string())) {
        StartupStep::Failed(e) => assert_eq!(e, "refused"),
        _ => panic!("must fail"),
    }
    let mut closed = StartupTally::new(1);
    assert!(matches!(closed.on_report::<String>(StartupReport::ChannelClosed), StartupStep::ChannelClosed));
    assert!(StartupTally::new(0).all_ready());
}

#[test]
fn no_op_handler_refuses() {
    let r: Result<u32, String> = NoOpHandler.on_request("x");
    assert_eq!(r, Err("no op".to_string()));
}
