use ogurpchik::gate::{ConnectionGate, ConnectionMode};
use ogurpchik::wire::decode_ack_packet;
use ogurpchik::worker::{AcceptAction, AcceptEvent, ServerWorker, ACCEPT_BACKOFF_MILLIS};

#[test]
fn one_to_one_server_turns_the_second_client_away() {
    let mut gate = ConnectionGate::new(ConnectionMode::OneToOne);
    let lease = match ServerWorker::on_accept(&mut gate, AcceptEvent::Connected) {
        AcceptAction::Authenticate { lease } => lease,
        _ => panic!("first connection must be admitted"),
    };
    assert!(lease.holds_slot());
    match ServerWorker::on_accept(&mut gate, AcceptEvent::Connected) {
        AcceptAction::Reject { frame } => {
            let (status, reason) = decode_ack_packet(&frame[4..]).expect("an ack");
            assert_eq!(status, 1);
            assert_eq!(reason, b"Connection rejected: server is in one-to-one mode".to_vec());
        }
        _ => panic!("second connection must be rejected"),
    }
    gate.release(lease);
    assert!(matches!(
        ServerWorker::on_accept(&mut gate, AcceptEvent::Connected),
        AcceptAction::Authenticate { .. }
    ));
}

#[test]
fn failed_handshake_frees_the_slot() {
    let mut gate = ConnectionGate::new(ConnectionMode::OneToOne);
    let lease = match ServerWorker::on_accept(&mut gate, AcceptEvent::Connected) {
        AcceptAction::Authenticate { lease } => lease,
        _ => panic!("admitted"),
    };
    assert!(ServerWorker::on_handshake_done(&mut gate, lease, false).is_none());
    assert!(!gate.is_active());
    let lease = match ServerWorker::on_accept(&mut gate, AcceptEvent::Connected) {
        AcceptAction::Authenticate { lease } => lease,
        _ => panic!("admitted again"),
    };
    let kept = ServerWorker::on_handshake_done(&mut gate, lease, true);
    assert!(kept.is_some());
    assert!(gate.is_active());
}

#[test]
fn accept_errors_back_off() {
    let mut gate = ConnectionGate::new(ConnectionMode::OneToMany);
    for event in [AcceptEvent::AcceptFailed, AcceptEvent::SplitFailed] {
        match ServerWorker::on_accept(&mut gate, event) {
            AcceptAction::BackOff { millis } => assert_eq!(millis, ACCEPT_BACKOFF_MILLIS),
            _ => panic!("must back off"),
        }
    }
    assert_eq!(ACCEPT_BACKOFF_MILLIS, 1000);
    for _ in 0..3 {
        match ServerWorker::on_accept(&mut gate, AcceptEvent::Connected) {
            AcceptAction::Authenticate { lease } => assert!(!lease.holds_slot()),
            _ => panic!("one-to-many admits all"),
        }
    }
    assert_eq!(gate.mode(), ConnectionMode::OneToMany);
    assert_eq!(ConnectionMode::default(), ConnectionMode::OneToMany);
}

#[test]
fn workers_sharing_one_state_run_one_session_at_a_time() {
    let mut shared = ConnectionGate::new(ConnectionMode::OneToOne);
    let mut admitted = Vec::new();
    for _ in 0..5 {
        if let AcceptAction::Authenticate { lease } = ServerWorker::on_accept(&mut shared, AcceptEvent::Connected) {
            admitted.push(lease);
        }
    }
    assert_eq!(admitted.len(), 1);
    shared.release(admitted.pop().unwrap());
    assert!(matches!(
        ServerWorker::on_accept(&mut shared, AcceptEvent::Connected),
        AcceptAction::Authenticate { .. }
    ));
}
