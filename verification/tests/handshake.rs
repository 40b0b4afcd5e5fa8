use ogurpchik::error::HandshakeError;
use ogurpchik::handshake::{
    reject_connection, server_open, ClientEvent, ClientMachine, HandshakeMode, PeerIdentity,
    ServerEvent, ServerMachine, ServerState,
};
use ogurpchik::wire::{decode_ack, decode_ack_packet, decode_hello, encode_client_auth, frame_body_len};

/// The body of a frame the machines produced, after checking its header.
fn body(frame: &[u8]) -> Vec<u8> {
    let header = [frame[0], frame[1], frame[2], frame[3]];
    let n = frame_body_len(header).expect("header within limits") as usize;
    assert_eq!(n, frame.len() - 4);
    frame[4..].to_vec()
}

/// Runs both machines against each other in memory, the server seeing the
/// client as `peer`. Returns (client outcome, server outcome).
fn exchange(
    server_mode: HandshakeMode,
    client_mode: HandshakeMode,
    peer: PeerIdentity,
) -> (Option<Result<(), HandshakeError>>, Option<Result<(), HandshakeError>>) {
    let mut server = ServerMachine::new(server_mode);
    let mut client = ClientMachine::new(client_mode);
    let mut to_client = server_open(&mut server, peer).map(|o| o.frame);
    let mut to_server = client.step(ClientEvent::Begin).map(|o| o.frame);
    for _ in 0..4 {
        if let Some(f) = to_client.take() {
            if client.outcome().is_none() {
                to_server = client.step(ClientEvent::Packet { body: Ok(body(&f)) }).map(|o| o.frame);
            }
        }
        if let Some(f) = to_server.take() {
            if server.outcome().is_none() {
                to_client = server.step(ServerEvent::Packet { body: Ok(body(&f)) }).map(|o| o.frame);
            }
        }
    }
    (client.outcome(), server.outcome())
}

#[test]
fn hmac_handshake_ok() {
    let (client, server) = exchange(
        HandshakeMode::hmac(b"shared-secret".to_vec()),
        HandshakeMode::hmac(b"shared-secret".to_vec()),
        PeerIdentity::Unknown,
    );
    client.expect("client finished").expect("client handshake failed");
    server.expect("server finished").expect("server handshake failed");
}

#[test]
fn hmac_wrong_secret_is_rejected() {
    let (client, server) = exchange(
        HandshakeMode::hmac(b"right".to_vec()),
        HandshakeMode::hmac(b"wrong".to_vec()),
        PeerIdentity::Unknown,
    );
    let client_err = client.unwrap().expect_err("client must be rejected");
    assert!(matches!(client_err, HandshakeError::Rejected));
    let server_err = server.unwrap().expect_err("server must reject");
    assert!(matches!(server_err, HandshakeError::InvalidProof));
}

#[test]
fn scheme_mismatch_is_detected_by_client() {
    let (client, _server) = exchange(
        HandshakeMode::hmac(b"s".to_vec()),
        HandshakeMode::version_only(),
        PeerIdentity::Unknown,
    );
    let client_err = client.unwrap().expect_err("client must detect the scheme mismatch");
    assert!(matches!(client_err, HandshakeError::SchemeMismatch));
}

#[test]
fn signed_process_refused_on_unattestable_transport() {
    let mut server = ServerMachine::new(HandshakeMode::signed_process(vec![0u8; 32]));
    let out = server_open(&mut server, PeerIdentity::Unknown);
    assert!(out.is_none(), "nothing may be sent before refusing");
    let err = server
        .outcome()
        .expect("finished at once")
        .expect_err("signed-process on tcp must be refused");
    assert!(matches!(err, HandshakeError::PeerAttestationUnavailable));
}

#[test]
fn version_only_handshake_ok() {
    let (client, server) = exchange(
        HandshakeMode::version_only(),
        HandshakeMode::version_only(),
        PeerIdentity::Unknown,
    );
    assert_eq!(client, Some(Ok(())));
    assert_eq!(server, Some(Ok(())));
}

#[test]
fn disabled_handshake_sends_nothing() {
    let mut server = ServerMachine::new(HandshakeMode::Disabled);
    assert!(server_open(&mut server, PeerIdentity::Pid { pid: 7 }).is_none());
    assert_eq!(server.outcome(), Some(Ok(())));
    let mut client = ClientMachine::new(HandshakeMode::Disabled);
    assert!(client.step(ClientEvent::Begin).is_none());
    assert_eq!(client.outcome(), Some(Ok(())));
}

#[test]
fn signed_process_handshake_consults_the_os_verdict() {
    for verdict in [Ok(()), Err(HandshakeError::SignedProcessVerificationFailed)] {
        let key = vec![9u8; 32];
        let mut server = ServerMachine::new(HandshakeMode::signed_process(key.clone()));
        let mut client = ClientMachine::new(HandshakeMode::signed_process(key));
        let hello = server_open(&mut server, PeerIdentity::Pid { pid: 4242 }).expect("hello");
        assert!(client.step(ClientEvent::Begin).is_none());
        let auth = client.step(ClientEvent::Packet { body: Ok(body(&hello.frame)) }).expect("auth");
        // The client's proof is ignored: the server waits for the OS check.
        assert!(server.step(ServerEvent::Packet { body: Ok(body(&auth.frame)) }).is_none());
        assert!(server.outcome().is_none());
        let ack = server.step(ServerEvent::ProcessChecked { verdict }).expect("ack");
        assert_eq!(server.outcome(), Some(verdict));
        client.step(ClientEvent::Packet { body: Ok(body(&ack.frame)) });
        match verdict {
            Ok(()) => assert_eq!(client.outcome(), Some(Ok(()))),
            Err(_) => assert_eq!(client.outcome(), Some(Err(HandshakeError::Rejected))),
        }
    }
}

#[test]
fn read_failure_ends_the_server_handshake() {
    let mut server = ServerMachine::new(HandshakeMode::version_only());
    server_open(&mut server, PeerIdentity::Unknown).expect("hello");
    assert!(server.step(ServerEvent::Packet { body: Err(HandshakeError::Timeout) }).is_none());
    assert_eq!(server.outcome(), Some(Err(HandshakeError::Timeout)));
}

#[test]
fn failed_send_of_the_final_ack_is_an_io_error() {
    let mut server = ServerMachine::new(HandshakeMode::version_only());
    let mut client = ClientMachine::new(HandshakeMode::version_only());
    let hello = server_open(&mut server, PeerIdentity::Unknown).expect("hello");
    client.step(ClientEvent::Begin);
    let auth = client.step(ClientEvent::Packet { body: Ok(body(&hello.frame)) }).expect("auth");
    let ack = server.step(ServerEvent::Packet { body: Ok(body(&auth.frame)) }).expect("ack");
    assert!(ack.must_deliver);
    server.step(ServerEvent::SendFailed);
    assert_eq!(server.outcome(), Some(Err(HandshakeError::Io)));
}

#[test]
fn reject_connection_carries_its_reason() {
    let frame = reject_connection("Connection rejected: server is in one-to-one mode");
    let (status, reason) = decode_ack_packet(&body(&frame)).expect("an ack");
    assert_eq!(status, 1);
    assert_eq!(reason, b"Connection rejected: server is in one-to-one mode".to_vec());
}

#[test]
fn scheme_ids_follow_the_mode() {
    assert_eq!(HandshakeMode::Disabled.scheme_id(), 0);
    assert_eq!(HandshakeMode::version_only().scheme_id(), 0);
    assert_eq!(HandshakeMode::hmac(vec![1]).scheme_id(), 1);
    assert_eq!(HandshakeMode::signed_process(vec![0; 32]).scheme_id(), 2);
}

/// The server attests the PID the OS reported; a different PID in the
/// client's proof changes nothing.
#[test]
fn signed_process_uses_os_pid_not_wire_pid() {
    let public_key = vec![7u8; 32];
    let mut server = ServerMachine::new(HandshakeMode::signed_process(public_key));
    let hello = server_open(&mut server, PeerIdentity::Pid { pid: 4242 }).expect("hello");
    let (_version, scheme, _nonce) = decode_hello(&body(&hello.frame)).expect("decode hello");
    let forged_proof = 0xDEADu32.to_le_bytes(); // "my pid is 57005, trust me"
    let forged = encode_client_auth(scheme, &forged_proof);
    assert!(server.step(ServerEvent::Packet { body: Ok(forged) }).is_none());
    match server.state() {
        ServerState::AwaitProcessCheck { pid } => assert_eq!(*pid, 4242),
        _ => panic!("the server must attest the OS-reported process"),
    }
    let ack = server.step(ServerEvent::ProcessChecked { verdict: Ok(()) }).expect("ack");
    decode_ack(&body(&ack.frame)).expect("forged wire PID must be ignored, not trusted");
    assert_eq!(server.outcome(), Some(Ok(())));
}

#[test]
fn rejected_client_keeps_the_servers_reason() {
    let mut server = ServerMachine::new(HandshakeMode::hmac(b"right".to_vec()));
    let mut client = ClientMachine::new(HandshakeMode::hmac(b"wrong".to_vec()));
    let hello = server_open(&mut server, PeerIdentity::Unknown).expect("hello");
    client.step(ClientEvent::Begin);
    assert_eq!(client.rejection_reason(), None);
    let auth = client.step(ClientEvent::Packet { body: Ok(body(&hello.frame)) }).expect("auth");
    let ack = server.step(ServerEvent::Packet { body: Ok(body(&auth.frame)) }).expect("ack");
    client.step(ClientEvent::Packet { body: Ok(body(&ack.frame)) });
    assert_eq!(client.outcome(), Some(Err(HandshakeError::Rejected)));
    assert_eq!(client.rejection_reason(), Some(b"invalid handshake proof".to_vec()));
}

#[test]
fn immediate_rejection_keeps_its_reason() {
    let frame = reject_connection("Connection rejected: server is in one-to-one mode");
    let mut client = ClientMachine::new(HandshakeMode::version_only());
    client.step(ClientEvent::Begin);
    assert!(client.step(ClientEvent::Packet { body: Ok(body(&frame)) }).is_none());
    assert_eq!(client.outcome(), Some(Err(HandshakeError::Rejected)));
    assert_eq!(
        client.rejection_reason(),
        Some(b"Connection rejected: server is in one-to-one mode".to_vec())
    );
}
