use hmac::Mac;
use ogurpchik::handshake::{server_open, ClientEvent, ClientMachine, HandshakeMode, ServerMachine, PeerIdentity};
use ogurpchik::wire::{decode_client_auth, decode_hello};
use ogurpchik::error::{EndpointError, HandshakeError, RemoteErrorKind, RemoteMessage, TransportError};
use ogurpchik::gate::{ConnectionGate, ConnectionMode};

#[test]
fn error_texts() {
    assert_eq!(EndpointError::InvalidServiceName.description(), "invalid service name");
    assert_eq!(TransportError::Connect.description(), "failed to connect");
    assert_eq!(HandshakeError::SchemeMismatch.description(), "handshake auth scheme mismatch");
    assert_eq!(
        HandshakeError::ConnectionLimitReached.description(),
        "connection rejected: server is in one-to-one mode"
    );
    assert_eq!(RemoteErrorKind::Unimplemented.debug_name(), "Unimplemented");
    assert_eq!(RemoteMessage("peer text".to_string()).text(), "peer text");
}

#[test]
fn client_proof_is_the_hmac_of_the_nonce() {
    let secret = b"Jefe".to_vec();
    let mut server = ServerMachine::new(HandshakeMode::hmac(secret.clone()));
    let hello = server_open(&mut server, PeerIdentity::Unknown).expect("hello");
    let (_, _, nonce) = decode_hello(&hello.frame[4..]).expect("hello body");
    assert_eq!(nonce.len(), 32);

    let mut client = ClientMachine::new(HandshakeMode::hmac(secret.clone()));
    client.step(ClientEvent::Begin);
    let auth = client
        .step(ClientEvent::Packet { body: Ok(hello.frame[4..].to_vec()) })
        .expect("auth");
    let (_, scheme, proof) = decode_client_auth(&auth.frame[4..]).expect("auth body");
    assert_eq!(scheme, 1);

    let mut message = b"ogurpchik/handshake/v1".to_vec();
    message.extend_from_slice(&[1, 0]);
    message.extend_from_slice(&nonce);
    let mut mac = <hmac::Hmac<sha2::Sha256> as Mac>::new_from_slice(&secret).unwrap();
    mac.update(&message);
    assert_eq!(proof, mac.finalize().into_bytes().to_vec());
    assert_ne!(proof, message);
}

#[test]
fn gate_admits_one_at_a_time_in_one_to_one_mode() {
    let mut gate = ConnectionGate::new(ConnectionMode::OneToOne);
    let lease = gate.try_acquire().expect("first");
    assert!(gate.try_acquire().is_none());
    gate.release(lease);
    assert!(gate.try_acquire().is_some());
    let mut many = ConnectionGate::new(ConnectionMode::OneToMany);
    assert!(many.try_acquire().is_some());
    assert!(many.try_acquire().is_some());
    assert!(!many.is_active());
}
