use ogurpchik::gate::ConnectionMode;
use ogurpchik::handshake::HandshakeMode;
use ogurpchik::node::{setup, Node};

#[test]
fn server_builder_defaults_and_steps() {
    let b = setup::<&str>();
    assert_eq!(b.cores(), 1);
    let b = b.threads(4).with_registry("reg").with_handshake(HandshakeMode::version_only()).one_to_one();
    assert_eq!(b.cores(), 4);
    assert_eq!(b.connection_gate().mode(), ConnectionMode::OneToOne);
    let b = b.service(|x: u32| x + 1).with_transport("tcp").single_thread().one_to_many();
    let (cores, handler, transport, registry, handshake, mode) = b.into_parts();
    assert_eq!(cores, 1);
    assert_eq!(handler(1), 2);
    assert_eq!(transport, Some("tcp"));
    assert_eq!(registry, Some("reg"));
    assert!(matches!(handshake, HandshakeMode::VersionOnly));
    assert_eq!(mode, ConnectionMode::OneToMany);
}

#[test]
fn node_builder_collects_serve_and_connect() {
    let node = Node::new("kv").threads(2).serve("uds", "handler").connect("tcp");
    let node = node.publish("svc".to_string()).wait_for("other".to_string()).timeout(30);
    let (serve, connect, kv, threads) = node.into_parts();
    assert_eq!(kv, "kv");
    assert_eq!(threads, 2);
    assert_eq!(connect.client_config().timeout_seconds, 30);
    let (transport, handler, name) = serve.into_parts();
    assert_eq!((transport, handler, name.as_str()), ("uds", "handler", "svc"));
    let (ct, wait_for) = connect.into_parts();
    assert_eq!(ct, "tcp");
    assert_eq!(wait_for.as_deref(), Some("other"));
}

#[test]
fn connect_without_settings_uses_defaults() {
    let (_, connect, _, threads) = Node::new(()).single_thread().connect(5u8).into_parts();
    assert_eq!(threads, 1);
    assert_eq!(connect.client_config().timeout_seconds, 10);
    let (_, _, _, _) = Node::new(()).kv(()).into_parts();
    let (serve, _, _, _) = Node::new(()).serve(1u8, 2u8).into_parts();
    let (_, _, name) = serve.into_parts();
    assert_eq!(name, "");
}
