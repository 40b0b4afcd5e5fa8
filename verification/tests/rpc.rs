use ogurpchik::error::{RemoteErrorKind, RpcError};
use ogurpchik::rpc::{
    default_reader_limits, default_reader_options, from_capnp_exception, outgoing_exception,
    remote_error, to_capnp_exception, Exception, ExceptionKind,
};

#[test]
fn outgoing_exception_never_carries_attachments() {
    // A handler error whose details include a socket path: only the
    // context's own description is handed over, so the path cannot leak.
    let details = "socket path: /run/user/1000/very-secret-service.sock";
    assert!(details.contains("secret"));
    let description = RpcError::Handler.description();
    let exception = to_capnp_exception(&description, Some(RpcError::Handler));

    assert_eq!(exception.kind, capnp::ErrorKind::Failed);
    assert!(!exception.extra.contains("secret"));
    assert!(!exception.extra.contains("/run/user"));
    assert_eq!(exception.extra, RpcError::Handler.description());
}

#[test]
fn unimplemented_maps_to_capnp_unimplemented() {
    let exception = to_capnp_exception(
        &RpcError::Unimplemented.description(),
        Some(RpcError::Unimplemented),
    );
    assert_eq!(exception.kind, capnp::ErrorKind::Unimplemented);
}

#[test]
fn incoming_exception_roundtrip_preserves_kind_and_message() {
    let incoming_error = capnp::Error::disconnected("peer went away".to_string());
    let (error, msg) = from_capnp_exception(&incoming_error);

    assert!(matches!(error, RpcError::Remote { kind: RemoteErrorKind::Disconnected }));
    assert_eq!(msg.0, "peer went away");
}

#[test]
fn remote_forwarded_as_disconnected_not_local_failure() {
    let (incoming, _msg) = from_capnp_exception(&capnp::Error::failed("upstream broke".to_string()));
    let outgoing = to_capnp_exception(&incoming.description(), Some(incoming));
    assert_eq!(outgoing.kind, capnp::ErrorKind::Disconnected);
}

#[test]
fn every_capnp_kind_is_reported() {
    let cases = [
        (capnp::Error::failed("a".to_string()), RemoteErrorKind::Failed),
        (capnp::Error::overloaded("b".to_string()), RemoteErrorKind::Overloaded),
        (capnp::Error::disconnected("c".to_string()), RemoteErrorKind::Disconnected),
        (capnp::Error::unimplemented("d".to_string()), RemoteErrorKind::Unimplemented),
        (
            capnp::Error::from_kind(capnp::ErrorKind::MessageSizeOverflow),
            RemoteErrorKind::Other,
        ),
    ];
    for (err, kind) in cases {
        let (e, _) = from_capnp_exception(&err);
        assert_eq!(e, RpcError::Remote { kind });
    }
}

#[test]
fn errors_without_an_rpc_layer_go_out_as_failed() {
    let e = to_capnp_exception("failed to connect", None);
    assert_eq!(e.kind, capnp::ErrorKind::Failed);
    assert_eq!(e.extra, "failed to connect");
    let setup = outgoing_exception("x", Some(RpcError::Setup));
    assert_eq!(setup.kind, ExceptionKind::Failed);
    let limit = outgoing_exception("y", Some(RpcError::LimitExceeded));
    assert_eq!(limit.kind, ExceptionKind::Failed);
}

#[test]
fn internal_kinds_read_as_other() {
    let exception = Exception { kind: ExceptionKind::Internal, extra: "decode".to_string() };
    let (e, msg) = remote_error(&exception);
    assert_eq!(e, RpcError::Remote { kind: RemoteErrorKind::Other });
    assert_eq!(msg.text(), "decode");
}

#[test]
fn reader_limits_are_tightened() {
    let limits = default_reader_limits();
    assert_eq!(limits.traversal_limit_in_words, Some(1024 * 1024));
    assert_eq!(limits.nesting_limit, 32);
    let options = default_reader_options();
    assert_eq!(options.traversal_limit_in_words, Some(1048576));
    assert_eq!(options.nesting_limit, 32);
}

#[test]
fn remote_error_description_names_the_kind() {
    let e = RpcError::Remote { kind: RemoteErrorKind::Overloaded };
    assert_eq!(e.description(), "remote rpc error (Overloaded)");
    assert_eq!(RpcError::Setup.description(), "failed to establish rpc connection");
}

#[test]
fn reader_options_carry_the_given_limits() {
    let limits = ogurpchik::rpc::ReaderLimits { traversal_limit_in_words: None, nesting_limit: 7 };
    let options = limits.to_reader_options();
    assert_eq!(options.traversal_limit_in_words, None);
    assert_eq!(options.nesting_limit, 7);
}

#[test]
fn outgoing_text_is_exactly_the_description() {
    for (rpc, kind) in [
        (Some(RpcError::Unimplemented), capnp::ErrorKind::Unimplemented),
        (Some(RpcError::Remote { kind: RemoteErrorKind::Failed }), capnp::ErrorKind::Disconnected),
        (Some(RpcError::Handler), capnp::ErrorKind::Failed),
    ] {
        let e = to_capnp_exception("short text", rpc);
        assert_eq!(e.kind, kind);
        assert_eq!(e.extra, "short text");
    }
}
