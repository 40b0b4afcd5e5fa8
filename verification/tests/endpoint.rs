use ogurpchik::endpoint::{
    connect_retry_decision, decimal_string, join_path, validate_name, Endpoint, NamedPipePath,
    RetryDecision, ServiceConvention,
};
use ogurpchik::error::EndpointError;

fn unix_convention() -> ServiceConvention {
    ServiceConvention::UnixSocket { runtime_dir: "/run/user/1000/myapp".to_string() }
}

#[test]
fn service_name_validation() {
    assert!(Endpoint::for_service("myapp", "metrics-v2", &unix_convention()).is_ok());
    let long = "x".repeat(65);
    for bad in ["", "a/b", "a\\b", "a b", "a.b", "a:b", long.as_str()] {
        let err = Endpoint::for_service("myapp", bad, &unix_convention())
            .expect_err("invalid service name must be rejected");
        assert!(matches!(err, EndpointError::InvalidServiceName));
    }
}

#[test]
fn windows_convention_is_named_pipe() {
    match Endpoint::for_service("myapp", "metrics", &ServiceConvention::NamedPipe).unwrap() {
        Endpoint::Npipe(name) => assert_eq!(name, r"\\.\pipe\myapp.metrics"),
        other => panic!("expected npipe, got {}", other.describe()),
    }
}

#[test]
fn unix_convention_is_uds_in_runtime_dir() {
    match Endpoint::for_service("myapp", "metrics", &unix_convention()).unwrap() {
        Endpoint::Uds(path) => assert!(path.ends_with("myapp/metrics.sock")),
        other => panic!("expected uds, got {}", other.describe()),
    }
}

#[test]
fn names_of_64_characters_are_accepted() {
    assert_eq!(validate_name(&"a".repeat(64)), Ok(()));
    assert_eq!(validate_name("A_b-9"), Ok(()));
    assert_eq!(validate_name("é"), Err(EndpointError::InvalidServiceName));
}

#[test]
fn endpoint_kinds_and_descriptions() {
    let host = Endpoint::vsock_to_host(5000);
    assert_eq!(host.kind(), "vsock");
    assert_eq!(host.describe(), "vsock Cid(2):5000");
    assert_eq!(Endpoint::Tcp("127.0.0.1:9000".to_string()).describe(), "tcp 127.0.0.1:9000");
    assert_eq!(Endpoint::Uds("/tmp/x.sock".to_string()).kind(), "uds");
    assert_eq!(Endpoint::Npipe(r"\\.\pipe\a".to_string()).kind(), "npipe");
}

#[test]
fn join_path_puts_one_slash() {
    assert_eq!(join_path("/run", "x"), "/run/x");
    assert_eq!(join_path("/run/", "x"), "/run/x");
    assert_eq!(decimal_string(0), "0");
    assert_eq!(decimal_string(18446744073709551615), "18446744073709551615");
}

#[test]
fn named_pipe_paths_get_the_pipe_prefix() {
    assert_eq!(NamedPipePath::new("roundtrip".to_string()).as_str(), r"\\.\pipe\roundtrip");
    assert_eq!(NamedPipePath::new(r"\\.\pipe\x".to_string()).as_str(), r"\\.\pipe\x");
}

#[test]
fn connect_retry_backs_off_until_the_deadline() {
    match connect_retry_decision(0, 10_000_000, 5_000_000_000) {
        RetryDecision::Retry { delay_ns, next_delay_ns } => {
            assert_eq!(delay_ns, 10_000_000);
            assert_eq!(next_delay_ns, 20_000_000);
        }
        RetryDecision::GiveUp => panic!("must retry"),
    }
    assert!(matches!(
        connect_retry_decision(4_995_000_000, 10_000_000, 5_000_000_000),
        RetryDecision::GiveUp
    ));
    match connect_retry_decision(0, 800_000_000, 5_000_000_000) {
        RetryDecision::Retry { next_delay_ns, .. } => assert_eq!(next_delay_ns, 1_000_000_000),
        RetryDecision::GiveUp => panic!("must retry"),
    }
}
