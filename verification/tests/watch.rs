use ogurpchik::text::parse_reg_value;
use ogurpchik::watch::{event_signals, find_bytes, FileEvent, PollAction, PollOutcome, RegistryPoll};

const QUERY_OUTPUT: &str = "\r\nHKEY_CURRENT_USER\\Software\\Ogurpchik\\Services\\svc\r\n    value    REG_SZ    {\"transport_kind\":\"tcp\"}\r\n\r\n";

#[test]
fn reg_query_output_is_parsed() {
    assert_eq!(parse_reg_value(QUERY_OUTPUT), Some("{\"transport_kind\":\"tcp\"}".to_string()));
    assert_eq!(parse_reg_value("no value here\n"), None);
    assert_eq!(parse_reg_value("    value    REG_SZ    a REG_SZ b"), Some("a".to_string()));
}

#[test]
fn registry_poll_signals_each_change_once() {
    let mut poll = RegistryPoll::new();
    let first = PollOutcome::Succeeded { stdout: QUERY_OUTPUT.as_bytes().to_vec() };
    assert_eq!(poll.on_poll(&first), PollAction::Signal);
    assert_eq!(poll.on_poll(&first), PollAction::Quiet);
    let other = PollOutcome::Succeeded {
        stdout: "    value    REG_SZ    other\r\n".as_bytes().to_vec(),
    };
    assert_eq!(poll.on_poll(&other), PollAction::Signal);
    assert_eq!(poll.on_poll(&other), PollAction::Quiet);
}

#[test]
fn registry_poll_retries_a_missing_key_and_stops_on_errors() {
    let mut poll = RegistryPoll::new();
    let missing = PollOutcome::Failed {
        stdout: b"x".to_vec(),
        stderr: b"ERROR: The system was unable to find the specified registry key or value.".to_vec(),
    };
    assert_eq!(poll.on_poll(&missing), PollAction::Retry);
    let empty = PollOutcome::Failed { stdout: vec![], stderr: b"whatever".to_vec() };
    assert_eq!(poll.on_poll(&empty), PollAction::Retry);
    let code = PollOutcome::Failed { stdout: b"x".to_vec(), stderr: b"ERROR_FILE_NOT_FOUND".to_vec() };
    assert_eq!(poll.on_poll(&code), PollAction::Retry);
    let fatal = PollOutcome::Failed { stdout: b"x".to_vec(), stderr: b"Access is denied.".to_vec() };
    assert_eq!(poll.on_poll(&fatal), PollAction::Stop);
    assert_eq!(poll.on_poll(&PollOutcome::SpawnFailed), PollAction::Stop);
}

#[test]
fn byte_search() {
    assert!(find_bytes(b"abcdef", b"cde"));
    assert!(find_bytes(b"abc", b""));
    assert!(!find_bytes(b"abc", b"abcd"));
    assert!(!find_bytes(b"abcabd", b"abe"));
}

#[test]
fn tmpfs_events_for_the_key_file_signal() {
    let ev = |name: Option<&str>, created: bool, modified: bool, moved_to: bool| FileEvent {
        name: name.map(|n| n.to_string()),
        created,
        modified,
        moved_to,
    };
    assert!(event_signals(&ev(Some("svc"), true, false, false), "svc"));
    assert!(event_signals(&ev(Some("svc"), false, true, false), "svc"));
    assert!(event_signals(&ev(Some("svc"), false, false, true), "svc"));
    assert!(!event_signals(&ev(Some("svc"), false, false, false), "svc"));
    assert!(!event_signals(&ev(Some("other"), true, true, true), "svc"));
    assert!(!event_signals(&ev(None, true, true, true), "svc"));
}
