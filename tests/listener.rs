use serial_tool::device::ReadOutcome;
use serial_tool::listener::{classify_read, PollEvent};

#[test]
fn received_bytes_become_text() {
    match classify_read(ReadOutcome::Data(b"PING".to_vec())) {
        PollEvent::DataReceived(t) => assert_eq!(t, "PING"),
        _ => panic!("expected received data"),
    }
}

#[test]
fn invalid_bytes_are_replaced() {
    match classify_read(ReadOutcome::Data(vec![0x4f, 0x4b, 0xff])) {
        PollEvent::DataReceived(t) => assert_eq!(t, "OK\u{FFFD}"),
        _ => panic!("expected received data"),
    }
}

#[test]
fn empty_read_and_timeout_are_quiet() {
    assert!(matches!(classify_read(ReadOutcome::Data(Vec::new())), PollEvent::Quiet));
    assert!(matches!(classify_read(ReadOutcome::TimedOut), PollEvent::Quiet));
}

#[test]
fn other_failure_is_port_error() {
    match classify_read(ReadOutcome::Failed("broken pipe".to_string())) {
        PollEvent::PortError(m) => assert_eq!(m, "broken pipe"),
        _ => panic!("expected a port error"),
    }
}
