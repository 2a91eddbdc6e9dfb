use edp::errors::Error;
use edp::state_machine::ConnectionState;

#[test]
fn test_invalid_state_transition_uses_enum() {
    let error = Error::InvalidStateTransition {
        from: ConnectionState::Disconnected,
        to: ConnectionState::Connected,
    };

    let error_msg = error.to_string();
    assert!(error_msg.contains("disconnected"));
    assert!(error_msg.contains("connected"));
    assert!(error_msg.contains("->"));
}

#[test]
fn test_invalid_state_uses_enum() {
    let error = Error::InvalidState {
        state: ConnectionState::SendingName,
    };

    let error_msg = error.to_string();
    assert!(error_msg.contains("sending_name"));
}

#[test]
fn test_invalid_state_message_for_custom_errors() {
    let error = Error::InvalidStateMessage("no active stream".to_string());

    let error_msg = error.to_string();
    assert_eq!(error_msg, "no active stream");
}

#[test]
fn test_connection_state_display() {
    assert_eq!(ConnectionState::Disconnected.to_string(), "disconnected");
    assert_eq!(ConnectionState::Connecting.to_string(), "connecting");
    assert_eq!(ConnectionState::SendingName.to_string(), "sending_name");
    assert_eq!(
        ConnectionState::AwaitingStatus.to_string(),
        "awaiting_status"
    );
    assert_eq!(
        ConnectionState::AwaitingChallenge.to_string(),
        "awaiting_challenge"
    );
    assert_eq!(
        ConnectionState::SendingChallengeReply.to_string(),
        "sending_challenge_reply"
    );
    assert_eq!(
        ConnectionState::AwaitingChallengeAck.to_string(),
        "awaiting_challenge_ack"
    );
    assert_eq!(ConnectionState::Connected.to_string(), "connected");
    assert_eq!(ConnectionState::Failed.to_string(), "failed");
}

#[test]
fn error_enum_tests_test_connection_state_as_str() {
    assert_eq!(ConnectionState::Disconnected.as_str(), "disconnected");
    assert_eq!(ConnectionState::Connected.as_str(), "connected");
}

#[test]
fn test_all_connection_states_are_copy() {
    let state1 = ConnectionState::Connected;
    let state2 = state1;
    assert_eq!(state1, state2);
}

#[test]
fn test_connection_state_equality() {
    assert_eq!(ConnectionState::Disconnected, ConnectionState::Disconnected);
    assert_ne!(ConnectionState::Disconnected, ConnectionState::Connected);
}

#[test]
fn test_error_debug_with_enum_state() {
    let error = Error::InvalidState {
        state: ConnectionState::Failed,
    };

    let debug_str = format!("{:?}", error);
    assert!(debug_str.contains("InvalidState"));
    assert!(debug_str.contains("Failed"));
}

#[test]
fn test_error_messages() {
    assert_eq!(
        Error::InvalidStateTransition {
            from: ConnectionState::Disconnected,
            to: ConnectionState::Connected,
        }
        .to_string(),
        "Invalid state transition: disconnected -> connected"
    );
    assert_eq!(
        Error::MessageTooLarge { size: 70, max: 64 }.to_string(),
        "Message too large: 70 bytes (max 64 bytes)"
    );
    assert_eq!(
        Error::IncompatibleVersion { got: 5, expected: 6 }.to_string(),
        "Incompatible protocol version: got 5, expected 6"
    );
    assert_eq!(
        Error::EpmdLookup { node: "n".to_string(), reason: "gone".to_string() }.to_string(),
        "EPMD lookup failed for node 'n': gone"
    );
    assert_eq!(Error::ConnectionClosed.to_string(), "Connection closed by peer");
    let io = Error::Io(std::io::Error::new(std::io::ErrorKind::Other, "boom"));
    assert!(io.to_string().starts_with("I/O error: "));
    let flags = Error::MissingMandatoryFlags { missing: vec!["A".to_string()] };
    assert_eq!(flags.to_string(), "Missing mandatory capability flags: [\"A\"]");
}

#[test]
fn test_error_classification() {
    assert!(Error::Timeout(std::time::Duration::from_secs(1)).is_recoverable());
    assert!(Error::Timeout(std::time::Duration::from_secs(1)).is_timeout());
    assert!(!Error::ConnectionClosed.is_recoverable());
    assert!(Error::ConnectionClosed.is_connection_closed());
    assert!(Error::UnexpectedEof { context: "x".to_string() }.is_connection_closed());
    let reset = Error::Io(std::io::Error::new(std::io::ErrorKind::ConnectionReset, "r"));
    assert!(reset.is_connection_closed());
    assert!(reset.is_recoverable());
    let timed = Error::Io(std::io::Error::new(std::io::ErrorKind::TimedOut, "t"));
    assert!(timed.is_timeout());
    assert!(!Error::AuthenticationFailed.is_timeout());
}
