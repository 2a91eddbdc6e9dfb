use edp::control::ControlMessage;
use edp::errors::Error;
use edp::flags::DistributionFlags;
use edp::handshake::{Challenge, ChallengeAck, ChallengeReply, SendName};
use edp::term::Term;

#[test]
fn test_send_name_max_length() {
    let name = "a".repeat(255);
    let flags = DistributionFlags::default();
    let send_name = SendName::new(flags, 1, &name);
    assert!(send_name.encode().is_ok());
}

#[test]
fn test_send_name_too_long() {
    let name = "a".repeat(256);
    let flags = DistributionFlags::default();
    let send_name = SendName::new(flags, 1, &name);
    let result = send_name.encode();
    assert!(matches!(result, Err(Error::NodeNameTooLong { .. })));
}

#[test]
fn test_challenge_max_length_name() {
    let name = "a".repeat(255);
    let flags = DistributionFlags::default();
    let challenge = Challenge::new(flags, 12345, 1, &name);
    assert!(challenge.encode().is_ok());
}

#[test]
fn test_challenge_too_long_name() {
    let name = "a".repeat(256);
    let flags = DistributionFlags::default();
    let challenge = Challenge::new(flags, 12345, 1, &name);
    let result = challenge.encode();
    assert!(matches!(result, Err(Error::NodeNameTooLong { .. })));
}

#[test]
fn test_challenge_reply_with_zero_challenge() {
    let reply = ChallengeReply::new(0, 0, "cookie");
    assert!(reply.verify(0, "cookie"));
    assert!(!reply.verify(1, "cookie"));
}

#[test]
fn test_challenge_reply_with_max_challenge() {
    let reply = ChallengeReply::new(u32::MAX, u32::MAX, "cookie");
    assert!(reply.verify(u32::MAX, "cookie"));
    assert!(!reply.verify(u32::MAX - 1, "cookie"));
}

#[test]
fn test_challenge_ack_with_boundary_values() {
    let ack_zero = ChallengeAck::new(0, "cookie");
    assert!(ack_zero.verify(0, "cookie"));

    let ack_max = ChallengeAck::new(u32::MAX, "cookie");
    assert!(ack_max.verify(u32::MAX, "cookie"));
}

#[test]
fn edge_case_tests_test_control_message_type_out_of_range() {
    let term = Term::Tuple(vec![Term::Integer(256)]);
    let result = ControlMessage::from_term(&term);
    assert!(matches!(result, Err(Error::InvalidControlMessage(_))));
}

#[test]
fn edge_case_tests_test_control_message_negative_type() {
    let term = Term::Tuple(vec![Term::Integer(-1)]);
    let result = ControlMessage::from_term(&term);
    assert!(matches!(result, Err(Error::InvalidControlMessage(_))));
}

#[test]
fn edge_case_tests_test_control_message_unlink_id_negative() {
    let term = Term::Tuple(vec![
        Term::Integer(35),
        Term::Integer(-1),
        Term::Tuple(vec![]),
        Term::Tuple(vec![]),
    ]);
    let result = ControlMessage::from_term(&term);
    assert!(matches!(result, Err(Error::InvalidControlMessage(_))));
}

#[test]
fn test_control_message_unlink_id_ack_negative() {
    let term = Term::Tuple(vec![
        Term::Integer(36),
        Term::Integer(-1),
        Term::Tuple(vec![]),
        Term::Tuple(vec![]),
    ]);
    let result = ControlMessage::from_term(&term);
    assert!(matches!(result, Err(Error::InvalidControlMessage(_))));
}

#[test]
fn edge_case_tests_test_control_message_empty_tuple() {
    let term = Term::Tuple(vec![]);
    let result = ControlMessage::from_term(&term);
    assert!(matches!(result, Err(Error::InvalidControlMessage(_))));
}

#[test]
fn test_control_message_not_a_tuple() {
    let term = Term::Integer(42);
    let result = ControlMessage::from_term(&term);
    assert!(matches!(result, Err(Error::InvalidControlMessage(_))));
}

#[test]
fn test_send_name_invalid_handshake_tag() {
    let mut data = vec![0, 15];
    data.push(b'X');
    data.extend_from_slice(&[0, 0, 0, 0, 0, 0, 0, 1]);
    data.extend_from_slice(&[0, 0, 0, 1]);
    data.extend_from_slice(&[0, 4]);
    data.extend_from_slice(b"test");

    let result = SendName::decode(&data);
    assert!(matches!(result, Err(Error::InvalidHandshakeMessage(_))));
}

#[test]
fn test_send_name_truncated_message() {
    let data = vec![b'N', 0, 0];
    let result = SendName::decode(&data);
    assert!(matches!(result, Err(Error::InvalidHandshakeMessage(_))));
}

#[test]
fn test_send_name_insufficient_data_for_name() {
    let mut data = vec![b'N'];
    data.extend_from_slice(&[0, 0, 0, 0, 0, 0, 0, 1]);
    data.extend_from_slice(&[0, 0, 0, 1]);
    data.extend_from_slice(&[0, 10]);
    data.extend_from_slice(b"test");

    let result = SendName::decode(&data);
    assert!(matches!(result, Err(Error::InvalidHandshakeMessage(_))));
}

#[test]
fn test_challenge_decode_invalid_utf8() {
    let mut data = vec![b'N'];
    data.extend_from_slice(&[0, 0, 0, 0, 0, 0, 0, 1]);
    data.extend_from_slice(&[0, 0, 0, 42]);
    data.extend_from_slice(&[0, 0, 0, 1]);
    data.extend_from_slice(&[0, 4]);
    data.extend_from_slice(&[0xFF, 0xFE, 0xFD, 0xFC]);

    let result = Challenge::decode(&data);
    assert!(matches!(result, Err(Error::InvalidHandshakeMessage(_))));
}
