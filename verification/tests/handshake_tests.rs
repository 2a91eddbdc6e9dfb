use edp::flags::DistributionFlags;
use edp::handshake::{ChallengeAck, ChallengeReply, SendName, Status, StatusMessage};

#[test]
fn test_send_name_encode_decode() {
    let original = SendName::new(DistributionFlags::default_otp26(), 123, "test@localhost");

    let encoded = original.encode().unwrap();
    let decoded = SendName::decode(&encoded[2..]).unwrap();

    assert_eq!(original, decoded);
}

#[test]
fn test_send_name_node_name_too_long() {
    let long_name = "a".repeat(300);
    let send_name = SendName::new(DistributionFlags::default_otp26(), 123, &long_name);

    let result = send_name.encode();
    assert!(result.is_err());
}

#[test]
fn test_status_is_ok() {
    assert!(Status::Okay.is_ok());
    assert!(Status::OkSimultaneous.is_ok());
    assert!(!Status::Nok.is_ok());
    assert!(!Status::NotAllowed.is_ok());
}

#[test]
fn test_status_from_u8() {
    assert_eq!(Status::from_u8(0), Some(Status::Okay));
    assert_eq!(Status::from_u8(1), Some(Status::OkSimultaneous));
    assert_eq!(Status::from_u8(2), Some(Status::Nok));
    assert_eq!(Status::from_u8(3), Some(Status::NotAllowed));
    assert_eq!(Status::from_u8(4), Some(Status::Alive));
    assert_eq!(Status::from_u8(99), None);
}

#[test]
fn test_challenge_reply_verify() {
    let reply = ChallengeReply::new(12345, 67890, "secret");
    assert!(reply.verify(67890, "secret"));
    assert!(!reply.verify(67890, "wrong"));
    assert!(!reply.verify(99999, "secret"));
}

#[test]
fn test_challenge_reply_roundtrip() {
    let reply = ChallengeReply::new(12345, 67890, "test_cookie");
    let encoded = reply.encode();
    let decoded = ChallengeReply::decode(&encoded[2..]).unwrap();

    assert_eq!(reply.challenge, decoded.challenge);
    assert_eq!(reply.digest, decoded.digest);
}

#[test]
fn test_challenge_ack_verify() {
    let ack = ChallengeAck::new(12345, "secret");
    assert!(ack.verify(12345, "secret"));
    assert!(!ack.verify(12345, "wrong"));
    assert!(!ack.verify(54321, "secret"));
}

#[test]
fn test_challenge_ack_roundtrip() {
    let ack = ChallengeAck::new(98765, "my_cookie");
    let encoded = ack.encode();
    let decoded = ChallengeAck::decode(&encoded[2..]).unwrap();

    assert_eq!(ack.digest, decoded.digest);
}

#[test]
fn test_send_name_wire_bytes() {
    let msg = SendName::new(DistributionFlags::new(0x0102030405060708), 0x0A0B0C0D, "ab");
    let encoded = msg.encode().unwrap();
    assert_eq!(
        encoded,
        vec![0, 17, b'N', 1, 2, 3, 4, 5, 6, 7, 8, 0x0A, 0x0B, 0x0C, 0x0D, 0, 2, b'a', b'b']
    );
    let old = msg.encode_old().unwrap();
    assert_eq!(old, vec![0, 9, b'n', 0, 5, 5, 6, 7, 8, b'a', b'b']);
}

#[test]
fn test_status_message_encode() {
    let encoded = StatusMessage::new(Status::Okay).encode();
    assert_eq!(encoded[2], b's');
    assert_eq!(Status::Okay.as_str(), "ok");
    assert_eq!(Status::NotAllowed.to_string(), "not_allowed");
}
