use edp::digest::compute_digest;
use edp::epmd_client::{
    alive2_creation_width, alive2_request, check_alive2_result, decode_alive2_response,
    decode_kill_response, decode_names_response, decode_port2_response, port2_bytes_needed,
    port2_request,
    simple_request, NodeType, Protocol, NAMES_REQ,
};
use edp::errors::Error;
use edp::flags::DistributionFlags;
use edp::framing::{FrameLength, FrameMode, FrameParse, MessageDeframer, MessageFramer, MAX_MESSAGE_SIZE};
use edp::handshake::{Challenge, ChallengeAck, ChallengeReply, Status, StatusMessage};
use edp::state_machine::{ConnectionState, HandshakeStateMachine};
use edp::types::Creation;
use edp::wire::{get_u16, get_u32, get_u64, put_u16, put_u32, put_u64};

#[test]
fn port2_request_bytes() {
    assert_eq!(port2_request("foo"), vec![0, 4, 122, b'f', b'o', b'o']);
    assert_eq!(port2_request(""), vec![0, 1, 122]);
}

#[test]
fn alive2_request_bytes() {
    let req = alive2_request(0x1234, "ab", NodeType::Hidden, 6, 5, &[9]);
    assert_eq!(
        req,
        vec![0, 16, 120, 0x12, 0x34, 72, 0, 0, 6, 0, 5, 0, 2, b'a', b'b', 0, 1, 9]
    );
    assert_eq!(simple_request(NAMES_REQ), vec![0, 1, 110]);
}

fn port2_reply(name: &[u8], extra: &[u8]) -> Vec<u8> {
    let mut d = vec![119, 0, 0x10, 0x92, 77, 0, 0, 6, 0, 5];
    d.extend_from_slice(&(name.len() as u16).to_be_bytes());
    d.extend_from_slice(name);
    d.extend_from_slice(&(extra.len() as u16).to_be_bytes());
    d.extend_from_slice(extra);
    d
}

#[test]
fn port2_response_decodes_node_information() {
    let info = decode_port2_response("node", &port2_reply(b"node", &[1, 2])).unwrap();
    assert_eq!(info.port, 0x1092);
    assert_eq!(info.node_type, NodeType::Normal);
    assert_eq!(info.protocol, Protocol::Tcp);
    assert_eq!(info.highest_version, 6);
    assert_eq!(info.lowest_version, 5);
    assert_eq!(info.node_name, "node");
    assert_eq!(info.extra, vec![1, 2]);
}

#[test]
fn port2_response_errors() {
    match decode_port2_response("x", &[119, 1]) {
        Err(Error::EpmdLookup { node, reason }) => {
            assert_eq!(node, "x");
            assert_eq!(reason, "Node not found");
        }
        other => panic!("unexpected {:?}", other),
    }
    assert!(matches!(decode_port2_response("x", &[]), Err(Error::UnexpectedEof { .. })));
    assert!(matches!(decode_port2_response("x", &[5, 0]), Err(Error::EpmdProtocol(_))));
    let mut bad_type = port2_reply(b"n", &[]);
    bad_type[4] = 1;
    assert!(matches!(decode_port2_response("n", &bad_type), Err(Error::EpmdProtocol(_))));
    let full = port2_reply(b"node", &[1, 2]);
    assert!(matches!(
        decode_port2_response("node", &full[..full.len() - 1]),
        Err(Error::UnexpectedEof { .. })
    ));
    let bad_utf8 = port2_reply(&[0xff], &[]);
    assert!(matches!(decode_port2_response("n", &bad_utf8), Err(Error::EpmdProtocol(_))));
}

#[test]
fn alive2_response_decoding() {
    assert_eq!(decode_alive2_response(&[121, 0, 0, 7]).unwrap(), 7);
    assert_eq!(decode_alive2_response(&[118, 0, 0, 0, 1, 2]).unwrap(), 258);
    assert!(matches!(
        decode_alive2_response(&[121, 3, 0, 7]),
        Err(Error::EpmdRegistration { .. })
    ));
    assert!(matches!(decode_alive2_response(&[99, 0, 0, 7]), Err(Error::EpmdProtocol(_))));
    assert!(matches!(decode_alive2_response(&[118, 0, 0]), Err(Error::UnexpectedEof { .. })));
    assert_eq!(alive2_creation_width(121).unwrap(), 2);
    assert_eq!(alive2_creation_width(118).unwrap(), 4);
    assert!(check_alive2_result(0).is_ok());
    assert!(check_alive2_result(1).is_err());
}

#[test]
fn names_and_kill_responses() {
    let mut d = vec![0, 0, 0x11, 0x11];
    d.extend_from_slice(b"name foo at port 1\n");
    assert_eq!(decode_names_response(&d).unwrap(), "name foo at port 1\n");
    assert!(matches!(decode_names_response(&[0, 0]), Err(Error::UnexpectedEof { .. })));
    assert!(matches!(decode_names_response(&[0, 0, 0, 0, 0xff]), Err(Error::EpmdProtocol(_))));
    assert_eq!(decode_kill_response(b"OK").unwrap(), "OK");
    assert!(matches!(decode_kill_response(&[0xc3]), Err(Error::EpmdProtocol(_))));
}

#[test]
fn frames_round_trip_in_both_modes() {
    for mode in [FrameMode::Handshake, FrameMode::Distribution] {
        let framer = MessageFramer::new(mode);
        let deframer = MessageDeframer::new(mode);
        let framed = framer.frame_message(&[1, 2, 3]);
        assert_eq!(framed.len(), mode.length_prefix_size() + 3);
        match deframer.parse_frame(&framed) {
            FrameParse::Complete { payload, consumed } => {
                assert_eq!(payload, vec![1, 2, 3]);
                assert_eq!(consumed, framed.len());
            }
            other => panic!("unexpected {:?}", other),
        }
        assert_eq!(deframer.parse_frame(&framed[..framed.len() - 1]), FrameParse::Incomplete);
    }
    assert_eq!(MessageFramer::new(FrameMode::Handshake).frame_message(&[7]), vec![0, 1, 7]);
    assert_eq!(
        MessageFramer::new(FrameMode::Distribution).frame_message(&[7]),
        vec![0, 0, 0, 1, 7]
    );
}

#[test]
fn frame_lengths_are_classified() {
    let d = MessageDeframer::new(FrameMode::Distribution);
    assert_eq!(d.frame_length(&[0, 0, 0, 0]), FrameLength::Tick);
    assert_eq!(d.frame_length(&[0, 0, 1, 0]), FrameLength::Payload(256));
    assert_eq!(d.frame_length(&[0x10, 0, 0, 1]), FrameLength::TooLarge(MAX_MESSAGE_SIZE + 1));
    assert_eq!(d.parse_frame(&[0x10, 0, 0, 1]), FrameParse::TooLarge(MAX_MESSAGE_SIZE + 1));
    assert_eq!(
        d.parse_frame(&[0, 0, 0, 0, 9]),
        FrameParse::Complete { payload: vec![], consumed: 4 }
    );
    let mut h = MessageDeframer::new(FrameMode::Distribution);
    h.set_mode(FrameMode::Handshake);
    assert_eq!(h.frame_length(&[0, 5]), FrameLength::Payload(5));
}

#[test]
fn wire_integers_are_big_endian() {
    let mut buf = Vec::new();
    put_u16(&mut buf, 0x0102);
    put_u32(&mut buf, 0x03040506);
    put_u64(&mut buf, 0x0708090a0b0c0d0e);
    assert_eq!(buf, vec![1, 2, 3, 4, 5, 6, 7, 8, 9, 10, 11, 12, 13, 14]);
    assert_eq!(get_u16(&buf, 0), 0x0102);
    assert_eq!(get_u32(&buf, 2), 0x03040506);
    assert_eq!(get_u64(&buf, 6), 0x0708090a0b0c0d0e);
}

#[test]
fn handshake_state_machine_happy_path() {
    let flags = DistributionFlags::default_otp26();
    let mut sm = HandshakeStateMachine::new(
        "a@host".to_string(),
        "b@host".to_string(),
        "cookie".to_string(),
        flags,
        Creation::new(3),
    );
    assert_eq!(sm.state(), ConnectionState::Disconnected);
    sm.begin_connect().unwrap();
    assert_eq!(sm.state(), ConnectionState::Connecting);
    assert!(matches!(
        sm.begin_connect(),
        Err(Error::InvalidStateTransition { from: ConnectionState::Connecting, to: ConnectionState::Connecting })
    ));
    let name = sm.prepare_send_name().unwrap();
    assert_eq!(name[2], b'n');
    assert_eq!(sm.state(), ConnectionState::AwaitingStatus);
    sm.handle_status(b"sok").unwrap();
    assert!(matches!(sm.handle_status(b"snok"), Err(Error::ConnectionRefused { .. })));
    assert!(matches!(sm.handle_status(b"xok"), Err(Error::InvalidHandshakeMessage(_))));
    let complement = sm.prepare_complement().unwrap();
    assert_eq!(complement[0..3], [0, 9, b'c']);
    let peer = Challenge::new(DistributionFlags::new(flags.as_u64() | (1 << 63)), 42, 9, "b@host");
    let encoded = peer.encode().unwrap();
    sm.handle_challenge(&encoded[2..]).unwrap();
    assert_eq!(sm.state(), ConnectionState::AwaitingChallenge);
    assert_eq!(sm.negotiated_flags().unwrap().as_u64(), flags.as_u64());
    let reply = sm.prepare_challenge_reply().unwrap();
    assert_eq!(sm.state(), ConnectionState::AwaitingChallengeAck);
    let decoded = ChallengeReply::decode(&reply[2..]).unwrap();
    assert_eq!(decoded.digest, compute_digest(42, "cookie"));
    assert!(decoded.verify(42, "cookie"));
    let wrong = ChallengeAck::new(decoded.challenge, "other").encode();
    assert!(matches!(sm.handle_challenge_ack(&wrong[2..]), Err(Error::AuthenticationFailed)));
    let ack = ChallengeAck::new(decoded.challenge, "cookie").encode();
    sm.handle_challenge_ack(&ack[2..]).unwrap();
    assert_eq!(sm.state(), ConnectionState::Connected);
    sm.disconnect();
    assert_eq!(sm.state(), ConnectionState::Disconnected);
    assert!(sm.negotiated_flags().is_none());
}

#[test]
fn challenge_reply_needs_both_challenges() {
    let mut sm = HandshakeStateMachine::new(
        "a@h".to_string(),
        "b@h".to_string(),
        "c".to_string(),
        DistributionFlags::default_hidden(),
        Creation::new(1),
    );
    assert!(matches!(sm.prepare_challenge_reply(), Err(Error::InvalidStateMessage(_))));
    assert_eq!(sm.state(), ConnectionState::SendingChallengeReply);
    assert!(matches!(sm.handle_challenge(&[b'N', 0]), Err(Error::InvalidHandshakeMessage(_))));
    assert_eq!(sm.state(), ConnectionState::AwaitingChallenge);
}

#[test]
fn status_message_codes() {
    assert_eq!(StatusMessage::new(Status::Okay).encode(), vec![0, 3, b's', 0, 0]);
    assert_eq!(StatusMessage::decode(b"salive").unwrap().status, Status::Alive);
    assert_eq!(ConnectionState::AwaitingChallengeAck.as_str(), "awaiting_challenge_ack");
}

#[test]
fn port2_reply_is_read_as_far_as_needed() {
    let full = port2_reply(b"node", &[1, 2]);
    assert_eq!(port2_bytes_needed(&[]), Some(1));
    assert_eq!(port2_bytes_needed(&full[..1]), Some(2));
    assert_eq!(port2_bytes_needed(&full[..2]), Some(12));
    assert_eq!(port2_bytes_needed(&full[..12]), Some(18));
    assert_eq!(port2_bytes_needed(&full[..18]), Some(20));
    assert_eq!(port2_bytes_needed(&full), None);
    assert_eq!(port2_bytes_needed(&[119, 1]), None);
    assert_eq!(port2_bytes_needed(&[5]), None);
}
