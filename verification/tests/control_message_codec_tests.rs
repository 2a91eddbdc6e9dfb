use edp::control::ControlMessage;
use edp::term::{Pid, Reference, Term};

fn pid_term(node: &str, id: u32, serial: u32, creation: u32) -> Term {
    Term::Pid(Pid {
        node: node.to_string(),
        id,
        serial,
        creation,
        local_ext_bytes: None,
    })
}

fn ext_ref(node: &str, creation: u32, ids: Vec<u32>) -> Reference {
    Reference {
        node: node.to_string(),
        creation,
        ids,
        local_ext_bytes: None,
    }
}

fn same<A: std::fmt::Debug, B: std::fmt::Debug>(a: A, b: B) -> bool {
    format!("{:?}", a) == format!("{:?}", b)
}

fn make_pid(id: u32, serial: u32, creation: u32) -> Term {
    pid_term("nonode@nohost", id, serial, creation)
}

fn make_reference() -> Term {
    Term::Reference(ext_ref("nonode@nohost", 1, vec![1, 2, 3]))
}

//
// Basic Roundtrip Tests
//

#[test]
fn test_link_roundtrip() {
    let msg = ControlMessage::Link {
        from_pid: make_pid(1, 0, 0),
        to_pid: make_pid(2, 0, 0),
    };

    let term = msg.to_term();
    let parsed = ControlMessage::from_term(&term).unwrap();

    match parsed {
        ControlMessage::Link { .. } => {}
        _ => panic!("Expected Link variant"),
    }
}

#[test]
fn test_send_roundtrip() {
    let msg = ControlMessage::Send {
        cookie: Term::atom(""),
        to_pid: make_pid(1, 0, 0),
    };

    let term = msg.to_term();
    let parsed = ControlMessage::from_term(&term).unwrap();

    match parsed {
        ControlMessage::Send { .. } => {}
        _ => panic!("Expected Send variant"),
    }
}

#[test]
fn test_exit_roundtrip() {
    let msg = ControlMessage::Exit {
        from_pid: make_pid(1, 0, 0),
        to_pid: make_pid(2, 0, 0),
        reason: Term::atom("normal"),
    };

    let term = msg.to_term();
    let parsed = ControlMessage::from_term(&term).unwrap();

    match parsed {
        ControlMessage::Exit { .. } => {}
        _ => panic!("Expected Exit variant"),
    }
}

#[test]
fn test_unlink_roundtrip() {
    let msg = ControlMessage::Unlink {
        from_pid: make_pid(1, 0, 0),
        to_pid: make_pid(2, 0, 0),
    };

    let term = msg.to_term();
    let parsed = ControlMessage::from_term(&term).unwrap();

    match parsed {
        ControlMessage::Unlink { .. } => {}
        _ => panic!("Expected Unlink variant"),
    }
}

#[test]
fn test_node_link_roundtrip() {
    let msg = ControlMessage::NodeLink;

    let term = msg.to_term();
    let parsed = ControlMessage::from_term(&term).unwrap();

    match parsed {
        ControlMessage::NodeLink => {}
        _ => panic!("Expected NodeLink variant"),
    }
}

#[test]
fn test_reg_send_roundtrip() {
    let msg = ControlMessage::RegSend {
        from_pid: make_pid(1, 0, 0),
        cookie: Term::atom(""),
        to_name: Term::atom("test"),
    };

    let term = msg.to_term();
    let parsed = ControlMessage::from_term(&term).unwrap();

    match parsed {
        ControlMessage::RegSend { .. } => {}
        _ => panic!("Expected RegSend variant"),
    }
}

#[test]
fn test_group_leader_roundtrip() {
    let msg = ControlMessage::GroupLeader {
        from_pid: make_pid(1, 0, 0),
        to_pid: make_pid(2, 0, 0),
    };

    let term = msg.to_term();
    let parsed = ControlMessage::from_term(&term).unwrap();

    match parsed {
        ControlMessage::GroupLeader { .. } => {}
        _ => panic!("Expected GroupLeader variant"),
    }
}

#[test]
fn test_exit2_roundtrip() {
    let msg = ControlMessage::Exit2 {
        from_pid: make_pid(1, 0, 0),
        to_pid: make_pid(2, 0, 0),
        reason: Term::atom("killed"),
    };

    let term = msg.to_term();
    let parsed = ControlMessage::from_term(&term).unwrap();

    match parsed {
        ControlMessage::Exit2 { .. } => {}
        _ => panic!("Expected Exit2 variant"),
    }
}

#[test]
fn test_send_sender_roundtrip() {
    let msg = ControlMessage::SendSender {
        from_pid: make_pid(1, 0, 0),
        to_pid: make_pid(2, 0, 0),
    };

    let term = msg.to_term();
    let parsed = ControlMessage::from_term(&term).unwrap();

    match parsed {
        ControlMessage::SendSender { .. } => {}
        _ => panic!("Expected SendSender variant"),
    }
}

#[test]
fn test_payload_exit_roundtrip() {
    let msg = ControlMessage::PayloadExit {
        from_pid: make_pid(1, 0, 0),
        to_pid: make_pid(2, 0, 0),
    };

    let term = msg.to_term();
    let parsed = ControlMessage::from_term(&term).unwrap();

    match parsed {
        ControlMessage::PayloadExit { .. } => {}
        _ => panic!("Expected PayloadExit variant"),
    }
}

#[test]
fn test_payload_exit2_roundtrip() {
    let msg = ControlMessage::PayloadExit2 {
        from_pid: make_pid(1, 0, 0),
        to_pid: make_pid(2, 0, 0),
    };

    let term = msg.to_term();
    let parsed = ControlMessage::from_term(&term).unwrap();

    match parsed {
        ControlMessage::PayloadExit2 { .. } => {}
        _ => panic!("Expected PayloadExit2 variant"),
    }
}

#[test]
fn test_payload_monitor_p_exit_roundtrip() {
    let msg = ControlMessage::PayloadMonitorPExit {
        from_proc: make_pid(1, 0, 0),
        to_pid: make_pid(2, 0, 0),
        reference: make_reference(),
    };

    let term = msg.to_term();
    let parsed = ControlMessage::from_term(&term).unwrap();

    match parsed {
        ControlMessage::PayloadMonitorPExit { .. } => {}
        _ => panic!("Expected PayloadMonitorPExit variant"),
    }
}

#[test]
fn test_monitor_p_roundtrip() {
    let msg = ControlMessage::MonitorP {
        from_pid: make_pid(1, 0, 0),
        to_proc: Term::atom("test"),
        reference: make_reference(),
    };

    let term = msg.to_term();
    let parsed = ControlMessage::from_term(&term).unwrap();

    match parsed {
        ControlMessage::MonitorP { .. } => {}
        _ => panic!("Expected MonitorP variant"),
    }
}

#[test]
fn test_demonitor_p_roundtrip() {
    let msg = ControlMessage::DemonitorP {
        from_pid: make_pid(1, 0, 0),
        to_proc: Term::atom("test"),
        reference: make_reference(),
    };

    let term = msg.to_term();
    let parsed = ControlMessage::from_term(&term).unwrap();

    match parsed {
        ControlMessage::DemonitorP { .. } => {}
        _ => panic!("Expected DemonitorP variant"),
    }
}

#[test]
fn test_monitor_p_exit_roundtrip() {
    let msg = ControlMessage::MonitorPExit {
        from_proc: make_pid(1, 0, 0),
        to_pid: make_pid(2, 0, 0),
        reference: make_reference(),
        reason: Term::atom("noproc"),
    };

    let term = msg.to_term();
    let parsed = ControlMessage::from_term(&term).unwrap();

    match parsed {
        ControlMessage::MonitorPExit { .. } => {}
        _ => panic!("Expected MonitorPExit variant"),
    }
}

//
// Trace Token Tests
//

#[test]
fn test_send_tt_roundtrip() {
    let msg = ControlMessage::SendTt {
        cookie: Term::atom(""),
        to_pid: make_pid(1, 0, 0),
        trace_token: Term::Integer(42),
    };

    let term = msg.to_term();
    let parsed = ControlMessage::from_term(&term).unwrap();

    match parsed {
        ControlMessage::SendTt { .. } => {}
        _ => panic!("Expected SendTt variant"),
    }
}

#[test]
fn test_exit_tt_roundtrip() {
    let msg = ControlMessage::ExitTt {
        from_pid: make_pid(1, 0, 0),
        to_pid: make_pid(2, 0, 0),
        trace_token: Term::Integer(42),
        reason: Term::atom("normal"),
    };

    let term = msg.to_term();
    let parsed = ControlMessage::from_term(&term).unwrap();

    match parsed {
        ControlMessage::ExitTt { .. } => {}
        _ => panic!("Expected ExitTt variant"),
    }
}

#[test]
fn test_reg_send_tt_roundtrip() {
    let msg = ControlMessage::RegSendTt {
        from_pid: make_pid(1, 0, 0),
        cookie: Term::atom(""),
        to_name: Term::atom("test"),
        trace_token: Term::Integer(42),
    };

    let term = msg.to_term();
    let parsed = ControlMessage::from_term(&term).unwrap();

    match parsed {
        ControlMessage::RegSendTt { .. } => {}
        _ => panic!("Expected RegSendTt variant"),
    }
}

#[test]
fn test_exit2_tt_roundtrip() {
    let msg = ControlMessage::Exit2Tt {
        from_pid: make_pid(1, 0, 0),
        to_pid: make_pid(2, 0, 0),
        trace_token: Term::Integer(42),
        reason: Term::atom("killed"),
    };

    let term = msg.to_term();
    let parsed = ControlMessage::from_term(&term).unwrap();

    match parsed {
        ControlMessage::Exit2Tt { .. } => {}
        _ => panic!("Expected Exit2Tt variant"),
    }
}

#[test]
fn test_send_sender_tt_roundtrip() {
    let msg = ControlMessage::SendSenderTt {
        from_pid: make_pid(1, 0, 0),
        to_pid: make_pid(2, 0, 0),
        trace_token: Term::Integer(42),
    };

    let term = msg.to_term();
    let parsed = ControlMessage::from_term(&term).unwrap();

    match parsed {
        ControlMessage::SendSenderTt { .. } => {}
        _ => panic!("Expected SendSenderTt variant"),
    }
}

#[test]
fn test_payload_exit_tt_roundtrip() {
    let msg = ControlMessage::PayloadExitTt {
        from_pid: make_pid(1, 0, 0),
        to_pid: make_pid(2, 0, 0),
        trace_token: Term::Integer(42),
    };

    let term = msg.to_term();
    let parsed = ControlMessage::from_term(&term).unwrap();

    match parsed {
        ControlMessage::PayloadExitTt { .. } => {}
        _ => panic!("Expected PayloadExitTt variant"),
    }
}

#[test]
fn test_payload_exit2_tt_roundtrip() {
    let msg = ControlMessage::PayloadExit2Tt {
        from_pid: make_pid(1, 0, 0),
        to_pid: make_pid(2, 0, 0),
        trace_token: Term::Integer(42),
    };

    let term = msg.to_term();
    let parsed = ControlMessage::from_term(&term).unwrap();

    match parsed {
        ControlMessage::PayloadExit2Tt { .. } => {}
        _ => panic!("Expected PayloadExit2Tt variant"),
    }
}

//
// Spawn Tests
//

#[test]
fn test_spawn_request_tt_roundtrip() {
    let msg = ControlMessage::SpawnRequestTt {
        req_id: make_reference(),
        from: make_pid(1, 0, 0),
        group_leader: make_pid(2, 0, 0),
        mfa: Term::Tuple(vec![
            Term::atom("erlang"),
            Term::atom("apply"),
            Term::Integer(2),
        ]),
        arg_list: Term::List(vec![]),
        opt_list: Term::List(vec![]),
        trace_token: Term::Integer(42),
    };

    let term = msg.to_term();
    let parsed = ControlMessage::from_term(&term).unwrap();

    match parsed {
        ControlMessage::SpawnRequestTt { .. } => {}
        _ => panic!("Expected SpawnRequestTt variant"),
    }
}

#[test]
fn test_spawn_reply_tt_roundtrip() {
    let msg = ControlMessage::SpawnReplyTt {
        req_id: make_reference(),
        to: make_pid(1, 0, 0),
        flags: Term::Integer(0),
        result: make_pid(2, 0, 0),
        trace_token: Term::Integer(42),
    };

    let term = msg.to_term();
    let parsed = ControlMessage::from_term(&term).unwrap();

    match parsed {
        ControlMessage::SpawnReplyTt { .. } => {}
        _ => panic!("Expected SpawnReplyTt variant"),
    }
}

#[test]
fn test_spawn_request_roundtrip() {
    let msg = ControlMessage::SpawnRequest {
        req_id: make_reference(),
        from: make_pid(1, 0, 0),
        group_leader: make_pid(2, 0, 0),
        mfa: Term::Tuple(vec![
            Term::atom("erlang"),
            Term::atom("apply"),
            Term::Integer(2),
        ]),
        arg_list: Term::List(vec![]),
        opt_list: Term::List(vec![]),
    };

    let term = msg.to_term();
    let decoded = ControlMessage::from_term(&term).unwrap();

    assert!(same(&msg, &decoded));
}

#[test]
fn test_spawn_reply_roundtrip() {
    let msg = ControlMessage::SpawnReply {
        req_id: make_reference(),
        to: make_pid(1, 0, 0),
        flags: Term::Integer(0),
        result: Term::Tuple(vec![Term::atom("ok"), make_pid(2, 0, 0)]),
    };

    let term = msg.to_term();
    let decoded = ControlMessage::from_term(&term).unwrap();

    assert!(same(&msg, &decoded));
}

//
// Alias Tests
//

#[test]
fn test_alias_send_tt_roundtrip() {
    let msg = ControlMessage::AliasSendTt {
        from_pid: make_pid(1, 0, 0),
        alias: make_reference(),
        trace_token: Term::Integer(42),
    };

    let term = msg.to_term();
    let parsed = ControlMessage::from_term(&term).unwrap();

    match parsed {
        ControlMessage::AliasSendTt { .. } => {}
        _ => panic!("Expected AliasSendTt variant"),
    }
}

#[test]
fn test_alias_send_roundtrip() {
    let msg = ControlMessage::AliasSend {
        from_pid: make_pid(1, 0, 0),
        alias: make_reference(),
    };

    let term = msg.to_term();
    let decoded = ControlMessage::from_term(&term).unwrap();

    assert!(same(&msg, &decoded));
}

//
// Unlink ID Tests
//

#[test]
fn test_unlink_id_roundtrip() {
    let msg = ControlMessage::UnlinkId {
        id: 42,
        from_pid: make_pid(1, 0, 0),
        to_pid: make_pid(2, 0, 0),
    };

    let term = msg.to_term();
    let decoded = ControlMessage::from_term(&term).unwrap();

    assert!(same(&msg, &decoded));
}

#[test]
fn test_unlink_id_ack_roundtrip() {
    let msg = ControlMessage::UnlinkIdAck {
        id: 42,
        from_pid: make_pid(1, 0, 0),
        to_pid: make_pid(2, 0, 0),
    };

    let term = msg.to_term();
    let decoded = ControlMessage::from_term(&term).unwrap();

    assert!(same(&msg, &decoded));
}

//
// Generic Message Tests
//

#[test]
fn test_generic_control_message() {
    let term = Term::Tuple(vec![
        Term::Integer(99),
        Term::atom("test"),
        Term::Integer(42),
    ]);

    let msg = ControlMessage::from_term(&term).unwrap();

    match &msg {
        ControlMessage::Generic {
            message_type,
            fields,
        } => {
            assert!(same(&*message_type, &99));
            assert!(same(&fields.len(), &2));
        }
        _ => panic!("Expected Generic control message"),
    }

    let reconstructed = msg.to_term();
    assert!(same(&term, &reconstructed));
}

//
// Edge Cases
//

#[test]
fn test_control_message_wrong_arity_send() {
    let term = Term::Tuple(vec![Term::Integer(2)]);

    let result = ControlMessage::from_term(&term);
    assert!(
        result.is_ok(),
        "Arity mismatch falls back to generic message"
    );
    assert!(matches!(result.unwrap(), ControlMessage::Generic { .. }));
}

#[test]
fn test_control_message_wrong_arity_link() {
    let term = Term::Tuple(vec![Term::Integer(1), Term::Integer(123)]);

    let result = ControlMessage::from_term(&term);
    assert!(
        result.is_ok(),
        "Arity mismatch falls back to generic message"
    );
    assert!(matches!(result.unwrap(), ControlMessage::Generic { .. }));
}

#[test]
fn control_message_codec_tests_test_control_message_empty_tuple() {
    let term = Term::Tuple(vec![]);

    let result = ControlMessage::from_term(&term);
    assert!(result.is_err(), "Empty tuple should fail");
}

#[test]
fn test_control_message_non_integer_type() {
    let term = Term::Tuple(vec![
        Term::atom("not_a_number"),
        Term::Integer(1),
        Term::Integer(2),
    ]);

    let result = ControlMessage::from_term(&term);
    assert!(result.is_err(), "Non-integer message type should fail");
}

#[test]
fn control_message_codec_tests_test_control_message_type_out_of_range() {
    let term = Term::Tuple(vec![Term::Integer(300)]);

    let result = ControlMessage::from_term(&term);
    assert!(result.is_err(), "Message type > 255 should fail");
}

#[test]
fn control_message_codec_tests_test_control_message_negative_type() {
    let term = Term::Tuple(vec![Term::Integer(-1)]);

    let result = ControlMessage::from_term(&term);
    assert!(result.is_err(), "Negative message type should fail");
}

#[test]
fn test_control_message_not_tuple() {
    let term = Term::List(vec![Term::Integer(2), Term::Integer(1)]);

    let result = ControlMessage::from_term(&term);
    assert!(result.is_err(), "Non-tuple should fail");
}

#[test]
fn control_message_codec_tests_test_control_message_unlink_id_negative() {
    let term = Term::Tuple(vec![
        Term::Integer(35),
        Term::Integer(-1),
        Term::Integer(0),
        Term::Integer(0),
    ]);

    let result = ControlMessage::from_term(&term);
    assert!(result.is_err(), "UNLINK_ID with negative id should fail");
}

#[test]
fn test_control_message_generic_unknown_type() {
    let term = Term::Tuple(vec![
        Term::Integer(99),
        Term::Integer(1),
        Term::Integer(2),
    ]);

    let result = ControlMessage::from_term(&term);
    assert!(
        result.is_ok(),
        "Unknown control message type should parse as Generic"
    );

    if let Ok(ControlMessage::Generic {
        message_type,
        fields,
    }) = result
    {
        assert!(same(&message_type, &99));
        assert!(same(&fields.len(), &2));
    } else {
        panic!("Should have parsed as Generic");
    }
}

#[test]
fn test_spawn_request_into_term_matches_to_term() {
    let msg = ControlMessage::SpawnRequest {
        req_id: make_reference(),
        from: make_pid(1, 0, 0),
        group_leader: make_pid(2, 0, 0),
        mfa: Term::Tuple(vec![
            Term::atom("erlang"),
            Term::atom("apply"),
            Term::Integer(2),
        ]),
        arg_list: Term::List(vec![Term::Integer(42)]),
        opt_list: Term::List(vec![Term::Integer(99)]),
    };

    let via_to_term = msg.to_term();
    let via_into_term = msg.duplicate().into_term();

    assert!(same(&via_to_term, &via_into_term),
        "to_term() and into_term() must produce identical output");
}

#[test]
fn test_spawn_request_tt_into_term_matches_to_term() {
    let msg = ControlMessage::SpawnRequestTt {
        req_id: make_reference(),
        from: make_pid(1, 0, 0),
        group_leader: make_pid(2, 0, 0),
        mfa: Term::Tuple(vec![
            Term::atom("erlang"),
            Term::atom("apply"),
            Term::Integer(2),
        ]),
        arg_list: Term::List(vec![Term::Integer(42)]),
        opt_list: Term::List(vec![Term::Integer(99)]),
        trace_token: Term::Integer(123),
    };

    let via_to_term = msg.to_term();
    let via_into_term = msg.duplicate().into_term();

    assert!(same(&via_to_term, &via_into_term),
        "to_term() and into_term() must produce identical output");
}
