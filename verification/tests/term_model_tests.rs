use edp::control::{ControlMessage, ControlMessageType};
use edp::dispatch::{call_reply, classify_gen_event_message, classify_gen_server_message};
use edp::dispatch::{
    call_fate, drop_reason_name, event_fate, notify_drops, DropReason, HandlerAnswer, HandlerFate,
};
use edp::dispatch::{GenEventRequest, GenServerRequest};
use edp::term::{atom_entry, erl_map, Pid, Reference, Term};

fn pid(id: u32) -> Pid {
    Pid {
        node: "n@h".to_string(),
        id,
        serial: 0,
        creation: 1,
        local_ext_bytes: None,
    }
}

fn reference() -> Reference {
    Reference {
        node: "n@h".to_string(),
        creation: 1,
        ids: vec![1, 2, 3],
        local_ext_bytes: Some(vec![9, 9]),
    }
}

fn dbg<T: std::fmt::Debug>(t: &T) -> String {
    format!("{:?}", t)
}

#[test]
fn duplicate_copies_nested_terms() {
    let t = Term::Tuple(vec![
        Term::atom("a"),
        Term::List(vec![Term::Integer(1), Term::Binary(vec![1, 2])]),
        Term::ErlMap(vec![(Term::atom("k"), Term::Str("v".to_string()))]),
        Term::ImproperList {
            elements: vec![Term::Integer(1)],
            tail: Box::new(Term::Nil),
        },
        Term::Pid(pid(3)),
        Term::Reference(reference()),
        Term::Float(0x4000_0000_0000_0000),
    ]);
    let c = t.duplicate();
    assert_eq!(dbg(&t), dbg(&c));
}

#[test]
fn map_get_finds_first_atom_key() {
    let m = erl_map(vec![
        atom_entry("a", Term::Integer(1)),
        atom_entry("b", Term::Integer(2)),
        atom_entry("a", Term::Integer(3)),
    ]);
    assert_eq!(m.map_get("a").and_then(|t| t.as_integer()), Some(1));
    assert_eq!(m.integer_field("b"), Some(2));
    assert!(m.map_get("c").is_none());
    assert!(Term::Integer(1).map_get("a").is_none());
}

#[test]
fn struct_module_and_strings() {
    let s = erl_map(vec![atom_entry("__struct__", Term::atom("Elixir.Foo"))]);
    assert_eq!(s.elixir_struct_module().map(|m| m.as_str()), Some("Elixir.Foo"));
    assert!(s.is_struct_of("Elixir.Foo"));
    assert!(!s.is_struct_of("Elixir.Bar"));
    let charlist = Term::List(vec![Term::Integer(104), Term::Integer(105)]);
    assert_eq!(charlist.as_erlang_string(), Some("hi".to_string()));
    let bad = Term::List(vec![Term::Integer(300)]);
    assert_eq!(bad.as_erlang_string(), None);
    let bin = Term::Binary(vec![0xff, b'a']);
    assert_eq!(bin.as_erlang_string(), Some("\u{fffd}a".to_string()));
    assert_eq!(Term::atom("x").as_erlang_string(), None);
}

#[test]
fn control_roundtrip_keeps_fields() {
    let msg = ControlMessage::UnlinkId {
        id: 7,
        from_pid: Term::Pid(pid(1)),
        to_pid: Term::Pid(pid(2)),
    };
    let back = ControlMessage::from_term(&msg.to_term()).unwrap();
    assert_eq!(dbg(&msg), dbg(&back));
    let dup = msg.duplicate();
    assert_eq!(dbg(&dup.into_term()), dbg(&msg.to_term()));
}

#[test]
fn control_unlink_id_above_i64_max_is_refused_on_read() {
    let msg = ControlMessage::UnlinkId {
        id: u64::MAX,
        from_pid: Term::Nil,
        to_pid: Term::Nil,
    };
    let err = ControlMessage::from_term(&msg.to_term()).unwrap_err();
    assert_eq!(
        err.to_string(),
        "Invalid control message: UNLINK_ID id must be non-negative: -1"
    );
}

#[test]
fn control_errors_name_the_problem() {
    let e = ControlMessage::from_term(&Term::Integer(1)).unwrap_err();
    assert_eq!(e.to_string(), "Invalid control message: Control message must be a tuple");
    let e = ControlMessage::from_term(&Term::Tuple(vec![Term::Integer(300)])).unwrap_err();
    assert_eq!(e.to_string(), "Invalid control message: Message type out of range: 300");
    let e = ControlMessage::from_term(&Term::Tuple(vec![Term::atom("x")])).unwrap_err();
    assert_eq!(e.to_string(), "Invalid control message: Message type must be an integer");
    let e = ControlMessage::from_term(&Term::Tuple(vec![
        Term::Integer(36),
        Term::atom("x"),
        Term::Nil,
        Term::Nil,
    ]))
    .unwrap_err();
    assert_eq!(
        e.to_string(),
        "Invalid control message: UNLINK_ID_ACK id must be an integer"
    );
}

#[test]
fn generic_message_with_known_shape_reads_as_that_type() {
    let msg = ControlMessage::Generic {
        message_type: 1,
        fields: vec![Term::Integer(1), Term::Integer(2)],
    };
    match ControlMessage::from_term(&msg.to_term()).unwrap() {
        ControlMessage::Link { .. } => {}
        other => panic!("expected Link, got {:?}", other),
    }
}

#[test]
fn control_type_codes() {
    assert_eq!(ControlMessageType::from_u8(38), Some(ControlMessageType::AliasSendTt));
    assert_eq!(ControlMessageType::AliasSend.as_u8(), 33);
    assert_eq!(ControlMessageType::from_u8(9), None);
    for code in 0..=255u8 {
        if let Some(t) = ControlMessageType::from_u8(code) {
            assert_eq!(t.as_u8(), code);
        }
    }
}

#[test]
fn gen_server_dispatch() {
    let from = Term::Tuple(vec![Term::Pid(pid(5)), Term::Reference(reference())]);
    let call = Term::Tuple(vec![Term::atom("$gen_call"), from, Term::atom("ping")]);
    match classify_gen_server_message(&call) {
        GenServerRequest::Call { from_pid, request, .. } => {
            assert_eq!(from_pid.id, 5);
            assert!(request.is_atom_with_name("ping"));
        }
        _ => panic!("expected a call"),
    }
    let bad_from = Term::Tuple(vec![Term::atom("$gen_call"), Term::Nil, Term::atom("ping")]);
    assert!(matches!(classify_gen_server_message(&bad_from), GenServerRequest::Info));
    let cast = Term::Tuple(vec![Term::atom("$gen_cast"), Term::Integer(1)]);
    assert!(matches!(classify_gen_server_message(&cast), GenServerRequest::Cast { .. }));
    assert!(matches!(classify_gen_server_message(&Term::Integer(1)), GenServerRequest::Info));
}

#[test]
fn gen_event_dispatch() {
    let from = Term::Tuple(vec![Term::Pid(pid(5)), Term::Reference(reference())]);
    let call = Term::Tuple(vec![
        Term::atom("$gen_call"),
        from.duplicate(),
        Term::atom("handler"),
        Term::atom("req"),
    ]);
    match classify_gen_event_message(&call) {
        GenEventRequest::Call { handler_id, request, .. } => {
            assert!(handler_id.is_atom_with_name("handler"));
            assert!(request.is_atom_with_name("req"));
        }
        _ => panic!("expected a call"),
    }
    let notify = Term::Tuple(vec![Term::atom("$gen_notify"), Term::Integer(1)]);
    assert!(matches!(classify_gen_event_message(&notify), GenEventRequest::Notify { .. }));
    let sync = Term::Tuple(vec![Term::atom("$gen_sync_notify"), Term::Integer(1)]);
    assert!(matches!(classify_gen_event_message(&sync), GenEventRequest::SyncNotify { .. }));
    let which = Term::Tuple(vec![Term::atom("$gen_which_handlers"), from]);
    assert!(matches!(
        classify_gen_event_message(&which),
        GenEventRequest::WhichHandlers { .. }
    ));
    let other = Term::Tuple(vec![Term::atom("hello"), Term::Integer(1)]);
    assert!(matches!(classify_gen_event_message(&other), GenEventRequest::Info));
    let reply = call_reply(&reference(), Term::atom("ok"));
    assert_eq!(
        dbg(&reply),
        dbg(&Term::Tuple(vec![Term::Reference(reference()), Term::atom("ok")]))
    );
}

#[test]
fn gen_event_handler_fates() {
    assert_eq!(event_fate(HandlerAnswer::Done), HandlerFate::Keep);
    assert_eq!(event_fate(HandlerAnswer::Remove), HandlerFate::Drop(DropReason::Error));
    assert_eq!(event_fate(HandlerAnswer::Swap), HandlerFate::Replace);
    assert_eq!(event_fate(HandlerAnswer::Failed), HandlerFate::Drop(DropReason::Error));
    assert_eq!(call_fate(HandlerAnswer::Remove), HandlerFate::Drop(DropReason::Normal));
    assert_eq!(call_fate(HandlerAnswer::Failed), HandlerFate::Drop(DropReason::Error));
    assert_eq!(drop_reason_name(DropReason::Normal), "normal");
}

#[test]
fn handlers_leave_after_an_event_in_order() {
    let outcomes = vec![
        (HandlerFate::Keep, false),
        (HandlerFate::Drop(DropReason::Error), false),
        (HandlerFate::Replace, false),
        (HandlerFate::Replace, true),
        (HandlerFate::Drop(DropReason::Normal), false),
    ];
    assert_eq!(
        notify_drops(&outcomes),
        vec![(1, DropReason::Error), (3, DropReason::Error), (4, DropReason::Normal)]
    );
    assert!(notify_drops(&vec![]).is_empty());
}
