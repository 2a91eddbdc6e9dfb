use edp::control::ControlMessage;
use edp::term::{Pid, Reference, Term};

fn pid_term(node: &str, id: u32, serial: u32, creation: u32) -> Term {
    Term::Pid(Pid {
        node: node.to_string(),
        id,
        serial,
        creation,
        local_ext_bytes: None,
    })
}

fn ext_ref(node: &str, creation: u32, ids: Vec<u32>) -> Reference {
    Reference {
        node: node.to_string(),
        creation,
        ids,
        local_ext_bytes: None,
    }
}

fn same<A: std::fmt::Debug, B: std::fmt::Debug>(a: A, b: B) -> bool {
    format!("{:?}", a) == format!("{:?}", b)
}

fn make_pid(id: u32) -> Term {
    pid_term("nonode@nohost", id, 0, 0)
}

fn make_reference() -> Term {
    Term::Reference(ext_ref("nonode@nohost", 1, vec![1, 2, 3]))
}

//
// Helper Method Tests
//

#[test]
fn test_link_helper() {
    let msg = ControlMessage::link(make_pid(1), make_pid(2));
    match msg {
        ControlMessage::Link { .. } => {}
        _ => panic!("Expected Link variant"),
    }
}

#[test]
fn test_unlink_helper() {
    let msg = ControlMessage::unlink(make_pid(1), make_pid(2));
    match msg {
        ControlMessage::Unlink { .. } => {}
        _ => panic!("Expected Unlink variant"),
    }
}

#[test]
fn test_send_helper() {
    let msg = ControlMessage::send(Term::atom(""), make_pid(1));
    match msg {
        ControlMessage::Send { .. } => {}
        _ => panic!("Expected Send variant"),
    }
}

#[test]
fn test_exit_helper() {
    let msg = ControlMessage::exit(
        make_pid(1),
        make_pid(2),
        Term::atom("normal"),
    );
    match msg {
        ControlMessage::Exit { .. } => {}
        _ => panic!("Expected Exit variant"),
    }
}

#[test]
fn test_exit2_helper() {
    let msg = ControlMessage::exit2(
        make_pid(1),
        make_pid(2),
        Term::atom("killed"),
    );
    match msg {
        ControlMessage::Exit2 { .. } => {}
        _ => panic!("Expected Exit2 variant"),
    }
}

#[test]
fn test_reg_send_helper() {
    let msg = ControlMessage::reg_send(
        make_pid(1),
        Term::atom(""),
        Term::atom("test"),
    );
    match msg {
        ControlMessage::RegSend { .. } => {}
        _ => panic!("Expected RegSend variant"),
    }
}

#[test]
fn test_group_leader_helper() {
    let msg = ControlMessage::group_leader(make_pid(1), make_pid(2));
    match msg {
        ControlMessage::GroupLeader { .. } => {}
        _ => panic!("Expected GroupLeader variant"),
    }
}

#[test]
fn test_send_sender_helper() {
    let msg = ControlMessage::send_sender(make_pid(1), make_pid(2));
    match msg {
        ControlMessage::SendSender { .. } => {}
        _ => panic!("Expected SendSender variant"),
    }
}

#[test]
fn test_monitor_p_helper() {
    let msg = ControlMessage::monitor_p(
        make_pid(1),
        Term::atom("test"),
        make_reference(),
    );
    match msg {
        ControlMessage::MonitorP { .. } => {}
        _ => panic!("Expected MonitorP variant"),
    }
}

#[test]
fn test_demonitor_p_helper() {
    let msg = ControlMessage::demonitor_p(
        make_pid(1),
        Term::atom("test"),
        make_reference(),
    );
    match msg {
        ControlMessage::DemonitorP { .. } => {}
        _ => panic!("Expected DemonitorP variant"),
    }
}

#[test]
fn test_monitor_p_exit_helper() {
    let msg = ControlMessage::monitor_p_exit(
        make_pid(1),
        make_pid(2),
        make_reference(),
        Term::atom("noproc"),
    );
    match msg {
        ControlMessage::MonitorPExit { .. } => {}
        _ => panic!("Expected MonitorPExit variant"),
    }
}

#[test]
fn test_payload_exit_helper() {
    let msg = ControlMessage::payload_exit(make_pid(1), make_pid(2));
    match msg {
        ControlMessage::PayloadExit { .. } => {}
        _ => panic!("Expected PayloadExit variant"),
    }
}

#[test]
fn test_payload_exit2_helper() {
    let msg = ControlMessage::payload_exit2(make_pid(1), make_pid(2));
    match msg {
        ControlMessage::PayloadExit2 { .. } => {}
        _ => panic!("Expected PayloadExit2 variant"),
    }
}

#[test]
fn test_payload_monitor_p_exit_helper() {
    let msg = ControlMessage::payload_monitor_p_exit(make_pid(1), make_pid(2), make_reference());
    match msg {
        ControlMessage::PayloadMonitorPExit { .. } => {}
        _ => panic!("Expected PayloadMonitorPExit variant"),
    }
}

//
// Builder Tests
//

#[test]
fn test_builder_creates_valid_link_message() {
    let from = ControlMessageBuilder::make_pid("test@localhost", 0, 0, 1);
    let to = ControlMessageBuilder::make_pid("test@localhost", 1, 0, 1);

    let msg = ControlMessageBuilder::link(from.duplicate(), to.duplicate());

    match msg {
        ControlMessage::Link { from_pid, to_pid } => {
            assert!(same(&from_pid, &from));
            assert!(same(&to_pid, &to));
        }
        _ => panic!("Expected Link message"),
    }
}

#[test]
fn test_builder_creates_exit_message_with_reason() {
    let from = ControlMessageBuilder::make_pid("test@localhost", 0, 0, 1);
    let to = ControlMessageBuilder::make_pid("test@localhost", 1, 0, 1);
    let reason = Term::atom("shutdown");

    let msg = ControlMessageBuilder::exit(from.duplicate(), to.duplicate(), reason.duplicate());

    match msg {
        ControlMessage::Exit {
            from_pid,
            to_pid,
            reason: r,
        } => {
            assert!(same(&from_pid, &from));
            assert!(same(&to_pid, &to));
            assert!(same(&r, &reason));
        }
        _ => panic!("Expected Exit message"),
    }
}

#[test]
fn test_builder_creates_reg_send_message_with_atom() {
    let from = ControlMessageBuilder::make_pid("test@localhost", 0, 0, 1);
    let msg = ControlMessageBuilder::reg_send(from.duplicate(), "my_server");

    match msg {
        ControlMessage::RegSend {
            from_pid, to_name, ..
        } => {
            assert!(same(&from_pid, &from));
            assert!(same(&to_name, &Term::atom("my_server")));
        }
        _ => panic!("Expected RegSend message"),
    }
}

#[test]
fn test_builder_creates_monitor_p_message() {
    let from = ControlMessageBuilder::make_pid("test@localhost", 0, 0, 1);
    let to_proc = ControlMessageBuilder::make_pid("other@host", 5, 0, 1);
    let reference = ext_ref("test@localhost", 1, vec![0, 0, 0]);

    let msg = ControlMessageBuilder::monitor_p(from.duplicate(), to_proc.duplicate(), reference.duplicate());

    match msg {
        ControlMessage::MonitorP {
            from_pid,
            to_proc: proc,
            reference: ref_val,
        } => {
            assert!(same(&from_pid, &from));
            assert!(same(&proc, &to_proc));
            assert!(same(&ref_val, &Term::Reference(reference)));
        }
        _ => panic!("Expected MonitorP message"),
    }
}

#[test]
fn test_builder_creates_send_sender_message_with_explicit_sender() {
    let from = ControlMessageBuilder::make_pid("test@localhost", 0, 0, 1);
    let to = ControlMessageBuilder::make_pid("test@localhost", 1, 0, 1);

    let msg = ControlMessageBuilder::send_sender(from.duplicate(), to.duplicate());

    match msg {
        ControlMessage::SendSender { from_pid, to_pid } => {
            assert!(same(&from_pid, &from));
            assert!(same(&to_pid, &to));
        }
        _ => panic!("Expected SendSender message"),
    }
}

#[test]
fn test_builder_creates_unlink_id_message() {
    let id = 12345u64;
    let from = ControlMessageBuilder::make_pid("test@localhost", 0, 0, 1);
    let to = ControlMessageBuilder::make_pid("test@localhost", 1, 0, 1);

    let msg = ControlMessageBuilder::unlink_id(id, from.duplicate(), to.duplicate());

    match msg {
        ControlMessage::UnlinkId {
            id: msg_id,
            from_pid,
            to_pid,
        } => {
            assert!(same(&msg_id, &id));
            assert!(same(&from_pid, &from));
            assert!(same(&to_pid, &to));
        }
        _ => panic!("Expected UnlinkId message"),
    }
}

#[test]
fn test_builder_creates_alias_send_message() {
    let from = ControlMessageBuilder::make_pid("test@localhost", 0, 0, 1);
    let alias = ext_ref("test@localhost", 2, vec![1, 2, 3]);

    let msg = ControlMessageBuilder::alias_send(from.duplicate(), alias.duplicate());

    match msg {
        ControlMessage::AliasSend {
            from_pid,
            alias: alias_ref,
        } => {
            assert!(same(&from_pid, &from));
            assert!(same(&alias_ref, &Term::Reference(alias)));
        }
        _ => panic!("Expected AliasSend message"),
    }
}

#[test]
fn test_builder_creates_node_link_message() {
    let msg = ControlMessageBuilder::node_link();

    match msg {
        ControlMessage::NodeLink => {}
        _ => panic!("Expected NodeLink message"),
    }
}

#[test]
fn test_builder_creates_group_leader_message() {
    let from = ControlMessageBuilder::make_pid("test@localhost", 0, 0, 1);
    let to = ControlMessageBuilder::make_pid("test@localhost", 1, 0, 1);

    let msg = ControlMessageBuilder::group_leader(from.duplicate(), to.duplicate());

    match msg {
        ControlMessage::GroupLeader { from_pid, to_pid } => {
            assert!(same(&from_pid, &from));
            assert!(same(&to_pid, &to));
        }
        _ => panic!("Expected GroupLeader message"),
    }
}

#[test]
fn test_builder_creates_exit2_message() {
    let from = ControlMessageBuilder::make_pid("test@localhost", 0, 0, 1);
    let to = ControlMessageBuilder::make_pid("test@localhost", 1, 0, 1);
    let reason = Term::atom("kill");

    let msg = ControlMessageBuilder::exit2(from.duplicate(), to.duplicate(), reason.duplicate());

    match msg {
        ControlMessage::Exit2 {
            from_pid,
            to_pid,
            reason: r,
        } => {
            assert!(same(&from_pid, &from));
            assert!(same(&to_pid, &to));
            assert!(same(&r, &reason));
        }
        _ => panic!("Expected Exit2 message"),
    }
}

#[allow(dead_code)]
struct ControlMessageBuilder;

impl ControlMessageBuilder {
    pub fn make_pid(node: &str, pid: u32, serial: u32, creation: u32) -> Term {
        pid_term(node, pid, serial, creation)
    }

    pub fn link(from_pid: Term, to_pid: Term) -> ControlMessage {
        ControlMessage::Link { from_pid, to_pid }
    }

    pub fn send(to_pid: Term) -> ControlMessage {
        ControlMessage::Send {
            cookie: Term::atom(""),
            to_pid,
        }
    }

    pub fn exit(from_pid: Term, to_pid: Term, reason: Term) -> ControlMessage {
        ControlMessage::Exit {
            from_pid,
            to_pid,
            reason,
        }
    }

    pub fn reg_send(from_pid: Term, to_name: &str) -> ControlMessage {
        ControlMessage::RegSend {
            from_pid,
            cookie: Term::atom(""),
            to_name: Term::atom(to_name),
        }
    }

    pub fn monitor_p(
        from_pid: Term,
        to_proc: Term,
        reference: Reference,
    ) -> ControlMessage {
        ControlMessage::MonitorP {
            from_pid,
            to_proc,
            reference: Term::Reference(reference),
        }
    }

    pub fn demonitor_p(
        from_pid: Term,
        to_proc: Term,
        reference: Reference,
    ) -> ControlMessage {
        ControlMessage::DemonitorP {
            from_pid,
            to_proc,
            reference: Term::Reference(reference),
        }
    }

    pub fn monitor_p_exit(
        from_proc: Term,
        to_pid: Term,
        reference: Reference,
        reason: Term,
    ) -> ControlMessage {
        ControlMessage::MonitorPExit {
            from_proc,
            to_pid,
            reference: Term::Reference(reference),
            reason,
        }
    }

    pub fn send_sender(from_pid: Term, to_pid: Term) -> ControlMessage {
        ControlMessage::SendSender { from_pid, to_pid }
    }

    pub fn unlink_id(id: u64, from_pid: Term, to_pid: Term) -> ControlMessage {
        ControlMessage::UnlinkId {
            id,
            from_pid,
            to_pid,
        }
    }

    pub fn unlink_id_ack(id: u64, from_pid: Term, to_pid: Term) -> ControlMessage {
        ControlMessage::UnlinkIdAck {
            id,
            from_pid,
            to_pid,
        }
    }

    pub fn alias_send(from_pid: Term, alias: Reference) -> ControlMessage {
        ControlMessage::AliasSend {
            from_pid,
            alias: Term::Reference(alias),
        }
    }

    pub fn exit2(from_pid: Term, to_pid: Term, reason: Term) -> ControlMessage {
        ControlMessage::Exit2 {
            from_pid,
            to_pid,
            reason,
        }
    }

    pub fn node_link() -> ControlMessage {
        ControlMessage::NodeLink
    }

    pub fn group_leader(from_pid: Term, to_pid: Term) -> ControlMessage {
        ControlMessage::GroupLeader { from_pid, to_pid }
    }
}
