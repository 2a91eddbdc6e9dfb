//! Distribution control messages: the tuples that nodes exchange to link,
//! monitor, send and spawn, and their reading from and writing to terms.
use vstd::prelude::*;
use vstd::string::*;
use crate::errors::{Error, Result};
use crate::term::{self, Term, TermV};
use crate::text;

verus! {

/// The type of a control message: the first element of its tuple.
#[derive(Debug, Clone, Copy, PartialEq, Eq, Structural)]
pub enum ControlMessageType {
    Link,
    Send,
    Exit,
    Unlink,
    NodeLink,
    RegSend,
    GroupLeader,
    Exit2,
    SendTt,
    ExitTt,
    RegSendTt,
    Exit2Tt,
    MonitorP,
    DemonitorP,
    MonitorPExit,
    SendSender,
    SendSenderTt,
    PayloadExit,
    PayloadExitTt,
    PayloadExit2,
    PayloadExit2Tt,
    PayloadMonitorPExit,
    SpawnRequest,
    SpawnRequestTt,
    SpawnReply,
    SpawnReplyTt,
    UnlinkId,
    UnlinkIdAck,
    AliasSend,
    AliasSendTt,
}

impl ControlMessageType {
    /// The number that stands for this type on the wire.
    pub open spec fn code(self) -> u8 {
        match self {
            ControlMessageType::Link => 1,
            ControlMessageType::Send => 2,
            ControlMessageType::Exit => 3,
            ControlMessageType::Unlink => 4,
            ControlMessageType::NodeLink => 5,
            ControlMessageType::RegSend => 6,
            ControlMessageType::GroupLeader => 7,
            ControlMessageType::Exit2 => 8,
            ControlMessageType::SendTt => 12,
            ControlMessageType::ExitTt => 13,
            ControlMessageType::RegSendTt => 16,
            ControlMessageType::Exit2Tt => 18,
            ControlMessageType::MonitorP => 19,
            ControlMessageType::DemonitorP => 20,
            ControlMessageType::MonitorPExit => 21,
            ControlMessageType::SendSender => 22,
            ControlMessageType::SendSenderTt => 23,
            ControlMessageType::PayloadExit => 24,
            ControlMessageType::PayloadExitTt => 25,
            ControlMessageType::PayloadExit2 => 26,
            ControlMessageType::PayloadExit2Tt => 27,
            ControlMessageType::PayloadMonitorPExit => 28,
            ControlMessageType::SpawnRequest => 29,
            ControlMessageType::SpawnRequestTt => 30,
            ControlMessageType::SpawnReply => 31,
            ControlMessageType::SpawnReplyTt => 32,
            ControlMessageType::UnlinkId => 35,
            ControlMessageType::UnlinkIdAck => 36,
            ControlMessageType::AliasSend => 33,
            ControlMessageType::AliasSendTt => 38,
        }
    }

    /// The type of a control message number, if it has one.
    pub open spec fn of_code(value: u8) -> Option<ControlMessageType> {
        match value {
            1 => Some(ControlMessageType::Link),
            2 => Some(ControlMessageType::Send),
            3 => Some(ControlMessageType::Exit),
            4 => Some(ControlMessageType::Unlink),
            5 => Some(ControlMessageType::NodeLink),
            6 => Some(ControlMessageType::RegSend),
            7 => Some(ControlMessageType::GroupLeader),
            8 => Some(ControlMessageType::Exit2),
            12 => Some(ControlMessageType::SendTt),
            13 => Some(ControlMessageType::ExitTt),
            16 => Some(ControlMessageType::RegSendTt),
            18 => Some(ControlMessageType::Exit2Tt),
            19 => Some(ControlMessageType::MonitorP),
            20 => Some(ControlMessageType::DemonitorP),
            21 => Some(ControlMessageType::MonitorPExit),
            22 => Some(ControlMessageType::SendSender),
            23 => Some(ControlMessageType::SendSenderTt),
            24 => Some(ControlMessageType::PayloadExit),
            25 => Some(ControlMessageType::PayloadExitTt),
            26 => Some(ControlMessageType::PayloadExit2),
            27 => Some(ControlMessageType::PayloadExit2Tt),
            28 => Some(ControlMessageType::PayloadMonitorPExit),
            29 => Some(ControlMessageType::SpawnRequest),
            30 => Some(ControlMessageType::SpawnRequestTt),
            31 => Some(ControlMessageType::SpawnReply),
            32 => Some(ControlMessageType::SpawnReplyTt),
            33 => Some(ControlMessageType::AliasSend),
            35 => Some(ControlMessageType::UnlinkId),
            36 => Some(ControlMessageType::UnlinkIdAck),
            38 => Some(ControlMessageType::AliasSendTt),
            _ => None,
        }
    }

    pub fn from_u8(value: u8) -> (r: Option<Self>)
        ensures
            r == Self::of_code(value),
    {
        match value {
            1 => Some(ControlMessageType::Link),
            2 => Some(ControlMessageType::Send),
            3 => Some(ControlMessageType::Exit),
            4 => Some(ControlMessageType::Unlink),
            5 => Some(ControlMessageType::NodeLink),
            6 => Some(ControlMessageType::RegSend),
            7 => Some(ControlMessageType::GroupLeader),
            8 => Some(ControlMessageType::Exit2),
            12 => Some(ControlMessageType::SendTt),
            13 => Some(ControlMessageType::ExitTt),
            16 => Some(ControlMessageType::RegSendTt),
            18 => Some(ControlMessageType::Exit2Tt),
            19 => Some(ControlMessageType::MonitorP),
            20 => Some(ControlMessageType::DemonitorP),
            21 => Some(ControlMessageType::MonitorPExit),
            22 => Some(ControlMessageType::SendSender),
            23 => Some(ControlMessageType::SendSenderTt),
            24 => Some(ControlMessageType::PayloadExit),
            25 => Some(ControlMessageType::PayloadExitTt),
            26 => Some(ControlMessageType::PayloadExit2),
            27 => Some(ControlMessageType::PayloadExit2Tt),
            28 => Some(ControlMessageType::PayloadMonitorPExit),
            29 => Some(ControlMessageType::SpawnRequest),
            30 => Some(ControlMessageType::SpawnRequestTt),
            31 => Some(ControlMessageType::SpawnReply),
            32 => Some(ControlMessageType::SpawnReplyTt),
            33 => Some(ControlMessageType::AliasSend),
            35 => Some(ControlMessageType::UnlinkId),
            36 => Some(ControlMessageType::UnlinkIdAck),
            38 => Some(ControlMessageType::AliasSendTt),
            _ => None,
        }
    }

    pub fn as_u8(self) -> (r: u8)
        ensures
            r == self.code(),
    {
        match self {
            ControlMessageType::Link => 1,
            ControlMessageType::Send => 2,
            ControlMessageType::Exit => 3,
            ControlMessageType::Unlink => 4,
            ControlMessageType::NodeLink => 5,
            ControlMessageType::RegSend => 6,
            ControlMessageType::GroupLeader => 7,
            ControlMessageType::Exit2 => 8,
            ControlMessageType::SendTt => 12,
            ControlMessageType::ExitTt => 13,
            ControlMessageType::RegSendTt => 16,
            ControlMessageType::Exit2Tt => 18,
            ControlMessageType::MonitorP => 19,
            ControlMessageType::DemonitorP => 20,
            ControlMessageType::MonitorPExit => 21,
            ControlMessageType::SendSender => 22,
            ControlMessageType::SendSenderTt => 23,
            ControlMessageType::PayloadExit => 24,
            ControlMessageType::PayloadExitTt => 25,
            ControlMessageType::PayloadExit2 => 26,
            ControlMessageType::PayloadExit2Tt => 27,
            ControlMessageType::PayloadMonitorPExit => 28,
            ControlMessageType::SpawnRequest => 29,
            ControlMessageType::SpawnRequestTt => 30,
            ControlMessageType::SpawnReply => 31,
            ControlMessageType::SpawnReplyTt => 32,
            ControlMessageType::UnlinkId => 35,
            ControlMessageType::UnlinkIdAck => 36,
            ControlMessageType::AliasSend => 33,
            ControlMessageType::AliasSendTt => 38,
        }
    }
}

/// Every type's number gives that type back.
pub proof fn lemma_control_type_code_roundtrip(t: ControlMessageType)
    ensures
        ControlMessageType::of_code(t.code()) == Some(t),
{
}

/// A control message. Its fields are terms in the order of the tuple.
#[derive(Debug)]
pub enum ControlMessage {
    /// LINK `{1, FromPid, ToPid}`
    Link {
        from_pid: Term,
        to_pid: Term,
    },
    /// SEND `{2, Cookie, ToPid}`
    Send {
        cookie: Term,
        to_pid: Term,
    },
    /// EXIT `{3, FromPid, ToPid, Reason}`
    Exit {
        from_pid: Term,
        to_pid: Term,
        reason: Term,
    },
    /// UNLINK_ID `{35, Id, FromPid, ToPid}`
    UnlinkId {
        id: u64,
        from_pid: Term,
        to_pid: Term,
    },
    /// UNLINK_ID_ACK `{36, Id, FromPid, ToPid}`
    UnlinkIdAck {
        id: u64,
        from_pid: Term,
        to_pid: Term,
    },
    /// REG_SEND `{6, FromPid, Cookie, ToName}`
    RegSend {
        from_pid: Term,
        cookie: Term,
        to_name: Term,
    },
    /// MONITOR_P `{19, FromPid, ToProc, Ref}`
    MonitorP {
        from_pid: Term,
        to_proc: Term,
        reference: Term,
    },
    /// DEMONITOR_P `{20, FromPid, ToProc, Ref}`
    DemonitorP {
        from_pid: Term,
        to_proc: Term,
        reference: Term,
    },
    /// MONITOR_P_EXIT `{21, FromProc, ToPid, Ref, Reason}`
    MonitorPExit {
        from_proc: Term,
        to_pid: Term,
        reference: Term,
        reason: Term,
    },
    /// SPAWN_REQUEST `{29, ReqId, From, GroupLeader, {Module, Function, Arity}, ArgList, OptList}`
    SpawnRequest {
        req_id: Term,
        from: Term,
        group_leader: Term,
        mfa: Term,
        arg_list: Term,
        opt_list: Term,
    },
    /// SPAWN_REPLY `{31, ReqId, To, Flags, Result}`
    SpawnReply {
        req_id: Term,
        to: Term,
        flags: Term,
        result: Term,
    },
    /// ALIAS_SEND `{33, FromPid, Alias}`
    AliasSend {
        from_pid: Term,
        alias: Term,
    },
    /// UNLINK `{4, FromPid, ToPid}` (deprecated in favour of UNLINK_ID)
    Unlink {
        from_pid: Term,
        to_pid: Term,
    },
    /// NODE_LINK `{5}`
    NodeLink,
    /// GROUP_LEADER `{7, FromPid, ToPid}`
    GroupLeader {
        from_pid: Term,
        to_pid: Term,
    },
    /// EXIT2 `{8, FromPid, ToPid, Reason}`
    Exit2 {
        from_pid: Term,
        to_pid: Term,
        reason: Term,
    },
    /// SEND_SENDER `{22, FromPid, ToPid}`
    SendSender {
        from_pid: Term,
        to_pid: Term,
    },
    /// PAYLOAD_EXIT `{24, FromPid, ToPid}`
    PayloadExit {
        from_pid: Term,
        to_pid: Term,
    },
    /// PAYLOAD_EXIT2 `{26, FromPid, ToPid}`
    PayloadExit2 {
        from_pid: Term,
        to_pid: Term,
    },
    /// PAYLOAD_MONITOR_P_EXIT `{28, FromProc, ToPid, Ref}`
    PayloadMonitorPExit {
        from_proc: Term,
        to_pid: Term,
        reference: Term,
    },
    /// SEND_TT `{12, Cookie, ToPid, TraceToken}`
    SendTt {
        cookie: Term,
        to_pid: Term,
        trace_token: Term,
    },
    /// EXIT_TT `{13, FromPid, ToPid, TraceToken, Reason}`
    ExitTt {
        from_pid: Term,
        to_pid: Term,
        trace_token: Term,
        reason: Term,
    },
    /// REG_SEND_TT `{16, FromPid, Cookie, ToName, TraceToken}`
    RegSendTt {
        from_pid: Term,
        cookie: Term,
        to_name: Term,
        trace_token: Term,
    },
    /// EXIT2_TT `{18, FromPid, ToPid, TraceToken, Reason}`
    Exit2Tt {
        from_pid: Term,
        to_pid: Term,
        trace_token: Term,
        reason: Term,
    },
    /// SEND_SENDER_TT `{23, FromPid, ToPid, TraceToken}`
    SendSenderTt {
        from_pid: Term,
        to_pid: Term,
        trace_token: Term,
    },
    /// PAYLOAD_EXIT_TT `{25, FromPid, ToPid, TraceToken}`
    PayloadExitTt {
        from_pid: Term,
        to_pid: Term,
        trace_token: Term,
    },
    /// PAYLOAD_EXIT2_TT `{27, FromPid, ToPid, TraceToken}`
    PayloadExit2Tt {
        from_pid: Term,
        to_pid: Term,
        trace_token: Term,
    },
    /// SPAWN_REQUEST_TT `{30, ReqId, From, GroupLeader, {Module, Function, Arity}, ArgList, OptList, TraceToken}`
    SpawnRequestTt {
        req_id: Term,
        from: Term,
        group_leader: Term,
        mfa: Term,
        arg_list: Term,
        opt_list: Term,
        trace_token: Term,
    },
    /// SPAWN_REPLY_TT `{32, ReqId, To, Flags, Result, TraceToken}`
    SpawnReplyTt {
        req_id: Term,
        to: Term,
        flags: Term,
        result: Term,
        trace_token: Term,
    },
    /// ALIAS_SEND_TT `{38, FromPid, Alias, TraceToken}`
    AliasSendTt {
        from_pid: Term,
        alias: Term,
        trace_token: Term,
    },
    /// A message of any other type or shape.
    Generic { message_type: u8, fields: Vec<Term> },
}

/// The length of the tuple of a control message number that has a type.
pub open spec fn control_tuple_len(value: u8) -> int {
    match value {
        1 => 3,
        2 => 3,
        3 => 4,
        4 => 3,
        5 => 1,
        6 => 4,
        7 => 3,
        8 => 4,
        12 => 4,
        13 => 5,
        16 => 5,
        18 => 5,
        19 => 4,
        20 => 4,
        21 => 5,
        22 => 3,
        23 => 4,
        24 => 3,
        25 => 4,
        26 => 3,
        27 => 4,
        28 => 4,
        29 => 7,
        30 => 8,
        31 => 5,
        32 => 6,
        33 => 3,
        35 => 4,
        36 => 4,
        38 => 4,
        _ => 0,
    }
}

/// What a term reads as: a message with a number and fields (of a known
/// type, or generic), or a refusal with its text.
pub enum ControlReading {
    Parsed { tag: u8, fields: Seq<TermV>, generic: bool },
    Refused(Seq<char>),
}

/// How a control message is read from a term.
pub open spec fn read_control(t: TermV) -> ControlReading {
    match t {
        TermV::Tuple(es) => if es.len() == 0 {
            ControlReading::Refused("Control message tuple is empty"@)
        } else {
            match es[0] {
                TermV::Integer(c) => if c < 0 || c > 255 {
                    ControlReading::Refused(
                        "Message type out of range: "@ + text::signed_decimal_chars(c as int),
                    )
                } else {
                    let code = c as u8;
                    let rest = es.subrange(1, es.len() as int);
                    if control_tuple_len(code) == es.len() && code == 35 {
                        match es[1] {
                            TermV::Integer(id) => if id < 0 {
                                ControlReading::Refused(
                                    "UNLINK_ID id must be non-negative: "@
                                        + text::signed_decimal_chars(id as int),
                                )
                            } else {
                                ControlReading::Parsed { tag: code, fields: rest, generic: false }
                            },
                            _ => ControlReading::Refused("UNLINK_ID id must be an integer"@),
                        }
                    } else if control_tuple_len(code) == es.len() && code == 36 {
                        match es[1] {
                            TermV::Integer(id) => if id < 0 {
                                ControlReading::Refused(
                                    "UNLINK_ID_ACK id must be non-negative: "@
                                        + text::signed_decimal_chars(id as int),
                                )
                            } else {
                                ControlReading::Parsed { tag: code, fields: rest, generic: false }
                            },
                            _ => ControlReading::Refused("UNLINK_ID_ACK id must be an integer"@),
                        }
                    } else if control_tuple_len(code) == es.len() {
                        ControlReading::Parsed { tag: code, fields: rest, generic: false }
                    } else {
                        ControlReading::Parsed { tag: code, fields: rest, generic: true }
                    }
                },
                _ => ControlReading::Refused("Message type must be an integer"@),
            }
        },
        _ => ControlReading::Refused("Control message must be a tuple"@),
    }
}

/// A tuple with an integer first, then the given terms.
fn tagged_tuple(tag: u8, fields: Vec<Term>) -> (r: Term)
    ensures
        r@ == TermV::Tuple(seq![TermV::Integer(tag as i64)] + Term::values(fields@)),
{
    let mut elements: Vec<Term> = Vec::new();
    elements.push(Term::Integer(tag as i64));
    let mut rest = fields;
    let ghost f = rest@;
    elements.append(&mut rest);
    proof {
        term::lemma_values_index(elements@);
        term::lemma_values_index(f);
        assert(Term::values(elements@) =~= seq![TermV::Integer(tag as i64)] + Term::values(f));
    }
    Term::Tuple(elements)
}

impl ControlMessage {
    /// The number of this message's type.
    pub open spec fn tag(&self) -> u8 {
        match self {
            ControlMessage::Link { .. } => 1,
            ControlMessage::Send { .. } => 2,
            ControlMessage::Exit { .. } => 3,
            ControlMessage::UnlinkId { .. } => 35,
            ControlMessage::UnlinkIdAck { .. } => 36,
            ControlMessage::RegSend { .. } => 6,
            ControlMessage::MonitorP { .. } => 19,
            ControlMessage::DemonitorP { .. } => 20,
            ControlMessage::MonitorPExit { .. } => 21,
            ControlMessage::SpawnRequest { .. } => 29,
            ControlMessage::SpawnReply { .. } => 31,
            ControlMessage::AliasSend { .. } => 33,
            ControlMessage::Unlink { .. } => 4,
            ControlMessage::NodeLink => 5,
            ControlMessage::GroupLeader { .. } => 7,
            ControlMessage::Exit2 { .. } => 8,
            ControlMessage::SendSender { .. } => 22,
            ControlMessage::PayloadExit { .. } => 24,
            ControlMessage::PayloadExit2 { .. } => 26,
            ControlMessage::PayloadMonitorPExit { .. } => 28,
            ControlMessage::SendTt { .. } => 12,
            ControlMessage::ExitTt { .. } => 13,
            ControlMessage::RegSendTt { .. } => 16,
            ControlMessage::Exit2Tt { .. } => 18,
            ControlMessage::SendSenderTt { .. } => 23,
            ControlMessage::PayloadExitTt { .. } => 25,
            ControlMessage::PayloadExit2Tt { .. } => 27,
            ControlMessage::SpawnRequestTt { .. } => 30,
            ControlMessage::SpawnReplyTt { .. } => 32,
            ControlMessage::AliasSendTt { .. } => 38,
            ControlMessage::Generic { message_type, .. } => *message_type,
        }
    }

    /// The values of the fields, in tuple order; an id is an integer.
    pub open spec fn field_values(&self) -> Seq<TermV> {
        match self {
            ControlMessage::Link { from_pid, to_pid } => seq![from_pid@, to_pid@],
            ControlMessage::Send { cookie, to_pid } => seq![cookie@, to_pid@],
            ControlMessage::Exit { from_pid, to_pid, reason } => seq![from_pid@, to_pid@, reason@],
            ControlMessage::UnlinkId { id, from_pid, to_pid } => seq![TermV::Integer(*id as i64), from_pid@, to_pid@],
            ControlMessage::UnlinkIdAck { id, from_pid, to_pid } => seq![TermV::Integer(*id as i64), from_pid@, to_pid@],
            ControlMessage::RegSend { from_pid, cookie, to_name } => seq![from_pid@, cookie@, to_name@],
            ControlMessage::MonitorP { from_pid, to_proc, reference } => seq![from_pid@, to_proc@, reference@],
            ControlMessage::DemonitorP { from_pid, to_proc, reference } => seq![from_pid@, to_proc@, reference@],
            ControlMessage::MonitorPExit { from_proc, to_pid, reference, reason } => seq![from_proc@, to_pid@, reference@, reason@],
            ControlMessage::SpawnRequest { req_id, from, group_leader, mfa, arg_list, opt_list } => seq![req_id@, from@, group_leader@, mfa@, arg_list@, opt_list@],
            ControlMessage::SpawnReply { req_id, to, flags, result } => seq![req_id@, to@, flags@, result@],
            ControlMessage::AliasSend { from_pid, alias } => seq![from_pid@, alias@],
            ControlMessage::Unlink { from_pid, to_pid } => seq![from_pid@, to_pid@],
            ControlMessage::NodeLink => seq![],
            ControlMessage::GroupLeader { from_pid, to_pid } => seq![from_pid@, to_pid@],
            ControlMessage::Exit2 { from_pid, to_pid, reason } => seq![from_pid@, to_pid@, reason@],
            ControlMessage::SendSender { from_pid, to_pid } => seq![from_pid@, to_pid@],
            ControlMessage::PayloadExit { from_pid, to_pid } => seq![from_pid@, to_pid@],
            ControlMessage::PayloadExit2 { from_pid, to_pid } => seq![from_pid@, to_pid@],
            ControlMessage::PayloadMonitorPExit { from_proc, to_pid, reference } => seq![from_proc@, to_pid@, reference@],
            ControlMessage::SendTt { cookie, to_pid, trace_token } => seq![cookie@, to_pid@, trace_token@],
            ControlMessage::ExitTt { from_pid, to_pid, trace_token, reason } => seq![from_pid@, to_pid@, trace_token@, reason@],
            ControlMessage::RegSendTt { from_pid, cookie, to_name, trace_token } => seq![from_pid@, cookie@, to_name@, trace_token@],
            ControlMessage::Exit2Tt { from_pid, to_pid, trace_token, reason } => seq![from_pid@, to_pid@, trace_token@, reason@],
            ControlMessage::SendSenderTt { from_pid, to_pid, trace_token } => seq![from_pid@, to_pid@, trace_token@],
            ControlMessage::PayloadExitTt { from_pid, to_pid, trace_token } => seq![from_pid@, to_pid@, trace_token@],
            ControlMessage::PayloadExit2Tt { from_pid, to_pid, trace_token } => seq![from_pid@, to_pid@, trace_token@],
            ControlMessage::SpawnRequestTt { req_id, from, group_leader, mfa, arg_list, opt_list, trace_token } => seq![req_id@, from@, group_leader@, mfa@, arg_list@, opt_list@, trace_token@],
            ControlMessage::SpawnReplyTt { req_id, to, flags, result, trace_token } => seq![req_id@, to@, flags@, result@, trace_token@],
            ControlMessage::AliasSendTt { from_pid, alias, trace_token } => seq![from_pid@, alias@, trace_token@],
            ControlMessage::Generic { fields, .. } => Term::values(fields@),
        }
    }

    /// The tuple this message is written as.
    pub open spec fn term_value(&self) -> TermV {
        TermV::Tuple(seq![TermV::Integer(self.tag() as i64)] + self.field_values())
    }

    /// Writes this message as a tuple: its number, then its fields. An id is
    /// written as a signed 64-bit integer.
    pub fn to_term(&self) -> (r: Term)
        ensures
            r@ == self.term_value(),
    {
        match self {
            ControlMessage::Link { from_pid, to_pid } => {
                let fields: Vec<Term> = vec![from_pid.duplicate(), to_pid.duplicate()];
                proof { term::lemma_values_index(fields@); assert(Term::values(fields@) =~= self.field_values()); }
                tagged_tuple(1, fields)
            },
            ControlMessage::Send { cookie, to_pid } => {
                let fields: Vec<Term> = vec![cookie.duplicate(), to_pid.duplicate()];
                proof { term::lemma_values_index(fields@); assert(Term::values(fields@) =~= self.field_values()); }
                tagged_tuple(2, fields)
            },
            ControlMessage::Exit { from_pid, to_pid, reason } => {
                let fields: Vec<Term> = vec![from_pid.duplicate(), to_pid.duplicate(), reason.duplicate()];
                proof { term::lemma_values_index(fields@); assert(Term::values(fields@) =~= self.field_values()); }
                tagged_tuple(3, fields)
            },
            ControlMessage::UnlinkId { id, from_pid, to_pid } => {
                let fields: Vec<Term> = vec![Term::Integer(*id as i64), from_pid.duplicate(), to_pid.duplicate()];
                proof { term::lemma_values_index(fields@); assert(Term::values(fields@) =~= self.field_values()); }
                tagged_tuple(35, fields)
            },
            ControlMessage::UnlinkIdAck { id, from_pid, to_pid } => {
                let fields: Vec<Term> = vec![Term::Integer(*id as i64), from_pid.duplicate(), to_pid.duplicate()];
                proof { term::lemma_values_index(fields@); assert(Term::values(fields@) =~= self.field_values()); }
                tagged_tuple(36, fields)
            },
            ControlMessage::RegSend { from_pid, cookie, to_name } => {
                let fields: Vec<Term> = vec![from_pid.duplicate(), cookie.duplicate(), to_name.duplicate()];
                proof { term::lemma_values_index(fields@); assert(Term::values(fields@) =~= self.field_values()); }
                tagged_tuple(6, fields)
            },
            ControlMessage::MonitorP { from_pid, to_proc, reference } => {
                let fields: Vec<Term> = vec![from_pid.duplicate(), to_proc.duplicate(), reference.duplicate()];
                proof { term::lemma_values_index(fields@); assert(Term::values(fields@) =~= self.field_values()); }
                tagged_tuple(19, fields)
            },
            ControlMessage::DemonitorP { from_pid, to_proc, reference } => {
                let fields: Vec<Term> = vec![from_pid.duplicate(), to_proc.duplicate(), reference.duplicate()];
                proof { term::lemma_values_index(fields@); assert(Term::values(fields@) =~= self.field_values()); }
                tagged_tuple(20, fields)
            },
            ControlMessage::MonitorPExit { from_proc, to_pid, reference, reason } => {
                let fields: Vec<Term> = vec![from_proc.duplicate(), to_pid.duplicate(), reference.duplicate(), reason.duplicate()];
                proof { term::lemma_values_index(fields@); assert(Term::values(fields@) =~= self.field_values()); }
                tagged_tuple(21, fields)
            },
            ControlMessage::SpawnRequest { req_id, from, group_leader, mfa, arg_list, opt_list } => {
                let fields: Vec<Term> = vec![req_id.duplicate(), from.duplicate(), group_leader.duplicate(), mfa.duplicate(), arg_list.duplicate(), opt_list.duplicate()];
                proof { term::lemma_values_index(fields@); assert(Term::values(fields@) =~= self.field_values()); }
                tagged_tuple(29, fields)
            },
            ControlMessage::SpawnReply { req_id, to, flags, result } => {
                let fields: Vec<Term> = vec![req_id.duplicate(), to.duplicate(), flags.duplicate(), result.duplicate()];
                proof { term::lemma_values_index(fields@); assert(Term::values(fields@) =~= self.field_values()); }
                tagged_tuple(31, fields)
            },
            ControlMessage::AliasSend { from_pid, alias } => {
                let fields: Vec<Term> = vec![from_pid.duplicate(), alias.duplicate()];
                proof { term::lemma_values_index(fields@); assert(Term::values(fields@) =~= self.field_values()); }
                tagged_tuple(33, fields)
            },
            ControlMessage::Unlink { from_pid, to_pid } => {
                let fields: Vec<Term> = vec![from_pid.duplicate(), to_pid.duplicate()];
                proof { term::lemma_values_index(fields@); assert(Term::values(fields@) =~= self.field_values()); }
                tagged_tuple(4, fields)
            },
            ControlMessage::NodeLink => {
                let fields: Vec<Term> = vec![];
                proof { term::lemma_values_index(fields@); assert(Term::values(fields@) =~= self.field_values()); }
                tagged_tuple(5, fields)
            },
            ControlMessage::GroupLeader { from_pid, to_pid } => {
                let fields: Vec<Term> = vec![from_pid.duplicate(), to_pid.duplicate()];
                proof { term::lemma_values_index(fields@); assert(Term::values(fields@) =~= self.field_values()); }
                tagged_tuple(7, fields)
            },
            ControlMessage::Exit2 { from_pid, to_pid, reason } => {
                let fields: Vec<Term> = vec![from_pid.duplicate(), to_pid.duplicate(), reason.duplicate()];
                proof { term::lemma_values_index(fields@); assert(Term::values(fields@) =~= self.field_values()); }
                tagged_tuple(8, fields)
            },
            ControlMessage::SendSender { from_pid, to_pid } => {
                let fields: Vec<Term> = vec![from_pid.duplicate(), to_pid.duplicate()];
                proof { term::lemma_values_index(fields@); assert(Term::values(fields@) =~= self.field_values()); }
                tagged_tuple(22, fields)
            },
            ControlMessage::PayloadExit { from_pid, to_pid } => {
                let fields: Vec<Term> = vec![from_pid.duplicate(), to_pid.duplicate()];
                proof { term::lemma_values_index(fields@); assert(Term::values(fields@) =~= self.field_values()); }
                tagged_tuple(24, fields)
            },
            ControlMessage::PayloadExit2 { from_pid, to_pid } => {
                let fields: Vec<Term> = vec![from_pid.duplicate(), to_pid.duplicate()];
                proof { term::lemma_values_index(fields@); assert(Term::values(fields@) =~= self.field_values()); }
                tagged_tuple(26, fields)
            },
            ControlMessage::PayloadMonitorPExit { from_proc, to_pid, reference } => {
                let fields: Vec<Term> = vec![from_proc.duplicate(), to_pid.duplicate(), reference.duplicate()];
                proof { term::lemma_values_index(fields@); assert(Term::values(fields@) =~= self.field_values()); }
                tagged_tuple(28, fields)
            },
            ControlMessage::SendTt { cookie, to_pid, trace_token } => {
                let fields: Vec<Term> = vec![cookie.duplicate(), to_pid.duplicate(), trace_token.duplicate()];
                proof { term::lemma_values_index(fields@); assert(Term::values(fields@) =~= self.field_values()); }
                tagged_tuple(12, fields)
            },
            ControlMessage::ExitTt { from_pid, to_pid, trace_token, reason } => {
                let fields: Vec<Term> = vec![from_pid.duplicate(), to_pid.duplicate(), trace_token.duplicate(), reason.duplicate()];
                proof { term::lemma_values_index(fields@); assert(Term::values(fields@) =~= self.field_values()); }
                tagged_tuple(13, fields)
            },
            ControlMessage::RegSendTt { from_pid, cookie, to_name, trace_token } => {
                let fields: Vec<Term> = vec![from_pid.duplicate(), cookie.duplicate(), to_name.duplicate(), trace_token.duplicate()];
                proof { term::lemma_values_index(fields@); assert(Term::values(fields@) =~= self.field_values()); }
                tagged_tuple(16, fields)
            },
            ControlMessage::Exit2Tt { from_pid, to_pid, trace_token, reason } => {
                let fields: Vec<Term> = vec![from_pid.duplicate(), to_pid.duplicate(), trace_token.duplicate(), reason.duplicate()];
                proof { term::lemma_values_index(fields@); assert(Term::values(fields@) =~= self.field_values()); }
                tagged_tuple(18, fields)
            },
            ControlMessage::SendSenderTt { from_pid, to_pid, trace_token } => {
                let fields: Vec<Term> = vec![from_pid.duplicate(), to_pid.duplicate(), trace_token.duplicate()];
                proof { term::lemma_values_index(fields@); assert(Term::values(fields@) =~= self.field_values()); }
                tagged_tuple(23, fields)
            },
            ControlMessage::PayloadExitTt { from_pid, to_pid, trace_token } => {
                let fields: Vec<Term> = vec![from_pid.duplicate(), to_pid.duplicate(), trace_token.duplicate()];
                proof { term::lemma_values_index(fields@); assert(Term::values(fields@) =~= self.field_values()); }
                tagged_tuple(25, fields)
            },
            ControlMessage::PayloadExit2Tt { from_pid, to_pid, trace_token } => {
                let fields: Vec<Term> = vec![from_pid.duplicate(), to_pid.duplicate(), trace_token.duplicate()];
                proof { term::lemma_values_index(fields@); assert(Term::values(fields@) =~= self.field_values()); }
                tagged_tuple(27, fields)
            },
            ControlMessage::SpawnRequestTt { req_id, from, group_leader, mfa, arg_list, opt_list, trace_token } => {
                let fields: Vec<Term> = vec![req_id.duplicate(), from.duplicate(), group_leader.duplicate(), mfa.duplicate(), arg_list.duplicate(), opt_list.duplicate(), trace_token.duplicate()];
                proof { term::lemma_values_index(fields@); assert(Term::values(fields@) =~= self.field_values()); }
                tagged_tuple(30, fields)
            },
            ControlMessage::SpawnReplyTt { req_id, to, flags, result, trace_token } => {
                let fields: Vec<Term> = vec![req_id.duplicate(), to.duplicate(), flags.duplicate(), result.duplicate(), trace_token.duplicate()];
                proof { term::lemma_values_index(fields@); assert(Term::values(fields@) =~= self.field_values()); }
                tagged_tuple(32, fields)
            },
            ControlMessage::AliasSendTt { from_pid, alias, trace_token } => {
                let fields: Vec<Term> = vec![from_pid.duplicate(), alias.duplicate(), trace_token.duplicate()];
                proof { term::lemma_values_index(fields@); assert(Term::values(fields@) =~= self.field_values()); }
                tagged_tuple(38, fields)
            },
            ControlMessage::Generic { message_type, fields } => {
                let copies = Term::duplicate_all(fields);
                tagged_tuple(*message_type, copies)
            },
        }
    }

    /// Writes this message as a tuple, as `to_term` does, moving the fields.
    pub fn into_term(self) -> (r: Term)
        ensures
            r@ == self.term_value(),
    {
        let ghost old_self = self;
        match self {
            ControlMessage::Link { from_pid, to_pid } => {
                let fields: Vec<Term> = vec![from_pid, to_pid];
                proof { term::lemma_values_index(fields@); assert(Term::values(fields@) =~= old_self.field_values()); }
                tagged_tuple(1, fields)
            },
            ControlMessage::Send { cookie, to_pid } => {
                let fields: Vec<Term> = vec![cookie, to_pid];
                proof { term::lemma_values_index(fields@); assert(Term::values(fields@) =~= old_self.field_values()); }
                tagged_tuple(2, fields)
            },
            ControlMessage::Exit { from_pid, to_pid, reason } => {
                let fields: Vec<Term> = vec![from_pid, to_pid, reason];
                proof { term::lemma_values_index(fields@); assert(Term::values(fields@) =~= old_self.field_values()); }
                tagged_tuple(3, fields)
            },
            ControlMessage::UnlinkId { id, from_pid, to_pid } => {
                let fields: Vec<Term> = vec![Term::Integer(id as i64), from_pid, to_pid];
                proof { term::lemma_values_index(fields@); assert(Term::values(fields@) =~= old_self.field_values()); }
                tagged_tuple(35, fields)
            },
            ControlMessage::UnlinkIdAck { id, from_pid, to_pid } => {
                let fields: Vec<Term> = vec![Term::Integer(id as i64), from_pid, to_pid];
                proof { term::lemma_values_index(fields@); assert(Term::values(fields@) =~= old_self.field_values()); }
                tagged_tuple(36, fields)
            },
            ControlMessage::RegSend { from_pid, cookie, to_name } => {
                let fields: Vec<Term> = vec![from_pid, cookie, to_name];
                proof { term::lemma_values_index(fields@); assert(Term::values(fields@) =~= old_self.field_values()); }
                tagged_tuple(6, fields)
            },
            ControlMessage::MonitorP { from_pid, to_proc, reference } => {
                let fields: Vec<Term> = vec![from_pid, to_proc, reference];
                proof { term::lemma_values_index(fields@); assert(Term::values(fields@) =~= old_self.field_values()); }
                tagged_tuple(19, fields)
            },
            ControlMessage::DemonitorP { from_pid, to_proc, reference } => {
                let fields: Vec<Term> = vec![from_pid, to_proc, reference];
                proof { term::lemma_values_index(fields@); assert(Term::values(fields@) =~= old_self.field_values()); }
                tagged_tuple(20, fields)
            },
            ControlMessage::MonitorPExit { from_proc, to_pid, reference, reason } => {
                let fields: Vec<Term> = vec![from_proc, to_pid, reference, reason];
                proof { term::lemma_values_index(fields@); assert(Term::values(fields@) =~= old_self.field_values()); }
                tagged_tuple(21, fields)
            },
            ControlMessage::SpawnRequest { req_id, from, group_leader, mfa, arg_list, opt_list } => {
                let fields: Vec<Term> = vec![req_id, from, group_leader, mfa, arg_list, opt_list];
                proof { term::lemma_values_index(fields@); assert(Term::values(fields@) =~= old_self.field_values()); }
                tagged_tuple(29, fields)
            },
            ControlMessage::SpawnReply { req_id, to, flags, result } => {
                let fields: Vec<Term> = vec![req_id, to, flags, result];
                proof { term::lemma_values_index(fields@); assert(Term::values(fields@) =~= old_self.field_values()); }
                tagged_tuple(31, fields)
            },
            ControlMessage::AliasSend { from_pid, alias } => {
                let fields: Vec<Term> = vec![from_pid, alias];
                proof { term::lemma_values_index(fields@); assert(Term::values(fields@) =~= old_self.field_values()); }
                tagged_tuple(33, fields)
            },
            ControlMessage::Unlink { from_pid, to_pid } => {
                let fields: Vec<Term> = vec![from_pid, to_pid];
                proof { term::lemma_values_index(fields@); assert(Term::values(fields@) =~= old_self.field_values()); }
                tagged_tuple(4, fields)
            },
            ControlMessage::NodeLink => {
                let fields: Vec<Term> = vec![];
                proof { term::lemma_values_index(fields@); assert(Term::values(fields@) =~= old_self.field_values()); }
                tagged_tuple(5, fields)
            },
            ControlMessage::GroupLeader { from_pid, to_pid } => {
                let fields: Vec<Term> = vec![from_pid, to_pid];
                proof { term::lemma_values_index(fields@); assert(Term::values(fields@) =~= old_self.field_values()); }
                tagged_tuple(7, fields)
            },
            ControlMessage::Exit2 { from_pid, to_pid, reason } => {
                let fields: Vec<Term> = vec![from_pid, to_pid, reason];
                proof { term::lemma_values_index(fields@); assert(Term::values(fields@) =~= old_self.field_values()); }
                tagged_tuple(8, fields)
            },
            ControlMessage::SendSender { from_pid, to_pid } => {
                let fields: Vec<Term> = vec![from_pid, to_pid];
                proof { term::lemma_values_index(fields@); assert(Term::values(fields@) =~= old_self.field_values()); }
                tagged_tuple(22, fields)
            },
            ControlMessage::PayloadExit { from_pid, to_pid } => {
                let fields: Vec<Term> = vec![from_pid, to_pid];
                proof { term::lemma_values_index(fields@); assert(Term::values(fields@) =~= old_self.field_values()); }
                tagged_tuple(24, fields)
            },
            ControlMessage::PayloadExit2 { from_pid, to_pid } => {
                let fields: Vec<Term> = vec![from_pid, to_pid];
                proof { term::lemma_values_index(fields@); assert(Term::values(fields@) =~= old_self.field_values()); }
                tagged_tuple(26, fields)
            },
            ControlMessage::PayloadMonitorPExit { from_proc, to_pid, reference } => {
                let fields: Vec<Term> = vec![from_proc, to_pid, reference];
                proof { term::lemma_values_index(fields@); assert(Term::values(fields@) =~= old_self.field_values()); }
                tagged_tuple(28, fields)
            },
            ControlMessage::SendTt { cookie, to_pid, trace_token } => {
                let fields: Vec<Term> = vec![cookie, to_pid, trace_token];
                proof { term::lemma_values_index(fields@); assert(Term::values(fields@) =~= old_self.field_values()); }
                tagged_tuple(12, fields)
            },
            ControlMessage::ExitTt { from_pid, to_pid, trace_token, reason } => {
                let fields: Vec<Term> = vec![from_pid, to_pid, trace_token, reason];
                proof { term::lemma_values_index(fields@); assert(Term::values(fields@) =~= old_self.field_values()); }
                tagged_tuple(13, fields)
            },
            ControlMessage::RegSendTt { from_pid, cookie, to_name, trace_token } => {
                let fields: Vec<Term> = vec![from_pid, cookie, to_name, trace_token];
                proof { term::lemma_values_index(fields@); assert(Term::values(fields@) =~= old_self.field_values()); }
                tagged_tuple(16, fields)
            },
            ControlMessage::Exit2Tt { from_pid, to_pid, trace_token, reason } => {
                let fields: Vec<Term> = vec![from_pid, to_pid, trace_token, reason];
                proof { term::lemma_values_index(fields@); assert(Term::values(fields@) =~= old_self.field_values()); }
                tagged_tuple(18, fields)
            },
            ControlMessage::SendSenderTt { from_pid, to_pid, trace_token } => {
                let fields: Vec<Term> = vec![from_pid, to_pid, trace_token];
                proof { term::lemma_values_index(fields@); assert(Term::values(fields@) =~= old_self.field_values()); }
                tagged_tuple(23, fields)
            },
            ControlMessage::PayloadExitTt { from_pid, to_pid, trace_token } => {
                let fields: Vec<Term> = vec![from_pid, to_pid, trace_token];
                proof { term::lemma_values_index(fields@); assert(Term::values(fields@) =~= old_self.field_values()); }
                tagged_tuple(25, fields)
            },
            ControlMessage::PayloadExit2Tt { from_pid, to_pid, trace_token } => {
                let fields: Vec<Term> = vec![from_pid, to_pid, trace_token];
                proof { term::lemma_values_index(fields@); assert(Term::values(fields@) =~= old_self.field_values()); }
                tagged_tuple(27, fields)
            },
            ControlMessage::SpawnRequestTt { req_id, from, group_leader, mfa, arg_list, opt_list, trace_token } => {
                let fields: Vec<Term> = vec![req_id, from, group_leader, mfa, arg_list, opt_list, trace_token];
                proof { term::lemma_values_index(fields@); assert(Term::values(fields@) =~= old_self.field_values()); }
                tagged_tuple(30, fields)
            },
            ControlMessage::SpawnReplyTt { req_id, to, flags, result, trace_token } => {
                let fields: Vec<Term> = vec![req_id, to, flags, result, trace_token];
                proof { term::lemma_values_index(fields@); assert(Term::values(fields@) =~= old_self.field_values()); }
                tagged_tuple(32, fields)
            },
            ControlMessage::AliasSendTt { from_pid, alias, trace_token } => {
                let fields: Vec<Term> = vec![from_pid, alias, trace_token];
                proof { term::lemma_values_index(fields@); assert(Term::values(fields@) =~= old_self.field_values()); }
                tagged_tuple(38, fields)
            },
            ControlMessage::Generic { message_type, fields } => tagged_tuple(message_type, fields),
        }
    }

    /// Reads a control message from a term: a tuple whose first element is the
    /// message type, between 0 and 255. A tuple of a known type and length
    /// gives that message, with UNLINK_ID and UNLINK_ID_ACK ids read as
    /// non-negative integers; any other tuple gives a generic message.
    #[verifier::spinoff_prover]
    #[verifier::rlimit(80)]
    pub fn from_term(term: &Term) -> (r: Result<ControlMessage>)
        ensures
            match read_control(term@) {
                ControlReading::Parsed { tag, fields, generic } => r matches Ok(m) && m.tag() == tag
                    && m.field_values() == fields && (m is Generic <==> generic),
                ControlReading::Refused(msg) => r matches Err(e) && e matches Error::InvalidControlMessage(
                    s,
                ) && s@ == msg,
            },
    {
        let es = match term.as_tuple() {
            Some(v) => v,
            None => {
                return Err(
                    Error::InvalidControlMessage(String::from_str("Control message must be a tuple")),
                );
            },
        };
        proof {
            term::lemma_values_index(es@);
        }
        let n = es.len();
        if n == 0 {
            return Err(Error::InvalidControlMessage(String::from_str("Control message tuple is empty")));
        }
        let raw = match es[0].as_integer() {
            Some(i) => i,
            None => {
                return Err(
                    Error::InvalidControlMessage(String::from_str("Message type must be an integer")),
                );
            },
        };
        if raw < 0 || raw > 255 {
            return Err(
                Error::InvalidControlMessage(
                    text::text_with_number("Message type out of range: ", raw as i128),
                ),
            );
        }
        let code = raw as u8;
        let ghost rest = Term::values(es@).subrange(1, n as int);
        match ControlMessageType::from_u8(code) {
            Some(ControlMessageType::Link) if n == 3 => {
                let m = ControlMessage::Link { from_pid: es[1].duplicate(), to_pid: es[2].duplicate() };
                assert(m.field_values() =~= rest);
                Ok(m)
            },
            Some(ControlMessageType::Send) if n == 3 => {
                let m = ControlMessage::Send { cookie: es[1].duplicate(), to_pid: es[2].duplicate() };
                assert(m.field_values() =~= rest);
                Ok(m)
            },
            Some(ControlMessageType::Exit) if n == 4 => {
                let m = ControlMessage::Exit { from_pid: es[1].duplicate(), to_pid: es[2].duplicate(), reason: es[3].duplicate() };
                assert(m.field_values() =~= rest);
                Ok(m)
            },
            Some(ControlMessageType::UnlinkId) if n == 4 => {
                let id_raw = match es[1].as_integer() {
                    Some(i) => i,
                    None => {
                        return Err(
                            Error::InvalidControlMessage(
                                String::from_str("UNLINK_ID id must be an integer"),
                            ),
                        );
                    },
                };
                if id_raw < 0 {
                    return Err(
                        Error::InvalidControlMessage(
                            text::text_with_number("UNLINK_ID id must be non-negative: ", id_raw as i128),
                        ),
                    );
                }
                let m = ControlMessage::UnlinkId {
                    id: id_raw as u64,
                    from_pid: es[2].duplicate(),
                    to_pid: es[3].duplicate(),
                };
                assert(m.field_values() =~= rest);
                Ok(m)
            },
            Some(ControlMessageType::UnlinkIdAck) if n == 4 => {
                let id_raw = match es[1].as_integer() {
                    Some(i) => i,
                    None => {
                        return Err(
                            Error::InvalidControlMessage(
                                String::from_str("UNLINK_ID_ACK id must be an integer"),
                            ),
                        );
                    },
                };
                if id_raw < 0 {
                    return Err(
                        Error::InvalidControlMessage(
                            text::text_with_number("UNLINK_ID_ACK id must be non-negative: ", id_raw as i128),
                        ),
                    );
                }
                let m = ControlMessage::UnlinkIdAck {
                    id: id_raw as u64,
                    from_pid: es[2].duplicate(),
                    to_pid: es[3].duplicate(),
                };
                assert(m.field_values() =~= rest);
                Ok(m)
            },
            Some(ControlMessageType::RegSend) if n == 4 => {
                let m = ControlMessage::RegSend { from_pid: es[1].duplicate(), cookie: es[2].duplicate(), to_name: es[3].duplicate() };
                assert(m.field_values() =~= rest);
                Ok(m)
            },
            Some(ControlMessageType::MonitorP) if n == 4 => {
                let m = ControlMessage::MonitorP { from_pid: es[1].duplicate(), to_proc: es[2].duplicate(), reference: es[3].duplicate() };
                assert(m.field_values() =~= rest);
                Ok(m)
            },
            Some(ControlMessageType::DemonitorP) if n == 4 => {
                let m = ControlMessage::DemonitorP { from_pid: es[1].duplicate(), to_proc: es[2].duplicate(), reference: es[3].duplicate() };
                assert(m.field_values() =~= rest);
                Ok(m)
            },
            Some(ControlMessageType::MonitorPExit) if n == 5 => {
                let m = ControlMessage::MonitorPExit { from_proc: es[1].duplicate(), to_pid: es[2].duplicate(), reference: es[3].duplicate(), reason: es[4].duplicate() };
                assert(m.field_values() =~= rest);
                Ok(m)
            },
            Some(ControlMessageType::SpawnRequest) if n == 7 => {
                let m = ControlMessage::SpawnRequest { req_id: es[1].duplicate(), from: es[2].duplicate(), group_leader: es[3].duplicate(), mfa: es[4].duplicate(), arg_list: es[5].duplicate(), opt_list: es[6].duplicate() };
                assert(m.field_values() =~= rest);
                Ok(m)
            },
            Some(ControlMessageType::SpawnReply) if n == 5 => {
                let m = ControlMessage::SpawnReply { req_id: es[1].duplicate(), to: es[2].duplicate(), flags: es[3].duplicate(), result: es[4].duplicate() };
                assert(m.field_values() =~= rest);
                Ok(m)
            },
            Some(ControlMessageType::AliasSend) if n == 3 => {
                let m = ControlMessage::AliasSend { from_pid: es[1].duplicate(), alias: es[2].duplicate() };
                assert(m.field_values() =~= rest);
                Ok(m)
            },
            Some(ControlMessageType::Unlink) if n == 3 => {
                let m = ControlMessage::Unlink { from_pid: es[1].duplicate(), to_pid: es[2].duplicate() };
                assert(m.field_values() =~= rest);
                Ok(m)
            },
            Some(ControlMessageType::NodeLink) if n == 1 => {
                let m = ControlMessage::NodeLink;
                assert(m.field_values() =~= rest);
                Ok(m)
            },
            Some(ControlMessageType::GroupLeader) if n == 3 => {
                let m = ControlMessage::GroupLeader { from_pid: es[1].duplicate(), to_pid: es[2].duplicate() };
                assert(m.field_values() =~= rest);
                Ok(m)
            },
            Some(ControlMessageType::Exit2) if n == 4 => {
                let m = ControlMessage::Exit2 { from_pid: es[1].duplicate(), to_pid: es[2].duplicate(), reason: es[3].duplicate() };
                assert(m.field_values() =~= rest);
                Ok(m)
            },
            Some(ControlMessageType::SendSender) if n == 3 => {
                let m = ControlMessage::SendSender { from_pid: es[1].duplicate(), to_pid: es[2].duplicate() };
                assert(m.field_values() =~= rest);
                Ok(m)
            },
            Some(ControlMessageType::PayloadExit) if n == 3 => {
                let m = ControlMessage::PayloadExit { from_pid: es[1].duplicate(), to_pid: es[2].duplicate() };
                assert(m.field_values() =~= rest);
                Ok(m)
            },
            Some(ControlMessageType::PayloadExit2) if n == 3 => {
                let m = ControlMessage::PayloadExit2 { from_pid: es[1].duplicate(), to_pid: es[2].duplicate() };
                assert(m.field_values() =~= rest);
                Ok(m)
            },
            Some(ControlMessageType::PayloadMonitorPExit) if n == 4 => {
                let m = ControlMessage::PayloadMonitorPExit { from_proc: es[1].duplicate(), to_pid: es[2].duplicate(), reference: es[3].duplicate() };
                assert(m.field_values() =~= rest);
                Ok(m)
            },
            Some(ControlMessageType::SendTt) if n == 4 => {
                let m = ControlMessage::SendTt { cookie: es[1].duplicate(), to_pid: es[2].duplicate(), trace_token: es[3].duplicate() };
                assert(m.field_values() =~= rest);
                Ok(m)
            },
            Some(ControlMessageType::ExitTt) if n == 5 => {
                let m = ControlMessage::ExitTt { from_pid: es[1].duplicate(), to_pid: es[2].duplicate(), trace_token: es[3].duplicate(), reason: es[4].duplicate() };
                assert(m.field_values() =~= rest);
                Ok(m)
            },
            Some(ControlMessageType::RegSendTt) if n == 5 => {
                let m = ControlMessage::RegSendTt { from_pid: es[1].duplicate(), cookie: es[2].duplicate(), to_name: es[3].duplicate(), trace_token: es[4].duplicate() };
                assert(m.field_values() =~= rest);
                Ok(m)
            },
            Some(ControlMessageType::Exit2Tt) if n == 5 => {
                let m = ControlMessage::Exit2Tt { from_pid: es[1].duplicate(), to_pid: es[2].duplicate(), trace_token: es[3].duplicate(), reason: es[4].duplicate() };
                assert(m.field_values() =~= rest);
                Ok(m)
            },
            Some(ControlMessageType::SendSenderTt) if n == 4 => {
                let m = ControlMessage::SendSenderTt { from_pid: es[1].duplicate(), to_pid: es[2].duplicate(), trace_token: es[3].duplicate() };
                assert(m.field_values() =~= rest);
                Ok(m)
            },
            Some(ControlMessageType::PayloadExitTt) if n == 4 => {
                let m = ControlMessage::PayloadExitTt { from_pid: es[1].duplicate(), to_pid: es[2].duplicate(), trace_token: es[3].duplicate() };
                assert(m.field_values() =~= rest);
                Ok(m)
            },
            Some(ControlMessageType::PayloadExit2Tt) if n == 4 => {
                let m = ControlMessage::PayloadExit2Tt { from_pid: es[1].duplicate(), to_pid: es[2].duplicate(), trace_token: es[3].duplicate() };
                assert(m.field_values() =~= rest);
                Ok(m)
            },
            Some(ControlMessageType::SpawnRequestTt) if n == 8 => {
                let m = ControlMessage::SpawnRequestTt { req_id: es[1].duplicate(), from: es[2].duplicate(), group_leader: es[3].duplicate(), mfa: es[4].duplicate(), arg_list: es[5].duplicate(), opt_list: es[6].duplicate(), trace_token: es[7].duplicate() };
                assert(m.field_values() =~= rest);
                Ok(m)
            },
            Some(ControlMessageType::SpawnReplyTt) if n == 6 => {
                let m = ControlMessage::SpawnReplyTt { req_id: es[1].duplicate(), to: es[2].duplicate(), flags: es[3].duplicate(), result: es[4].duplicate(), trace_token: es[5].duplicate() };
                assert(m.field_values() =~= rest);
                Ok(m)
            },
            Some(ControlMessageType::AliasSendTt) if n == 4 => {
                let m = ControlMessage::AliasSendTt { from_pid: es[1].duplicate(), alias: es[2].duplicate(), trace_token: es[3].duplicate() };
                assert(m.field_values() =~= rest);
                Ok(m)
            },
            _ => {
                let fields = Term::duplicate_from(es, 1);
                Ok(ControlMessage::Generic { message_type: code, fields })
            },
        }
    }

    /// A copy of this message.
    pub fn duplicate(&self) -> (r: Self)
        ensures
            r.tag() == self.tag(),
            r.field_values() == self.field_values(),
            r is Generic <==> self is Generic,
    {
        match self {
            ControlMessage::Link { from_pid, to_pid } => ControlMessage::Link { from_pid: from_pid.duplicate(), to_pid: to_pid.duplicate() },
            ControlMessage::Send { cookie, to_pid } => ControlMessage::Send { cookie: cookie.duplicate(), to_pid: to_pid.duplicate() },
            ControlMessage::Exit { from_pid, to_pid, reason } => ControlMessage::Exit { from_pid: from_pid.duplicate(), to_pid: to_pid.duplicate(), reason: reason.duplicate() },
            ControlMessage::UnlinkId { id, from_pid, to_pid } => ControlMessage::UnlinkId { id: *id, from_pid: from_pid.duplicate(), to_pid: to_pid.duplicate() },
            ControlMessage::UnlinkIdAck { id, from_pid, to_pid } => ControlMessage::UnlinkIdAck { id: *id, from_pid: from_pid.duplicate(), to_pid: to_pid.duplicate() },
            ControlMessage::RegSend { from_pid, cookie, to_name } => ControlMessage::RegSend { from_pid: from_pid.duplicate(), cookie: cookie.duplicate(), to_name: to_name.duplicate() },
            ControlMessage::MonitorP { from_pid, to_proc, reference } => ControlMessage::MonitorP { from_pid: from_pid.duplicate(), to_proc: to_proc.duplicate(), reference: reference.duplicate() },
            ControlMessage::DemonitorP { from_pid, to_proc, reference } => ControlMessage::DemonitorP { from_pid: from_pid.duplicate(), to_proc: to_proc.duplicate(), reference: reference.duplicate() },
            ControlMessage::MonitorPExit { from_proc, to_pid, reference, reason } => ControlMessage::MonitorPExit { from_proc: from_proc.duplicate(), to_pid: to_pid.duplicate(), reference: reference.duplicate(), reason: reason.duplicate() },
            ControlMessage::SpawnRequest { req_id, from, group_leader, mfa, arg_list, opt_list } => ControlMessage::SpawnRequest { req_id: req_id.duplicate(), from: from.duplicate(), group_leader: group_leader.duplicate(), mfa: mfa.duplicate(), arg_list: arg_list.duplicate(), opt_list: opt_list.duplicate() },
            ControlMessage::SpawnReply { req_id, to, flags, result } => ControlMessage::SpawnReply { req_id: req_id.duplicate(), to: to.duplicate(), flags: flags.duplicate(), result: result.duplicate() },
            ControlMessage::AliasSend { from_pid, alias } => ControlMessage::AliasSend { from_pid: from_pid.duplicate(), alias: alias.duplicate() },
            ControlMessage::Unlink { from_pid, to_pid } => ControlMessage::Unlink { from_pid: from_pid.duplicate(), to_pid: to_pid.duplicate() },
            ControlMessage::NodeLink => ControlMessage::NodeLink,
            ControlMessage::GroupLeader { from_pid, to_pid } => ControlMessage::GroupLeader { from_pid: from_pid.duplicate(), to_pid: to_pid.duplicate() },
            ControlMessage::Exit2 { from_pid, to_pid, reason } => ControlMessage::Exit2 { from_pid: from_pid.duplicate(), to_pid: to_pid.duplicate(), reason: reason.duplicate() },
            ControlMessage::SendSender { from_pid, to_pid } => ControlMessage::SendSender { from_pid: from_pid.duplicate(), to_pid: to_pid.duplicate() },
            ControlMessage::PayloadExit { from_pid, to_pid } => ControlMessage::PayloadExit { from_pid: from_pid.duplicate(), to_pid: to_pid.duplicate() },
            ControlMessage::PayloadExit2 { from_pid, to_pid } => ControlMessage::PayloadExit2 { from_pid: from_pid.duplicate(), to_pid: to_pid.duplicate() },
            ControlMessage::PayloadMonitorPExit { from_proc, to_pid, reference } => ControlMessage::PayloadMonitorPExit { from_proc: from_proc.duplicate(), to_pid: to_pid.duplicate(), reference: reference.duplicate() },
            ControlMessage::SendTt { cookie, to_pid, trace_token } => ControlMessage::SendTt { cookie: cookie.duplicate(), to_pid: to_pid.duplicate(), trace_token: trace_token.duplicate() },
            ControlMessage::ExitTt { from_pid, to_pid, trace_token, reason } => ControlMessage::ExitTt { from_pid: from_pid.duplicate(), to_pid: to_pid.duplicate(), trace_token: trace_token.duplicate(), reason: reason.duplicate() },
            ControlMessage::RegSendTt { from_pid, cookie, to_name, trace_token } => ControlMessage::RegSendTt { from_pid: from_pid.duplicate(), cookie: cookie.duplicate(), to_name: to_name.duplicate(), trace_token: trace_token.duplicate() },
            ControlMessage::Exit2Tt { from_pid, to_pid, trace_token, reason } => ControlMessage::Exit2Tt { from_pid: from_pid.duplicate(), to_pid: to_pid.duplicate(), trace_token: trace_token.duplicate(), reason: reason.duplicate() },
            ControlMessage::SendSenderTt { from_pid, to_pid, trace_token } => ControlMessage::SendSenderTt { from_pid: from_pid.duplicate(), to_pid: to_pid.duplicate(), trace_token: trace_token.duplicate() },
            ControlMessage::PayloadExitTt { from_pid, to_pid, trace_token } => ControlMessage::PayloadExitTt { from_pid: from_pid.duplicate(), to_pid: to_pid.duplicate(), trace_token: trace_token.duplicate() },
            ControlMessage::PayloadExit2Tt { from_pid, to_pid, trace_token } => ControlMessage::PayloadExit2Tt { from_pid: from_pid.duplicate(), to_pid: to_pid.duplicate(), trace_token: trace_token.duplicate() },
            ControlMessage::SpawnRequestTt { req_id, from, group_leader, mfa, arg_list, opt_list, trace_token } => ControlMessage::SpawnRequestTt { req_id: req_id.duplicate(), from: from.duplicate(), group_leader: group_leader.duplicate(), mfa: mfa.duplicate(), arg_list: arg_list.duplicate(), opt_list: opt_list.duplicate(), trace_token: trace_token.duplicate() },
            ControlMessage::SpawnReplyTt { req_id, to, flags, result, trace_token } => ControlMessage::SpawnReplyTt { req_id: req_id.duplicate(), to: to.duplicate(), flags: flags.duplicate(), result: result.duplicate(), trace_token: trace_token.duplicate() },
            ControlMessage::AliasSendTt { from_pid, alias, trace_token } => ControlMessage::AliasSendTt { from_pid: from_pid.duplicate(), alias: alias.duplicate(), trace_token: trace_token.duplicate() },
            ControlMessage::Generic { message_type, fields } => ControlMessage::Generic {
                message_type: *message_type,
                fields: Term::duplicate_all(fields),
            },
        }
    }

    pub fn link(from_pid: Term, to_pid: Term) -> (r: Self)
        ensures
            r == (ControlMessage::Link { from_pid, to_pid }),
    {
        ControlMessage::Link { from_pid, to_pid }
    }

    pub fn unlink(from_pid: Term, to_pid: Term) -> (r: Self)
        ensures
            r == (ControlMessage::Unlink { from_pid, to_pid }),
    {
        ControlMessage::Unlink { from_pid, to_pid }
    }

    pub fn send(cookie: Term, to_pid: Term) -> (r: Self)
        ensures
            r == (ControlMessage::Send { cookie, to_pid }),
    {
        ControlMessage::Send { cookie, to_pid }
    }

    pub fn exit(from_pid: Term, to_pid: Term, reason: Term) -> (r: Self)
        ensures
            r == (ControlMessage::Exit { from_pid, to_pid, reason }),
    {
        ControlMessage::Exit { from_pid, to_pid, reason }
    }

    pub fn exit2(from_pid: Term, to_pid: Term, reason: Term) -> (r: Self)
        ensures
            r == (ControlMessage::Exit2 { from_pid, to_pid, reason }),
    {
        ControlMessage::Exit2 { from_pid, to_pid, reason }
    }

    pub fn reg_send(from_pid: Term, cookie: Term, to_name: Term) -> (r: Self)
        ensures
            r == (ControlMessage::RegSend { from_pid, cookie, to_name }),
    {
        ControlMessage::RegSend { from_pid, cookie, to_name }
    }

    pub fn group_leader(from_pid: Term, to_pid: Term) -> (r: Self)
        ensures
            r == (ControlMessage::GroupLeader { from_pid, to_pid }),
    {
        ControlMessage::GroupLeader { from_pid, to_pid }
    }

    pub fn send_sender(from_pid: Term, to_pid: Term) -> (r: Self)
        ensures
            r == (ControlMessage::SendSender { from_pid, to_pid }),
    {
        ControlMessage::SendSender { from_pid, to_pid }
    }

    pub fn monitor_p(from_pid: Term, to_proc: Term, reference: Term) -> (r: Self)
        ensures
            r == (ControlMessage::MonitorP { from_pid, to_proc, reference }),
    {
        ControlMessage::MonitorP { from_pid, to_proc, reference }
    }

    pub fn demonitor_p(from_pid: Term, to_proc: Term, reference: Term) -> (r: Self)
        ensures
            r == (ControlMessage::DemonitorP { from_pid, to_proc, reference }),
    {
        ControlMessage::DemonitorP { from_pid, to_proc, reference }
    }

    pub fn monitor_p_exit(from_proc: Term, to_pid: Term, reference: Term, reason: Term) -> (r: Self)
        ensures
            r == (ControlMessage::MonitorPExit { from_proc, to_pid, reference, reason }),
    {
        ControlMessage::MonitorPExit { from_proc, to_pid, reference, reason }
    }

    pub fn payload_exit(from_pid: Term, to_pid: Term) -> (r: Self)
        ensures
            r == (ControlMessage::PayloadExit { from_pid, to_pid }),
    {
        ControlMessage::PayloadExit { from_pid, to_pid }
    }

    pub fn payload_exit2(from_pid: Term, to_pid: Term) -> (r: Self)
        ensures
            r == (ControlMessage::PayloadExit2 { from_pid, to_pid }),
    {
        ControlMessage::PayloadExit2 { from_pid, to_pid }
    }

    pub fn payload_monitor_p_exit(from_proc: Term, to_pid: Term, reference: Term) -> (r: Self)
        ensures
            r == (ControlMessage::PayloadMonitorPExit { from_proc, to_pid, reference }),
    {
        ControlMessage::PayloadMonitorPExit { from_proc, to_pid, reference }
    }

}

/// Whether writing a message as a term and reading it back gives the same
/// message: always, except an id above `i64::MAX` (written as a negative
/// integer) and a generic message whose number and length are those of a
/// known type.
pub open spec fn reads_back(m: ControlMessage) -> bool {
    match m {
        ControlMessage::UnlinkId { id, .. } => id <= i64::MAX,
        ControlMessage::UnlinkIdAck { id, .. } => id <= i64::MAX,
        ControlMessage::Generic { message_type, fields } => control_tuple_len(message_type)
            != fields@.len() + 1,
        _ => true,
    }
}

/// Reading back the term a message is written as gives the message's number,
/// fields and kind.
pub proof fn lemma_control_roundtrip(m: ControlMessage)
    requires
        reads_back(m),
    ensures
        read_control(m.term_value()) == (ControlReading::Parsed {
            tag: m.tag(),
            fields: m.field_values(),
            generic: m is Generic,
        }),
{
    let es = seq![TermV::Integer(m.tag() as i64)] + m.field_values();
    assert(es[0] == TermV::Integer(m.tag() as i64));
    assert(es.subrange(1, es.len() as int) =~= m.field_values());
    match m {
        ControlMessage::Generic { fields, .. } => {
            term::lemma_values_index(fields@);
        },
        _ => {},
    }
}

} // verus!

