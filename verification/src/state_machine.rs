//! Connection states and the handshake state machine.
use vstd::prelude::*;
use vstd::string::*;
use vstd::utf8;
use crate::digest;
use crate::errors::{Error, Result};
use crate::flags::DistributionFlags;
use crate::handshake::{self, Challenge, ChallengeAck, ChallengeReply, SendName, StatusMessage};
use crate::types::Creation;
use crate::wire::{self, put_u16, put_u32};

verus! {

/// The states a connection goes through during and after the handshake.
#[derive(Debug, Clone, Copy, PartialEq, Eq, Structural)]
pub enum ConnectionState {
    Disconnected,
    Connecting,
    SendingName,
    AwaitingStatus,
    AwaitingChallenge,
    SendingChallengeReply,
    AwaitingChallengeAck,
    Connected,
    Failed,
}

impl ConnectionState {
    /// The state's name in snake case.
    pub open spec fn name(self) -> Seq<char> {
        match self {
            ConnectionState::Disconnected => "disconnected"@,
            ConnectionState::Connecting => "connecting"@,
            ConnectionState::SendingName => "sending_name"@,
            ConnectionState::AwaitingStatus => "awaiting_status"@,
            ConnectionState::AwaitingChallenge => "awaiting_challenge"@,
            ConnectionState::SendingChallengeReply => "sending_challenge_reply"@,
            ConnectionState::AwaitingChallengeAck => "awaiting_challenge_ack"@,
            ConnectionState::Connected => "connected"@,
            ConnectionState::Failed => "failed"@,
        }
    }

    /// The state's name in snake case.
    pub fn as_str(&self) -> (r: &'static str)
        ensures
            r@ == self.name(),
    {
        match self {
            ConnectionState::Disconnected => "disconnected",
            ConnectionState::Connecting => "connecting",
            ConnectionState::SendingName => "sending_name",
            ConnectionState::AwaitingStatus => "awaiting_status",
            ConnectionState::AwaitingChallenge => "awaiting_challenge",
            ConnectionState::SendingChallengeReply => "sending_challenge_reply",
            ConnectionState::AwaitingChallengeAck => "awaiting_challenge_ack",
            ConnectionState::Connected => "connected",
            ConnectionState::Failed => "failed",
        }
    }

    /// The state's name in snake case, as an owned string (its display text).
    pub fn to_string(&self) -> (r: String)
        ensures
            r@ == self.name(),
    {
        String::from_str(self.as_str())
    }
}

/// What the handshake state machine holds.
pub struct HandshakeView {
    pub state: ConnectionState,
    pub local_node_name: Seq<char>,
    pub remote_node_name: Seq<char>,
    pub cookie: Seq<char>,
    pub flags: u64,
    pub creation: u32,
    pub our_challenge: Option<u32>,
    pub their_challenge: Option<u32>,
    pub negotiated_flags: Option<u64>,
}

/// Drives the client side of the distribution handshake.
pub struct HandshakeStateMachine {
    state: ConnectionState,
    local_node_name: String,
    remote_node_name: String,
    cookie: String,
    flags: DistributionFlags,
    creation: Creation,
    our_challenge: Option<u32>,
    their_challenge: Option<u32>,
    negotiated_flags: Option<DistributionFlags>,
}

/// The wire bytes of the complement message: the 2-byte length 9, tag 'c',
/// the high 32 bits of the flags and the creation.
pub open spec fn complement_wire(flags: u64, creation: u32) -> Seq<u8> {
    wire::be16(9) + seq![99u8] + wire::be32((flags >> 32u64) as u32) + wire::be32(creation)
}

/// The negotiated flags: those that both sides offer.
pub open spec fn negotiate(ours: u64, theirs: u64) -> u64 {
    theirs & ours
}

impl View for HandshakeStateMachine {
    type V = HandshakeView;

    closed spec fn view(&self) -> HandshakeView {
        HandshakeView {
            state: self.state,
            local_node_name: self.local_node_name@,
            remote_node_name: self.remote_node_name@,
            cookie: self.cookie@,
            flags: self.flags.bits,
            creation: self.creation.0,
            our_challenge: self.our_challenge,
            their_challenge: self.their_challenge,
            negotiated_flags: match self.negotiated_flags {
                Some(f) => Some(f.bits),
                None => None,
            },
        }
    }
}

impl HandshakeStateMachine {
    pub fn new(
        local_node_name: String,
        remote_node_name: String,
        cookie: String,
        flags: DistributionFlags,
        creation: Creation,
    ) -> (r: Self)
        ensures
            r@ == (HandshakeView {
                state: ConnectionState::Disconnected,
                local_node_name: local_node_name@,
                remote_node_name: remote_node_name@,
                cookie: cookie@,
                flags: flags.bits,
                creation: creation.0,
                our_challenge: None,
                their_challenge: None,
                negotiated_flags: None,
            }),
    {
        HandshakeStateMachine {
            state: ConnectionState::Disconnected,
            local_node_name,
            remote_node_name,
            cookie,
            flags,
            creation,
            our_challenge: None,
            their_challenge: None,
            negotiated_flags: None,
        }
    }

    pub fn state(&self) -> (r: ConnectionState)
        ensures
            r == self@.state,
    {
        self.state
    }

    pub fn negotiated_flags(&self) -> (r: Option<DistributionFlags>)
        ensures
            r is Some <==> self@.negotiated_flags is Some,
            r matches Some(f) ==> self@.negotiated_flags == Some(f.bits),
    {
        self.negotiated_flags
    }

    /// Moves from `Disconnected` to `Connecting`; refused in any other state.
    pub fn begin_connect(&mut self) -> (r: Result<()>)
        ensures
            final(self)@ == after_call(old(self)@, HandshakeCall::BeginConnect),
            old(self)@.state == ConnectionState::Disconnected <==> r is Ok,
            r is Ok ==> final(self)@ == (HandshakeView {
                state: ConnectionState::Connecting,
                ..old(self)@
            }),
            r matches Err(e) ==> final(self)@ == old(self)@ && (e matches Error::InvalidStateTransition {
                from,
                to,
            } && from == old(self)@.state && to == ConnectionState::Connecting),
    {
        if self.state != ConnectionState::Disconnected {
            return Err(
                Error::InvalidStateTransition { from: self.state, to: ConnectionState::Connecting },
            );
        }
        self.state = ConnectionState::Connecting;
        Ok(())
    }

    /// Encodes the (version 5) name message and moves to `AwaitingStatus`;
    /// fails in `SendingName` when the local name is over 255 bytes.
    pub fn prepare_send_name(&mut self) -> (r: Result<Vec<u8>>)
        ensures
            final(self)@ == after_call(old(self)@, HandshakeCall::PrepareSendName),
            (utf8::encode_utf8(old(self)@.local_node_name).len() <= 255) <==> r is Ok,
            r matches Ok(v) ==> v@ == handshake::send_name_old_wire(
                old(self)@.flags,
                utf8::encode_utf8(old(self)@.local_node_name),
            ) && final(self)@ == (HandshakeView {
                state: ConnectionState::AwaitingStatus,
                ..old(self)@
            }),
            r matches Err(e) ==> e == (Error::NodeNameTooLong {
                size: utf8::encode_utf8(old(self)@.local_node_name).len() as usize,
                max: 255,
            }) && final(self)@ == (HandshakeView {
                state: ConnectionState::SendingName,
                ..old(self)@
            }),
    {
        self.state = ConnectionState::SendingName;
        let send_name = SendName::new(self.flags, self.creation.0, self.local_node_name.as_str());
        let data = send_name.encode_old()?;
        self.state = ConnectionState::AwaitingStatus;
        Ok(data)
    }

    /// Accepts a status message that says ok or ok_simultaneous; any other
    /// status is a refusal. The state is left as it was.
    pub fn handle_status(&mut self, data: &[u8]) -> (r: Result<()>)
        ensures
            final(self)@ == after_call(old(self)@, HandshakeCall::HandleStatus(data@)),
            final(self)@ == old(self)@,
            r is Ok <==> handshake::status_decodes(data@) && (handshake::status_of_text(
                utf8::decode_utf8(data@.subrange(1, data@.len() as int)),
            ) == Some(handshake::Status::Okay) || handshake::status_of_text(
                utf8::decode_utf8(data@.subrange(1, data@.len() as int)),
            ) == Some(handshake::Status::OkSimultaneous)),
            r matches Err(e) ==> (handshake::status_decodes(data@) ==> (e matches Error::ConnectionRefused {
                reason,
            } && reason@ == "Status: "@ + utf8::decode_utf8(data@.subrange(1, data@.len() as int)))),
            r matches Err(e) ==> (!handshake::status_decodes(data@) ==> e is InvalidHandshakeMessage),
    {
        let status_msg = StatusMessage::decode(data)?;
        if !status_msg.status.is_ok() {
            let mut reason = String::from_str("Status: ");
            reason.append(status_msg.status.as_str());
            proof {
                let text = utf8::decode_utf8(data@.subrange(1, data@.len() as int));
                assert(status_msg.status.text() == text);
            }
            return Err(Error::ConnectionRefused { reason });
        }
        Ok(())
    }

    /// The complement message that carries the high half of our flags.
    pub fn prepare_complement(&mut self) -> (r: Result<Vec<u8>>)
        ensures
            final(self)@ == after_call(old(self)@, HandshakeCall::PrepareComplement),
            final(self)@ == old(self)@,
            r matches Ok(v) && v@ == complement_wire(old(self)@.flags, old(self)@.creation),
            r matches Ok(v) && v@.len() == 11 && wire::read16(v@, 0) == 9 && v@[2] == 99
                && wire::read32(v@, 3) as u64 == old(self)@.flags >> 32u64 && wire::read32(v@, 7)
                == old(self)@.creation,
    {
        proof {
            lemma_complement_reads_back(self.flags.bits, self.creation.0);
        }
        let high_flags = (self.flags.as_u64() >> 32u64) as u32;
        let mut buf: Vec<u8> = Vec::new();
        put_u16(&mut buf, 9);
        buf.push(99u8);
        put_u32(&mut buf, high_flags);
        put_u32(&mut buf, self.creation.0);
        assert(buf@ =~= complement_wire(self.flags.bits, self.creation.0));
        Ok(buf)
    }

    /// Moves to `AwaitingChallenge` and reads the peer's challenge; on success
    /// records the negotiated flags, their challenge and a fresh challenge of ours.
    pub fn handle_challenge(&mut self, data: &[u8]) -> (r: Result<()>)
        ensures
            final(self)@ == after_call(old(self)@, HandshakeCall::HandleChallenge(
                data@,
                final(self)@.our_challenge->0,
            )),
            r is Ok <==> handshake::challenge_decodes(data@),
            r matches Err(e) ==> e is InvalidHandshakeMessage && final(self)@ == (HandshakeView {
                state: ConnectionState::AwaitingChallenge,
                ..old(self)@
            }),
            r is Ok ==> (final(self)@.negotiated_flags matches Some(n) && n & !wire::read64(data@, 1)
                == 0 && n & !old(self)@.flags == 0 && (old(self)@.flags & wire::read64(data@, 1))
                & !n == 0),
            r is Ok ==> final(self)@ == (HandshakeView {
                state: ConnectionState::AwaitingChallenge,
                negotiated_flags: Some(negotiate(old(self)@.flags, wire::read64(data@, 1))),
                their_challenge: Some(wire::read32(data@, 9)),
                our_challenge: final(self)@.our_challenge,
                ..old(self)@
            }) && final(self)@.our_challenge is Some,
    {
        self.state = ConnectionState::AwaitingChallenge;
        let challenge = Challenge::decode(data)?;
        self.negotiated_flags = Some(
            DistributionFlags::new(challenge.flags.as_u64() & self.flags.as_u64()),
        );
        self.their_challenge = Some(challenge.challenge);
        self.our_challenge = Some(digest::generate_challenge());
        proof {
            lemma_negotiation_is_intersection(old(self)@.flags, wire::read64(data@, 1));
        }
        Ok(())
    }

    /// Encodes our reply (our challenge and the digest of theirs) and moves to
    /// `AwaitingChallengeAck`; fails in `SendingChallengeReply` when a
    /// challenge is missing.
    pub fn prepare_challenge_reply(&mut self) -> (r: Result<Vec<u8>>)
        ensures
            final(self)@ == after_call(old(self)@, HandshakeCall::PrepareChallengeReply),
            r is Ok <==> old(self)@.our_challenge is Some && old(self)@.their_challenge is Some,
            r matches Ok(v) ==> v@ == handshake::challenge_reply_wire(
                old(self)@.our_challenge->0,
                digest::spec_digest(old(self)@.their_challenge->0, old(self)@.cookie),
            ) && final(self)@ == (HandshakeView {
                state: ConnectionState::AwaitingChallengeAck,
                ..old(self)@
            }),
            r matches Err(e) ==> e is InvalidStateMessage && final(self)@ == (HandshakeView {
                state: ConnectionState::SendingChallengeReply,
                ..old(self)@
            }),
    {
        self.state = ConnectionState::SendingChallengeReply;
        let our_challenge = match self.our_challenge {
            Some(c) => c,
            None => {
                return Err(Error::InvalidStateMessage(String::from_str("no our_challenge set")));
            },
        };
        let their_challenge = match self.their_challenge {
            Some(c) => c,
            None => {
                return Err(Error::InvalidStateMessage(String::from_str("no their_challenge set")));
            },
        };
        let reply = ChallengeReply::new(our_challenge, their_challenge, self.cookie.as_str());
        let data = reply.encode();
        self.state = ConnectionState::AwaitingChallengeAck;
        Ok(data)
    }

    /// Checks the peer's acknowledgement against the digest of our challenge
    /// and moves to `Connected` when it matches.
    pub fn handle_challenge_ack(&mut self, data: &[u8]) -> (r: Result<()>)
        ensures
            final(self)@ == after_call(old(self)@, HandshakeCall::HandleChallengeAck(data@)),
            r is Ok <==> handshake::challenge_ack_decodes(data@) && old(self)@.our_challenge is Some
                && data@.subrange(1, 17) == digest::spec_digest(
                old(self)@.our_challenge->0,
                old(self)@.cookie,
            ),
            r is Ok ==> final(self)@ == (HandshakeView {
                state: ConnectionState::Connected,
                ..old(self)@
            }),
            r matches Err(e) ==> final(self)@ == old(self)@ && (!handshake::challenge_ack_decodes(
                data@,
            ) ==> e is InvalidHandshakeMessage) && (handshake::challenge_ack_decodes(data@)
                && old(self)@.our_challenge is None ==> e is InvalidStateMessage) && (
            handshake::challenge_ack_decodes(data@) && old(self)@.our_challenge is Some
                ==> e is AuthenticationFailed),
    {
        let ack = ChallengeAck::decode(data)?;
        let our_challenge = match self.our_challenge {
            Some(c) => c,
            None => {
                return Err(Error::InvalidStateMessage(String::from_str("no our_challenge set")));
            },
        };
        if !ack.verify(our_challenge, self.cookie.as_str()) {
            return Err(Error::AuthenticationFailed);
        }
        self.state = ConnectionState::Connected;
        Ok(())
    }

    /// Back to `Disconnected`, forgetting challenges and negotiated flags.
    pub fn disconnect(&mut self)
        ensures
            final(self)@ == after_call(old(self)@, HandshakeCall::Disconnect),
            final(self)@ == (HandshakeView {
                state: ConnectionState::Disconnected,
                our_challenge: None,
                their_challenge: None,
                negotiated_flags: None,
                ..old(self)@
            }),
    {
        self.state = ConnectionState::Disconnected;
        self.our_challenge = None;
        self.their_challenge = None;
        self.negotiated_flags = None;
    }
}

/// A call on the handshake state machine, with what it is given. A
/// successful `handle_challenge` also draws a fresh challenge of ours, which
/// the call carries.
pub enum HandshakeCall {
    BeginConnect,
    PrepareSendName,
    HandleStatus(Seq<u8>),
    PrepareComplement,
    HandleChallenge(Seq<u8>, u32),
    PrepareChallengeReply,
    HandleChallengeAck(Seq<u8>),
    Disconnect,
}

/// What the state machine holds after one call, by each method's contract.
pub open spec fn after_call(v: HandshakeView, c: HandshakeCall) -> HandshakeView {
    match c {
        HandshakeCall::BeginConnect => if v.state == ConnectionState::Disconnected {
            HandshakeView { state: ConnectionState::Connecting, ..v }
        } else {
            v
        },
        HandshakeCall::PrepareSendName => if utf8::encode_utf8(v.local_node_name).len() <= 255 {
            HandshakeView { state: ConnectionState::AwaitingStatus, ..v }
        } else {
            HandshakeView { state: ConnectionState::SendingName, ..v }
        },
        HandshakeCall::HandleStatus(_) => v,
        HandshakeCall::PrepareComplement => v,
        HandshakeCall::HandleChallenge(d, ours) => if handshake::challenge_decodes(d) {
            HandshakeView {
                state: ConnectionState::AwaitingChallenge,
                negotiated_flags: Some(negotiate(v.flags, wire::read64(d, 1))),
                their_challenge: Some(wire::read32(d, 9)),
                our_challenge: Some(ours),
                ..v
            }
        } else {
            HandshakeView { state: ConnectionState::AwaitingChallenge, ..v }
        },
        HandshakeCall::PrepareChallengeReply => if v.our_challenge is Some && v.their_challenge is Some {
            HandshakeView { state: ConnectionState::AwaitingChallengeAck, ..v }
        } else {
            HandshakeView { state: ConnectionState::SendingChallengeReply, ..v }
        },
        HandshakeCall::HandleChallengeAck(d) => if ack_accepted(v, d) {
            HandshakeView { state: ConnectionState::Connected, ..v }
        } else {
            v
        },
        HandshakeCall::Disconnect => HandshakeView {
            state: ConnectionState::Disconnected,
            our_challenge: None,
            their_challenge: None,
            negotiated_flags: None,
            ..v
        },
    }
}

/// Whether an ack is accepted: it decodes, and it carries the digest of our
/// challenge and the cookie.
pub open spec fn ack_accepted(v: HandshakeView, d: Seq<u8>) -> bool {
    handshake::challenge_ack_decodes(d) && v.our_challenge is Some && d.subrange(1, 17)
        == digest::spec_digest(v.our_challenge->0, v.cookie)
}

/// What the state machine holds after the calls, in order.
pub open spec fn after_calls(v: HandshakeView, calls: Seq<HandshakeCall>) -> HandshakeView
    decreases calls.len(),
{
    if calls.len() == 0 {
        v
    } else {
        after_call(after_calls(v, calls.drop_last()), calls.last())
    }
}

/// The peer's challenge message and our drawn challenge of the latest
/// successful `handle_challenge` since the latest `disconnect`, if any.
pub open spec fn latest_challenge(calls: Seq<HandshakeCall>) -> Option<(Seq<u8>, u32)>
    decreases calls.len(),
{
    if calls.len() == 0 {
        None
    } else {
        match calls.last() {
            HandshakeCall::Disconnect => None,
            HandshakeCall::HandleChallenge(d, ours) => if handshake::challenge_decodes(d) {
                Some((d, ours))
            } else {
                latest_challenge(calls.drop_last())
            },
            _ => latest_challenge(calls.drop_last()),
        }
    }
}

/// Whatever the calls since a fresh start (as `new` or `disconnect` leave
/// the machine), the challenges the machine holds are those of the latest
/// successful `handle_challenge` since the latest `disconnect`: the peer's
/// from its message and ours as drawn then, or none. The cookie never
/// changes. So `prepare_challenge_reply` sends our latest challenge and the
/// digest of the peer's latest challenge and the cookie, and fails when no
/// challenge was handled; `handle_challenge_ack` accepts exactly the digest
/// of our latest challenge and the cookie.
pub proof fn lemma_challenges_follow_history(v: HandshakeView, calls: Seq<HandshakeCall>)
    requires
        v.our_challenge is None,
        v.their_challenge is None,
    ensures
        ({
            let w = after_calls(v, calls);
            &&& w.cookie == v.cookie
            &&& match latest_challenge(calls) {
                Some((d, ours)) => w.our_challenge == Some(ours) && w.their_challenge == Some(
                    wire::read32(d, 9),
                ),
                None => w.our_challenge is None && w.their_challenge is None,
            }
            &&& forall|d: Seq<u8>|
                #![trigger ack_accepted(w, d)]
                ack_accepted(w, d) <==> (latest_challenge(calls) matches Some((_, ours))
                    && handshake::challenge_ack_decodes(d) && d.subrange(1, 17)
                    == digest::spec_digest(ours, v.cookie))
        }),
    decreases calls.len(),
{
    if calls.len() > 0 {
        lemma_challenges_follow_history(v, calls.drop_last());
    }
}

/// The negotiated flags are exactly those both sides offer: every
/// negotiated flag is offered by the peer and by us, and every flag both
/// offer is negotiated.
pub proof fn lemma_negotiation_is_intersection(ours: u64, theirs: u64)
    ensures
        negotiate(ours, theirs) & !theirs == 0,
        negotiate(ours, theirs) & !ours == 0,
        (ours & theirs) & !negotiate(ours, theirs) == 0,
{
    let n = negotiate(ours, theirs);
    assert(n == theirs & ours);
    assert((theirs & ours) & !theirs == 0) by (bit_vector);
    assert((theirs & ours) & !ours == 0) by (bit_vector);
    assert((ours & theirs) & !(theirs & ours) == 0) by (bit_vector);
}

/// The complement message is 11 bytes: the length 9, the tag 'c', then the
/// high 32 bits of the flags and the creation, each read back big-endian.
pub proof fn lemma_complement_reads_back(flags: u64, creation: u32)
    ensures
        complement_wire(flags, creation).len() == 11,
        wire::read16(complement_wire(flags, creation), 0) == 9,
        complement_wire(flags, creation)[2] == 99,
        wire::read32(complement_wire(flags, creation), 3) as u64 == flags >> 32u64,
        wire::read32(complement_wire(flags, creation), 7) == creation,
{
    let w = complement_wire(flags, creation);
    let high = (flags >> 32u64) as u32;
    assert(w.subrange(0, 2) =~= wire::be16(9));
    wire::lemma_read16_be16(9, w, 0);
    assert(w.subrange(3, 7) =~= wire::be32(high));
    wire::lemma_read32_be32(high, w, 3);
    assert(w.subrange(7, 11) =~= wire::be32(creation));
    wire::lemma_read32_be32(creation, w, 7);
    assert((flags >> 32u64) as u32 as u64 == flags >> 32u64) by (bit_vector);
}

} // verus!
