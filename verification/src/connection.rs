//! Connection configuration and the decisions a connection makes about the
//! bytes it sends and receives. The socket work is the caller's.
use vstd::prelude::*;
use crate::types::duration_from_secs;
use vstd::string::*;
use vstd::utf8;
use crate::errors::{Error, Result};
use crate::flags::{self, DistributionFlags};
use crate::state_machine::ConnectionState;
use crate::types::Creation;
use crate::wire::{self, put_slice, put_u32};
use crate::control::ControlMessage;
use crate::term::{self, Pid, Reference, Term, TermV};
use crate::etf::{self, decode_term_prefix, decode_term_whole, decode_with_cache, encode_dist, encode_term};
use erltf::decoder::AtomCache;
use crate::fragmentation::{
    FragmentAssembler,
    continuation_arrival,
    header_arrival,
    is_complete,
    opt_bytes_view,
    reassembled,
};

verus! {

/// Default timeout of a connection, in seconds.
pub const DEFAULT_TIMEOUT_SECS: u64 = 10;

/// Largest distribution message sent or received: 64 MiB.
pub const MAX_MESSAGE_SIZE: usize = 67_108_864;

pub const VERSION_TAG: u8 = 131;

pub const DIST_HEADER: u8 = 68;

pub const DIST_FRAG_HEADER: u8 = 69;

pub const DIST_FRAG_CONT: u8 = 70;

pub const PASS_THROUGH: u8 = 112;

/// How to reach and authenticate with a remote node.
pub struct ConnectionConfig {
    pub local_node_name: String,
    pub remote_node_name: String,
    pub cookie: String,
    pub epmd_host: String,
    pub flags: DistributionFlags,
    pub creation: Creation,
    pub timeout: std::time::Duration,
}

impl ConnectionConfig {
    /// A published node's configuration: EPMD on "localhost", the default
    /// flags, creation 0 and a 10 second timeout.
    pub fn new(local_node_name: &str, remote_node_name: &str, cookie: &str) -> (r: Self)
        ensures
            r.local_node_name@ == local_node_name@,
            r.remote_node_name@ == remote_node_name@,
            r.cookie@ == cookie@,
            r.epmd_host@ == "localhost"@,
            r.flags.bits == DistributionFlags::DEFAULT,
            r.creation.0 == 0,
            r.timeout == crate::types::secs_duration(DEFAULT_TIMEOUT_SECS),
    {
        ConnectionConfig {
            local_node_name: String::from_str(local_node_name),
            remote_node_name: String::from_str(remote_node_name),
            cookie: String::from_str(cookie),
            epmd_host: String::from_str("localhost"),
            flags: DistributionFlags::default_otp26(),
            creation: Creation(0),
            timeout: duration_from_secs(DEFAULT_TIMEOUT_SECS),
        }
    }

    /// A hidden node's configuration: as `new`, with the hidden default flags.
    pub fn new_hidden(local_node_name: &str, remote_node_name: &str, cookie: &str) -> (r: Self)
        ensures
            r.local_node_name@ == local_node_name@,
            r.remote_node_name@ == remote_node_name@,
            r.cookie@ == cookie@,
            r.epmd_host@ == "localhost"@,
            r.flags.bits == DistributionFlags::DEFAULT_HIDDEN,
            r.creation.0 == 0,
            r.timeout == crate::types::secs_duration(DEFAULT_TIMEOUT_SECS),
    {
        ConnectionConfig {
            local_node_name: String::from_str(local_node_name),
            remote_node_name: String::from_str(remote_node_name),
            cookie: String::from_str(cookie),
            epmd_host: String::from_str("localhost"),
            flags: DistributionFlags::default_hidden(),
            creation: Creation(0),
            timeout: duration_from_secs(DEFAULT_TIMEOUT_SECS),
        }
    }

    pub fn with_epmd_host(self, host: &str) -> (r: Self)
        ensures
            r.epmd_host@ == host@,
            r.local_node_name == self.local_node_name,
            r.remote_node_name == self.remote_node_name,
            r.cookie == self.cookie,
            r.flags == self.flags,
            r.creation == self.creation,
            r.timeout == self.timeout,
    {
        ConnectionConfig { epmd_host: String::from_str(host), ..self }
    }

    pub fn with_flags(self, flags: DistributionFlags) -> (r: Self)
        ensures
            r.flags == flags,
            r.local_node_name == self.local_node_name,
            r.remote_node_name == self.remote_node_name,
            r.cookie == self.cookie,
            r.epmd_host == self.epmd_host,
            r.creation == self.creation,
            r.timeout == self.timeout,
    {
        ConnectionConfig { flags, ..self }
    }

    pub fn with_creation(self, creation: u32) -> (r: Self)
        ensures
            r.creation.0 == creation,
            r.local_node_name == self.local_node_name,
            r.remote_node_name == self.remote_node_name,
            r.cookie == self.cookie,
            r.epmd_host == self.epmd_host,
            r.flags == self.flags,
            r.timeout == self.timeout,
    {
        ConnectionConfig { creation: Creation(creation), ..self }
    }

    pub fn with_timeout(self, timeout: std::time::Duration) -> (r: Self)
        ensures
            r.timeout == timeout,
            r.local_node_name == self.local_node_name,
            r.remote_node_name == self.remote_node_name,
            r.cookie == self.cookie,
            r.epmd_host == self.epmd_host,
            r.flags == self.flags,
            r.creation == self.creation,
    {
        ConnectionConfig { timeout, ..self }
    }
}

/// Whether `i` is the position of the first `@` byte of `b`.
pub open spec fn is_first_at(b: Seq<u8>, i: int) -> bool {
    0 <= i < b.len() && b[i] == 64u8 && forall|j: int| 0 <= j < i ==> b[j] != 64u8
}

/// Whether `b` holds an `@` byte.
pub open spec fn has_at(b: Seq<u8>) -> bool {
    exists|i: int| 0 <= i < b.len() && b[i] == 64u8
}

/// A node name `name@host` split at its first `@`, in UTF-8 bytes.
pub struct NodeNameParts {
    pub name: Vec<u8>,
    pub host: Vec<u8>,
}

/// Splits `name@host` at the first `@`. Both parts must be non-empty and the
/// name part at most 255 bytes.
pub fn validate_node_name(full: &str) -> (r: Result<NodeNameParts>)
    ensures
        !has_at(utf8::encode_utf8(full@)) ==> (r matches Err(e) && e matches Error::InvalidNodeName(
            s,
        ) && s@ == full@),
        forall|i: int|
            #![trigger is_first_at(utf8::encode_utf8(full@), i)]
            is_first_at(utf8::encode_utf8(full@), i) ==> {
                let b = utf8::encode_utf8(full@);
                &&& (i == 0 || i == b.len() - 1) ==> (r matches Err(e)
                    && e matches Error::InvalidNodeName(s) && s@ == full@)
                &&& (0 < i < b.len() - 1 && i > 255) ==> (r matches Err(e)
                    && e matches Error::NodeNameTooLong { size, max } && size == i && max == 255)
                &&& (0 < i < b.len() - 1 && i <= 255) ==> (r matches Ok(parts) && parts.name@
                    == b.subrange(0, i) && parts.host@ == b.subrange(i + 1, b.len() as int))
            },
{
    let b = full.as_bytes();
    let mut i: usize = 0;
    while i < b.len()
        invariant
            i <= b@.len(),
            forall|j: int| 0 <= j < i ==> b@[j] != 64u8,
        ensures
            i <= b@.len(),
            forall|j: int| 0 <= j < i ==> b@[j] != 64u8,
            i < b@.len() ==> b@[i as int] == 64u8,
        decreases b@.len() - i,
    {
        if b[i] == 64u8 {
            break;
        }
        i = i + 1;
    }
    assert forall|k: int| is_first_at(b@, k) implies k == i by {
        if k < i {
            assert(b@[k] != 64u8);
        } else if k > i {
            assert(b@[i as int] == 64u8);
        }
    }
    if i == b.len() {
        return Err(Error::InvalidNodeName(String::from_str(full)));
    }
    if i == 0 || i + 1 == b.len() {
        return Err(Error::InvalidNodeName(String::from_str(full)));
    }
    if i > 255 {
        return Err(Error::NodeNameTooLong { size: i, max: 255 });
    }
    let name = wire::copy_range(b, 0, i);
    let host = wire::copy_range(b, i + 1, b.len());
    Ok(NodeNameParts { name, host })
}

/// How an incoming distribution message is encoded.
#[derive(Debug, Clone, Copy, PartialEq, Eq, Structural)]
pub enum IncomingKind {
    /// An empty message: a heartbeat.
    Tick,
    /// The first fragment of a fragmented message.
    FragmentHeader,
    /// A later fragment of a fragmented message.
    FragmentContinuation,
    /// A pass-through message: a control term, then optionally a message term.
    PassThrough,
    /// A message with a distribution header (and atom cache).
    DistHeader,
    /// A plain external term.
    Plain,
}

/// The kind of an incoming message, by its leading bytes.
pub open spec fn incoming_kind(d: Seq<u8>) -> IncomingKind {
    if d.len() == 0 {
        IncomingKind::Tick
    } else if d.len() >= 2 && d[0] == VERSION_TAG && d[1] == DIST_FRAG_HEADER {
        IncomingKind::FragmentHeader
    } else if d.len() >= 2 && d[0] == VERSION_TAG && d[1] == DIST_FRAG_CONT {
        IncomingKind::FragmentContinuation
    } else if d[0] == PASS_THROUGH {
        IncomingKind::PassThrough
    } else if d.len() >= 2 && d[0] == VERSION_TAG && d[1] == DIST_HEADER {
        IncomingKind::DistHeader
    } else {
        IncomingKind::Plain
    }
}

/// Classifies an incoming message by its leading bytes.
pub fn classify_incoming(data: &[u8]) -> (r: IncomingKind)
    ensures
        r == incoming_kind(data@),
{
    if data.len() == 0 {
        IncomingKind::Tick
    } else if data.len() >= 2 && data[0] == VERSION_TAG && data[1] == DIST_FRAG_HEADER {
        IncomingKind::FragmentHeader
    } else if data.len() >= 2 && data[0] == VERSION_TAG && data[1] == DIST_FRAG_CONT {
        IncomingKind::FragmentContinuation
    } else if data[0] == PASS_THROUGH {
        IncomingKind::PassThrough
    } else if data.len() >= 2 && data[0] == VERSION_TAG && data[1] == DIST_HEADER {
        IncomingKind::DistHeader
    } else {
        IncomingKind::Plain
    }
}

/// Whether a reassembled message starts with a distribution header.
pub fn has_dist_header(data: &[u8]) -> (r: bool)
    ensures
        r == (data@.len() >= 2 && data@[0] == VERSION_TAG && data@[1] == DIST_HEADER),
{
    data.len() >= 2 && data[0] == VERSION_TAG && data[1] == DIST_HEADER
}

/// Splits the body of a fragment header into its atom cache bytes (the first
/// `num_atom_cache_refs` bytes, absent when there are none) and its payload.
pub fn split_fragment_body(remaining: &[u8], num_atom_cache_refs: usize) -> (r: (
    Option<Vec<u8>>,
    Vec<u8>,
))
    requires
        num_atom_cache_refs <= remaining@.len(),
    ensures
        num_atom_cache_refs == 0 ==> r.0 is None,
        num_atom_cache_refs > 0 ==> (r.0 matches Some(c) && c@ == remaining@.subrange(
            0,
            num_atom_cache_refs as int,
        )),
        r.1@ == remaining@.subrange(num_atom_cache_refs as int, remaining@.len() as int),
{
    let cache = if num_atom_cache_refs > 0 {
        Some(wire::copy_range(remaining, 0, num_atom_cache_refs))
    } else {
        None
    };
    let payload = wire::copy_range(remaining, num_atom_cache_refs, remaining.len());
    (cache, payload)
}

/// Whether pass-through framing is used with the negotiated flags.
pub open spec fn use_pass_through_spec(negotiated: Option<DistributionFlags>) -> bool {
    match negotiated {
        Some(f) => !flags::mask_contains(f.bits, DistributionFlags::DIST_HDR_ATOM_CACHE),
        None => true,
    }
}

/// Pass-through framing is used unless the peer negotiated the distribution
/// header with atom cache.
pub fn use_pass_through(negotiated: Option<DistributionFlags>) -> (r: bool)
    ensures
        r == match negotiated {
            Some(f) => !flags::mask_contains(f.bits, DistributionFlags::DIST_HDR_ATOM_CACHE),
            None => true,
        },
{
    match negotiated {
        Some(f) => !f.has(DistributionFlags::DIST_HDR_ATOM_CACHE),
        None => true,
    }
}

/// The bytes of a pass-through frame: the 4-byte length, the pass-through
/// marker, the encoded control term and the encoded message term, if any.
pub open spec fn pass_through_bytes(control: Seq<u8>, message: Seq<u8>) -> Seq<u8> {
    wire::be32((1 + control.len() + message.len()) as u32) + seq![PASS_THROUGH] + control + message
}

/// Frames an encoded control term, and message term if any, for pass-through
/// sending. The length is sent modulo 2^32.
pub fn pass_through_frame(control: &[u8], message: Option<&[u8]>) -> (r: Vec<u8>)
    requires
        control@.len() + match message {
            Some(m) => m@.len(),
            None => 0,
        } + 1 <= usize::MAX,
    ensures
        r@ == pass_through_bytes(
            control@,
            match message {
                Some(m) => m@,
                None => Seq::empty(),
            },
        ),
{
    let mut buf: Vec<u8> = Vec::new();
    match message {
        Some(m) => {
            put_u32(&mut buf, (1 + control.len() + m.len()) as u32);
            buf.push(PASS_THROUGH);
            put_slice(&mut buf, control);
            put_slice(&mut buf, m);
        },
        None => {
            put_u32(&mut buf, (1 + control.len()) as u32);
            buf.push(PASS_THROUGH);
            put_slice(&mut buf, control);
            assert(control@ + Seq::<u8>::empty() =~= control@);
        },
    }
    buf
}

/// Frames a message that carries its own distribution header: its 4-byte
/// length (modulo 2^32) then the bytes.
pub fn dist_header_frame(encoded: &[u8]) -> (r: Vec<u8>)
    ensures
        r@ == wire::be32(encoded@.len() as u32) + encoded@,
{
    let mut buf: Vec<u8> = Vec::new();
    put_u32(&mut buf, encoded.len() as u32);
    put_slice(&mut buf, encoded);
    buf
}

/// Raw sending needs a connected state and a message within the size limit.
pub fn check_send_raw(state: ConnectionState, len: usize) -> (r: Result<()>)
    ensures
        r is Ok <==> state == ConnectionState::Connected && len <= MAX_MESSAGE_SIZE,
        r matches Err(e) ==> (state != ConnectionState::Connected ==> (e matches Error::InvalidState {
            state: s,
        } && s == state)) && (state == ConnectionState::Connected ==> (e matches Error::MessageTooLarge {
            size,
            max,
        } && size == len && max == MAX_MESSAGE_SIZE)),
{
    if state != ConnectionState::Connected {
        return Err(Error::InvalidState { state });
    }
    if len > MAX_MESSAGE_SIZE {
        return Err(Error::MessageTooLarge { size: len, max: MAX_MESSAGE_SIZE });
    }
    Ok(())
}

/// Operations on a connection other than raw sending need a connected state.
pub fn check_connected(state: ConnectionState) -> (r: Result<()>)
    ensures
        r is Ok <==> state == ConnectionState::Connected,
        r matches Err(e) ==> (e matches Error::InvalidState { state: s } && s == state),
{
    if state != ConnectionState::Connected {
        return Err(Error::InvalidState { state });
    }
    Ok(())
}

/// The announced length of a frame read from a split read half: zero is a
/// tick (`Ok(None)`), over 64 MiB is refused.
pub fn check_incoming_length(len: usize) -> (r: Result<Option<usize>>)
    ensures
        len == 0 ==> r == Ok::<Option<usize>, Error>(None),
        0 < len <= MAX_MESSAGE_SIZE ==> r == Ok::<Option<usize>, Error>(Some(len)),
        len > MAX_MESSAGE_SIZE ==> (r matches Err(e) && e matches Error::MessageTooLarge {
            size,
            max,
        } && size == len && max == MAX_MESSAGE_SIZE),
{
    if len == 0 {
        return Ok(None);
    }
    if len > MAX_MESSAGE_SIZE {
        return Err(Error::MessageTooLarge { size: len, max: MAX_MESSAGE_SIZE });
    }
    Ok(Some(len))
}

/// A message read from a split read half must be a non-empty pass-through
/// message.
pub fn check_pass_through(buf: &[u8]) -> (r: Result<()>)
    ensures
        r is Ok <==> buf@.len() > 0 && buf@[0] == PASS_THROUGH,
        r matches Err(e) ==> (buf@.len() == 0 ==> e is InvalidStateMessage) && (buf@.len() > 0
            ==> e is Protocol),
{
    if buf.len() == 0 {
        return Err(Error::InvalidStateMessage(String::from_str("Empty message received")));
    }
    let marker = buf[0];
    if marker != PASS_THROUGH {
        return Err(
            Error::Protocol(
                crate::text::text_with_two_numbers(
                    "Expected pass-through marker ",
                    PASS_THROUGH as i128,
                    ", got ",
                    marker as i128,
                ),
            ),
        );
    }
    Ok(())
}

/// Whether bytes start a fragment header: version 131, tag 69, then a 64-bit
/// sequence id, a 64-bit fragment id and the number of atom cache refs.
pub open spec fn fragment_header_ok(d: Seq<u8>) -> bool {
    d.len() >= 19 && d[0] == VERSION_TAG && d[1] == DIST_FRAG_HEADER
}

/// Whether bytes start a fragment continuation: version 131, tag 70, then a
/// 64-bit sequence id and a 64-bit fragment id.
pub open spec fn fragment_cont_ok(d: Seq<u8>) -> bool {
    d.len() >= 18 && d[0] == VERSION_TAG && d[1] == DIST_FRAG_CONT
}

/// `erltf::decoder::decode_fragment_header`: reads the version byte, the
/// header tag, two big-endian 64-bit ids and the count of atom cache refs,
/// and hands back the bytes after them. It fails exactly when the version or
/// tag differ or the bytes run out; which error it gives is not stated.
#[verifier::external_body]
fn decode_fragment_header_bytes(data: &[u8]) -> (r: core::result::Result<
    (u64, u64, u8, Vec<u8>),
    erltf::errors::DecodeError,
>)
    ensures
        r is Ok <==> fragment_header_ok(data@),
        r matches Ok(v) ==> v.0 == wire::read64(data@, 2) && v.1 == wire::read64(data@, 10) && v.2
            == data@[18] && v.3@ == data@.subrange(19, data@.len() as int),
{
    match erltf::decoder::decode_fragment_header(data) {
        Ok((h, rest)) => Ok((h.sequence_id, h.fragment_id, h.num_atom_cache_refs, rest.to_vec())),
        Err(e) => Err(e),
    }
}

/// `erltf::decoder::decode_fragment_cont`: reads the version byte, the
/// continuation tag and two big-endian 64-bit ids, and hands back the bytes
/// after them. It fails exactly when the version or tag differ or the bytes
/// run out; which error it gives is not stated.
#[verifier::external_body]
fn decode_fragment_cont_bytes(data: &[u8]) -> (r: core::result::Result<
    (u64, u64, Vec<u8>),
    erltf::errors::DecodeError,
>)
    ensures
        r is Ok <==> fragment_cont_ok(data@),
        r matches Ok(v) ==> v.0 == wire::read64(data@, 2) && v.1 == wire::read64(data@, 10)
            && v.2@ == data@.subrange(18, data@.len() as int),
{
    match erltf::decoder::decode_fragment_cont(data) {
        Ok(((sequence_id, fragment_id), rest)) => Ok((sequence_id, fragment_id, rest.to_vec())),
        Err(e) => Err(e),
    }
}

/// A fragment as received: its sequence and fragment ids, the atom cache
/// bytes of a header fragment, and the payload.
pub struct IncomingFragment {
    pub sequence_id: u64,
    pub fragment_id: u64,
    pub is_header: bool,
    pub atom_cache: Option<Vec<u8>>,
    pub payload: Vec<u8>,
}

/// Whether the atom cache refs a header announces fit in its bytes.
pub open spec fn header_cache_fits(d: Seq<u8>) -> bool {
    fragment_header_ok(d) ==> d[18] as int <= d.len() - 19
}

/// Reads a fragment header or continuation. A header's atom cache bytes (the
/// first `num_atom_cache_refs` bytes after it, absent when there are none)
/// are split from its payload; a continuation's payload is the rest.
pub fn decode_incoming_fragment(data: &[u8]) -> (r: Result<IncomingFragment>)
    requires
        incoming_kind(data@) == IncomingKind::FragmentHeader || incoming_kind(data@)
            == IncomingKind::FragmentContinuation,
        header_cache_fits(data@),
    ensures
        incoming_kind(data@) == IncomingKind::FragmentHeader ==> (if fragment_header_ok(data@) {
            r matches Ok(f) && f.is_header && f.sequence_id == wire::read64(data@, 2)
                && f.fragment_id == wire::read64(data@, 10) && (data@[18] == 0 ==> f.atom_cache is None)
                && (data@[18] > 0 ==> (f.atom_cache matches Some(c) && c@ == data@.subrange(
                19,
                19 + data@[18],
            ))) && f.payload@ == data@.subrange(19 + data@[18], data@.len() as int)
        } else {
            r matches Err(e) && e is Decode
        }),
        incoming_kind(data@) == IncomingKind::FragmentContinuation ==> (if fragment_cont_ok(data@) {
            r matches Ok(f) && !f.is_header && f.sequence_id == wire::read64(data@, 2)
                && f.fragment_id == wire::read64(data@, 10) && f.atom_cache is None && f.payload@
                == data@.subrange(18, data@.len() as int)
        } else {
            r matches Err(e) && e is Decode
        }),
{
    if data.len() >= 2 && data[0] == VERSION_TAG && data[1] == DIST_FRAG_HEADER {
        match decode_fragment_header_bytes(data) {
            Ok((sequence_id, fragment_id, refs, remaining)) => {
                let (atom_cache, payload) = split_fragment_body(remaining.as_slice(), refs as usize);
                assert(data@.subrange(19, data@.len() as int).subrange(0, refs as int)
                    =~= data@.subrange(19, 19 + refs));
                assert(data@.subrange(19, data@.len() as int).subrange(
                    refs as int,
                    data@.len() - 19,
                ) =~= data@.subrange(19 + refs, data@.len() as int));
                Ok(IncomingFragment { sequence_id, fragment_id, is_header: true, atom_cache, payload })
            },
            Err(e) => Err(Error::Decode(e)),
        }
    } else {
        match decode_fragment_cont_bytes(data) {
            Ok((sequence_id, fragment_id, payload)) => Ok(
                IncomingFragment {
                    sequence_id,
                    fragment_id,
                    is_header: false,
                    atom_cache: None,
                    payload,
                },
            ),
            Err(e) => Err(Error::Decode(e)),
        }
    }
}

/// The control message that sends a message to a pid: SEND with the empty
/// atom as cookie.
pub fn send_message_control(to_pid: Pid) -> (r: ControlMessage)
    ensures
        r.tag() == 2,
        r.field_values() == seq![TermV::Atom(Seq::empty()), TermV::Pid(to_pid@)],
        !(r is Generic),
{
    let cookie = Term::atom("");
    proof {
        reveal_strlit("");
        assert(""@ =~= Seq::<char>::empty());
    }
    ControlMessage::send(cookie, Term::Pid(to_pid))
}

/// The control message that sends a message to a registered name: REG_SEND
/// with the empty atom as cookie.
pub fn send_to_name_control(from_pid: Pid, to_name: &str) -> (r: ControlMessage)
    ensures
        r.tag() == 6,
        r.field_values() == seq![
            TermV::Pid(from_pid@),
            TermV::Atom(Seq::empty()),
            TermV::Atom(to_name@),
        ],
        !(r is Generic),
{
    let cookie = Term::atom("");
    proof {
        reveal_strlit("");
        assert(""@ =~= Seq::<char>::empty());
    }
    ControlMessage::reg_send(Term::Pid(from_pid), cookie, Term::atom(to_name))
}

/// The LINK control message between two pids.
pub fn link_control(from_pid: &Pid, to_pid: &Pid) -> (r: ControlMessage)
    ensures
        r.tag() == 1,
        r.field_values() == seq![TermV::Pid(from_pid@), TermV::Pid(to_pid@)],
        !(r is Generic),
{
    ControlMessage::link(Term::Pid(from_pid.duplicate()), Term::Pid(to_pid.duplicate()))
}

/// The UNLINK_ID control message between two pids.
pub fn unlink_control(from_pid: &Pid, to_pid: &Pid, unlink_id: u64) -> (r: ControlMessage)
    ensures
        r.tag() == 35,
        r.field_values() == seq![
            TermV::Integer(unlink_id as i64),
            TermV::Pid(from_pid@),
            TermV::Pid(to_pid@),
        ],
        !(r is Generic),
{
    ControlMessage::UnlinkId {
        id: unlink_id,
        from_pid: Term::Pid(from_pid.duplicate()),
        to_pid: Term::Pid(to_pid.duplicate()),
    }
}

/// The MONITOR_P control message.
pub fn monitor_control(from_pid: &Pid, to_proc: &Pid, reference: &Reference) -> (r:
    ControlMessage)
    ensures
        r.tag() == 19,
        r.field_values() == seq![
            TermV::Pid(from_pid@),
            TermV::Pid(to_proc@),
            TermV::Reference(reference@),
        ],
        !(r is Generic),
{
    ControlMessage::monitor_p(
        Term::Pid(from_pid.duplicate()),
        Term::Pid(to_proc.duplicate()),
        Term::Reference(reference.duplicate()),
    )
}

/// The DEMONITOR_P control message.
pub fn demonitor_control(from_pid: &Pid, to_proc: &Pid, reference: &Reference) -> (r:
    ControlMessage)
    ensures
        r.tag() == 20,
        r.field_values() == seq![
            TermV::Pid(from_pid@),
            TermV::Pid(to_proc@),
            TermV::Reference(reference@),
        ],
        !(r is Generic),
{
    ControlMessage::demonitor_p(
        Term::Pid(from_pid.duplicate()),
        Term::Pid(to_proc.duplicate()),
        Term::Reference(reference.duplicate()),
    )
}


/// The terms of a pass-through body: the control term at its start and, when
/// bytes are left after it, the message term at their start (bytes after
/// that are ignored); `None` when either fails to decode.
pub open spec fn pass_through_terms(body: Seq<u8>) -> Option<(TermV, Option<TermV>)> {
    match etf::etf_decoded(body) {
        None => None,
        Some((c, n)) => if n >= body.len() {
            Some((c, None))
        } else {
            match etf::etf_decoded(body.subrange(n as int, body.len() as int)) {
                None => None,
                Some((m, _)) => Some((c, Some(m))),
            }
        },
    }
}

/// What reading a control message from its term and an optional message
/// term gives: the control message's number, fields and kind and the
/// message, or the refusal of the control term.
pub open spec fn control_result(
    r: Result<(ControlMessage, Option<Term>)>,
    control: TermV,
    message: Option<TermV>,
) -> bool {
    match crate::control::read_control(control) {
        crate::control::ControlReading::Parsed { tag, fields, generic } => r matches Ok((m, p)) && m.tag()
            == tag && m.field_values() == fields && (m is Generic <==> generic) && etf::opt_term_value(p) == message,
        crate::control::ControlReading::Refused(msg) => r matches Err(e)
            && e matches Error::InvalidControlMessage(s) && s@ == msg,
    }
}

fn read_control_and_message(control: Term, message: Option<Term>) -> (r: Result<
    (ControlMessage, Option<Term>),
>)
    ensures
        control_result(r, control@, etf::opt_term_value(message)),
{
    match ControlMessage::from_term(&control) {
        Ok(m) => Ok((m, message)),
        Err(e) => Err(e),
    }
}

/// What decoding a whole message gives, with the atoms the cache holds
/// before and after. With a distribution header: the control message read
/// from the control term and payload that `erltf` reads with the cache, or a
/// decode error, and the cache as `erltf` leaves it. Without one: the control
/// message read from the one term the bytes hold (trailing bytes are refused),
/// and the cache unchanged.
pub open spec fn complete_result(
    r: Result<(ControlMessage, Option<Term>)>,
    d: Seq<u8>,
    before: Map<u8, Seq<char>>,
    after: Map<u8, Seq<char>>,
) -> bool {
    if d.len() >= 2 && d[0] == VERSION_TAG && d[1] == DIST_HEADER {
        &&& after == etf::etf_dist_decoded(d, before).1
        &&& match etf::etf_dist_decoded(d, before).0 {
            Some((c, m)) => control_result(r, c, m),
            None => r matches Err(e) && e is Decode,
        }
    } else {
        &&& after == before
        &&& match etf::etf_decoded(d) {
            Some((c, n)) => if n == d.len() {
                control_result(r, c, None)
            } else {
                r matches Err(e) && e is Decode
            },
            None => r matches Err(e) && e is Decode,
        }
    }
}

/// Decodes the body of a pass-through message (the bytes after the marker)
/// as a connection's receive loop does: the control term, then the message
/// term when bytes are left, and only then reads the control message.
pub fn decode_pass_through(body: &[u8]) -> (r: Result<(ControlMessage, Option<Term>)>)
    ensures
        match pass_through_terms(body@) {
            None => r matches Err(e) && e is Decode,
            Some((c, m)) => control_result(r, c, m),
        },
{
    let (control, n) = match decode_term_prefix(body) {
        Ok(v) => v,
        Err(e) => {
            return Err(Error::Decode(e));
        },
    };
    if n >= body.len() {
        return read_control_and_message(control, None);
    }
    let rest = wire::copy_range(body, n, body.len());
    match decode_term_prefix(rest.as_slice()) {
        Ok((message, _)) => read_control_and_message(control, Some(message)),
        Err(e) => Err(Error::Decode(e)),
    }
}

/// Decodes the body of a pass-through message read from a split read half
/// (the bytes after the marker): the control term is read as a control
/// message before the message term after it, when bytes are left, is decoded;
/// bytes after the message term are ignored.
pub fn decode_control_first(body: &[u8]) -> (r: Result<(ControlMessage, Option<Term>)>)
    ensures
        match etf::etf_decoded(body@) {
            None => r matches Err(e) && e is Decode,
            Some((c, n)) => if n >= body@.len() || crate::control::read_control(
                c,
            ) is Refused {
                control_result(r, c, None)
            } else {
                match etf::etf_decoded(body@.subrange(n as int, body@.len() as int)) {
                    None => r matches Err(e) && e is Decode,
                    Some((m, _)) => control_result(r, c, Some(m)),
                }
            },
        },
{
    let (control, n) = match decode_term_prefix(body) {
        Ok(v) => v,
        Err(e) => {
            return Err(Error::Decode(e));
        },
    };
    let control_msg = match ControlMessage::from_term(&control) {
        Ok(m) => m,
        Err(e) => {
            return Err(e);
        },
    };
    if n >= body.len() {
        return Ok((control_msg, None));
    }
    let rest = wire::copy_range(body, n, body.len());
    match decode_term_prefix(rest.as_slice()) {
        Ok((message, _)) => Ok((control_msg, Some(message))),
        Err(e) => Err(Error::Decode(e)),
    }
}

/// Decodes a complete (reassembled or unfragmented) message: with its
/// distribution header and the atom cache when it starts with one, otherwise
/// as one plain term with nothing after it. What the atom cache gives is not
/// stated.
pub fn decode_complete_fragment(complete_data: &[u8], atom_cache: &mut AtomCache) -> (r: Result<
    (ControlMessage, Option<Term>),
>)
    ensures
        complete_result(
            r,
            complete_data@,
            etf::atom_cache_contents(*old(atom_cache)),
            etf::atom_cache_contents(*final(atom_cache)),
        ),
{
    if has_dist_header(complete_data) {
        match decode_with_cache(complete_data, atom_cache) {
            Ok((control, message)) => read_control_and_message(control, message),
            Err(e) => Err(Error::Decode(e)),
        }
    } else {
        match decode_term_whole(complete_data) {
            Ok(control) => read_control_and_message(control, None),
            Err(e) => Err(Error::Decode(e)),
        }
    }
}

/// The atom cache bytes a fragment header carries: none when it announces no
/// refs, else the bytes after the header.
pub open spec fn header_cache_bytes(d: Seq<u8>) -> Option<Seq<u8>> {
    if d[18] == 0 {
        None
    } else {
        Some(d.subrange(19, 19 + d[18]))
    }
}

/// What one frame read from the peer leads to. A tick, a fragment that leaves
/// its message incomplete and a header with an out-of-range count give `None`:
/// read on. Any other frame gives the message it completes, decoded, or the
/// error. Fragments go to `assembler`; a message with a distribution header
/// is decoded with `atom_cache`.
pub fn receive_frame(
    assembler: &mut FragmentAssembler,
    atom_cache: &mut AtomCache,
    data: &[u8],
) -> (r: Option<Result<(ControlMessage, Option<Term>)>>)
    requires
        header_cache_fits(data@),
    ensures
        final(assembler).timeout() == old(assembler).timeout(),
        r is None ==> etf::atom_cache_contents(*final(atom_cache)) == etf::atom_cache_contents(
            *old(atom_cache),
        ),
        incoming_kind(data@) == IncomingKind::Tick ==> r is None && final(assembler)@ == old(
            assembler,
        )@,
        incoming_kind(data@) == IncomingKind::PassThrough ==> final(assembler)@ == old(assembler)@
            && etf::atom_cache_contents(*final(atom_cache)) == etf::atom_cache_contents(
            *old(atom_cache),
        ) && (r matches Some(res) && match pass_through_terms(
            data@.subrange(1, data@.len() as int),
        ) {
            None => res matches Err(e) && e is Decode,
            Some((c, m)) => control_result(res, c, m),
        }),
        (incoming_kind(data@) == IncomingKind::DistHeader || incoming_kind(data@)
            == IncomingKind::Plain) ==> final(assembler)@ == old(assembler)@ && (r matches Some(
            res,
        ) && complete_result(
            res,
            data@,
            etf::atom_cache_contents(*old(atom_cache)),
            etf::atom_cache_contents(*final(atom_cache)),
        )),
        incoming_kind(data@) == IncomingKind::FragmentHeader ==> if !fragment_header_ok(data@) {
            final(assembler)@ == old(assembler)@ && etf::atom_cache_contents(*final(atom_cache))
                == etf::atom_cache_contents(*old(atom_cache)) && (r matches Some(res)
                && res matches Err(e) && e is Decode)
        } else if !(1 <= wire::read64(data@, 10) <= crate::fragmentation::MAX_FRAGMENT_COUNT) {
            r is None && final(assembler)@ == old(assembler)@
        } else {
            let m = header_arrival(
                old(assembler)@,
                wire::read64(data@, 2),
                wire::read64(data@, 10),
                header_cache_bytes(data@),
                data@.subrange(19 + data@[18], data@.len() as int),
            );
            if is_complete(m) {
                final(assembler)@ == old(assembler)@.remove(wire::read64(data@, 2)) && (r matches Some(
                    res,
                ) && complete_result(
                    res,
                    reassembled(m),
                    etf::atom_cache_contents(*old(atom_cache)),
                    etf::atom_cache_contents(*final(atom_cache)),
                ))
            } else {
                r is None && final(assembler)@ == old(assembler)@.insert(wire::read64(data@, 2), m)
            }
        },
        incoming_kind(data@) == IncomingKind::FragmentContinuation ==> if !fragment_cont_ok(data@) {
            final(assembler)@ == old(assembler)@ && etf::atom_cache_contents(*final(atom_cache))
                == etf::atom_cache_contents(*old(atom_cache)) && (r matches Some(res)
                && res matches Err(e) && e is Decode)
        } else {
            let m = continuation_arrival(
                old(assembler)@,
                wire::read64(data@, 2),
                wire::read64(data@, 10),
                data@.subrange(18, data@.len() as int),
            );
            if is_complete(m) {
                final(assembler)@ == old(assembler)@.remove(wire::read64(data@, 2)) && (r matches Some(
                    res,
                ) && complete_result(
                    res,
                    reassembled(m),
                    etf::atom_cache_contents(*old(atom_cache)),
                    etf::atom_cache_contents(*final(atom_cache)),
                ))
            } else {
                r is None && final(assembler)@ == old(assembler)@.insert(wire::read64(data@, 2), m)
            }
        },
{
    match classify_incoming(data) {
        IncomingKind::Tick => None,
        IncomingKind::FragmentHeader | IncomingKind::FragmentContinuation => {
            let fragment = match decode_incoming_fragment(data) {
                Ok(f) => f,
                Err(e) => {
                    return Some(Err(e));
                },
            };
            let complete = if fragment.is_header {
                proof {
                    if data@[18] > 0 {
                        assert(opt_bytes_view(fragment.atom_cache) == header_cache_bytes(data@));
                    }
                }
                assembler.start_fragment(
                    fragment.sequence_id,
                    fragment.fragment_id,
                    fragment.atom_cache,
                    fragment.payload,
                )
            } else {
                assembler.add_fragment(fragment.sequence_id, fragment.fragment_id, fragment.payload)
            };
            match complete {
                Some(complete_data) => Some(decode_complete_fragment(&complete_data, atom_cache)),
                None => None,
            }
        },
        IncomingKind::PassThrough => {
            let body = wire::copy_range(data, 1, data.len());
            Some(decode_pass_through(&body))
        },
        IncomingKind::DistHeader | IncomingKind::Plain => Some(
            decode_complete_fragment(data, atom_cache),
        ),
    }
}

/// The pass-through frame of a control term and optional payload: their
/// encodings after the length and the marker; `None` when a term cannot be
/// encoded.
pub open spec fn pass_through_frame_of(control: TermV, message: Option<TermV>) -> Option<Seq<u8>> {
    match etf::etf_encoded(control) {
        None => None,
        Some(cb) => match message {
            None => Some(pass_through_bytes(cb, Seq::empty())),
            Some(m) => match etf::etf_encoded(m) {
                None => None,
                Some(mb) => Some(pass_through_bytes(cb, mb)),
            },
        },
    }
}

/// A frame with a distribution header: the 4-byte length of the encoding,
/// then the encoding, which starts with the version byte and, when the
/// control term holds an atom, the header tag 68 and a nonzero atom count.
pub open spec fn dist_header_frame_shape(v: Seq<u8>, atoms: bool) -> bool {
    exists|b: Seq<u8>|
        b.len() >= 1 && b[0] == VERSION_TAG && (atoms ==> b.len() >= 3 && b[1] == DIST_HEADER && b[2]
            >= 1) && #[trigger] (wire::be32(b.len() as u32) + b) == v
}

/// The bytes that send a control message, with its payload if any, given the
/// flags negotiated with the peer.
pub fn control_frame(
    negotiated: Option<DistributionFlags>,
    control: &ControlMessage,
    message: Option<&Term>,
) -> (r: Result<Vec<u8>>)
    ensures
        use_pass_through_spec(negotiated) ==> match pass_through_frame_of(
            control.term_value(),
            term::opt_value(message),
        ) {
            Some(b) => r matches Ok(v) && v@ == b,
            None => r matches Err(e) && e is Encode,
        },
        !use_pass_through_spec(negotiated) ==> (r matches Ok(v) ==> dist_header_frame_shape(
            v@,
            etf::holds_atom(control.term_value()),
        )),
        r matches Err(e) ==> e is Encode,
        (negotiated is None || (negotiated matches Some(f) && f.bits
            & DistributionFlags::DIST_HDR_ATOM_CACHE == 0)) ==> (r matches Ok(v) ==> v@.len() >= 5
            && v@[4] == PASS_THROUGH),
        (negotiated matches Some(f) && f.bits & DistributionFlags::DIST_HDR_ATOM_CACHE != 0) ==> (
        r matches Ok(v) ==> v@.len() >= 5 && v@[4] == VERSION_TAG),
{
    proof {
        lemma_framing_follows_flag(negotiated);
    }
    let control_term = control.to_term();
    if use_pass_through(negotiated) {
        let control_encoded = match encode_term(&control_term) {
            Ok(b) => b,
            Err(e) => {
                return Err(Error::Encode(e));
            },
        };
        match message {
            Some(m) => {
                let message_encoded = match encode_term(m) {
                    Ok(b) => b,
                    Err(e) => {
                        return Err(Error::Encode(e));
                    },
                };
                Ok(pass_through_frame(control_encoded.as_slice(), Some(message_encoded.as_slice())))
            },
            None => Ok(pass_through_frame(control_encoded.as_slice(), None)),
        }
    } else {
        match encode_dist(&control_term, message) {
            Ok(encoded) => {
                let frame = dist_header_frame(encoded.as_slice());
                assert(wire::be32(encoded@.len() as u32) + encoded@ == frame@);
                Ok(frame)
            },
            Err(e) => Err(Error::Encode(e)),
        }
    }
}

/// Which framing the negotiated flags choose: pass-through exactly when no
/// flags were negotiated or the peer did not agree to the distribution header
/// with atom cache. A pass-through frame has the marker 112 after its 4-byte
/// length; a frame with a distribution header has the version byte 131 there.
pub proof fn lemma_framing_follows_flag(negotiated: Option<DistributionFlags>)
    ensures
        use_pass_through_spec(negotiated) <==> (negotiated is None || (negotiated matches Some(f)
            && f.bits & DistributionFlags::DIST_HDR_ATOM_CACHE == 0)),
        forall|c: Seq<u8>, m: Seq<u8>|
            #![trigger pass_through_bytes(c, m)]
            pass_through_bytes(c, m).len() >= 5 && pass_through_bytes(c, m)[4] == PASS_THROUGH,
        forall|v: Seq<u8>, atoms: bool|
            #![trigger dist_header_frame_shape(v, atoms)]
            dist_header_frame_shape(v, atoms) ==> v.len() >= 5 && v[4] == VERSION_TAG,
{
    if let Some(f) = negotiated {
        let b = f.bits;
        assert((b & 0x2000u64 == 0x2000u64) <==> !(b & 0x2000u64 == 0)) by (bit_vector);
    }
    assert forall|c: Seq<u8>, m: Seq<u8>|
        #![trigger pass_through_bytes(c, m)]
        pass_through_bytes(c, m).len() >= 5 && pass_through_bytes(c, m)[4] == PASS_THROUGH by {
        let len = (1 + c.len() + m.len()) as u32;
        assert(pass_through_bytes(c, m)[4] == (seq![PASS_THROUGH] + c + m)[0]);
    }
    assert forall|v: Seq<u8>, atoms: bool|
        #![trigger dist_header_frame_shape(v, atoms)]
        dist_header_frame_shape(v, atoms) implies v.len() >= 5 && v[4] == VERSION_TAG by {
        let b = choose|b: Seq<u8>|
            b.len() >= 1 && b[0] == VERSION_TAG && (atoms ==> b.len() >= 3 && b[1] == DIST_HEADER
                && b[2] >= 1) && #[trigger] (wire::be32(b.len() as u32) + b) == v;
        assert(v[4] == b[0]);
    }
}

} // verus!
