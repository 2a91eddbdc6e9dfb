//! The EPMD (Erlang Port Mapper Daemon) protocol: requests, and the decoding
//! of the daemon's replies. The network exchange itself is the caller's.
use vstd::prelude::*;
use crate::types::duration_from_secs;
use vstd::string::*;
use vstd::utf8;
use crate::errors::{Error, Result};
use crate::text::{string_bytes, text_with_number, utf8_to_string};
use crate::wire::{self, copy_range, get_u16, get_u32, put_slice, put_u16, put_u32};

verus! {

/// Default EPMD port
pub const EPMD_PORT: u16 = 4369;

/// Default connection timeout, in seconds.
pub const DEFAULT_TIMEOUT_SECS: u64 = 5;

pub const ALIVE2_REQ: u8 = 120;

pub const ALIVE2_RESP: u8 = 121;

pub const ALIVE2_X_RESP: u8 = 118;

pub const PORT2_REQ: u8 = 122;

pub const PORT2_RESP: u8 = 119;

pub const NAMES_REQ: u8 = 110;

pub const DUMP_REQ: u8 = 100;

pub const KILL_REQ: u8 = 107;

/// Node types for EPMD registration
#[derive(Debug, Clone, Copy, PartialEq, Eq, Structural)]
pub enum NodeType {
    /// Normal Erlang node ('M', 77)
    Normal,
    /// Hidden node, not in the global name registry ('H', 72)
    Hidden,
    /// R3 compatibility ('h', 104)
    R3Hidden,
}

impl NodeType {
    pub open spec fn code(self) -> u8 {
        match self {
            NodeType::Normal => 77,
            NodeType::Hidden => 72,
            NodeType::R3Hidden => 104,
        }
    }

    /// The code sent for this node type.
    pub fn as_u8(&self) -> (r: u8)
        ensures
            r == self.code(),
    {
        match self {
            NodeType::Normal => 77,
            NodeType::Hidden => 72,
            NodeType::R3Hidden => 104,
        }
    }

    /// The node type with the given code.
    pub fn from_u8(value: u8) -> (r: Option<Self>)
        ensures
            r matches Some(t) ==> t.code() == value,
            r is None ==> value != 77 && value != 72 && value != 104,
    {
        match value {
            77 => Some(NodeType::Normal),
            72 => Some(NodeType::Hidden),
            104 => Some(NodeType::R3Hidden),
            _ => None,
        }
    }
}

/// Protocol type for EPMD registration
#[derive(Debug, Clone, Copy, PartialEq, Eq, Structural)]
pub enum Protocol {
    /// TCP/IP based protocol (code 0)
    Tcp,
}

impl Protocol {
    pub open spec fn code(self) -> u8 {
        0
    }

    pub fn as_u8(&self) -> (r: u8)
        ensures
            r == self.code(),
    {
        0
    }

    pub fn from_u8(value: u8) -> (r: Option<Self>)
        ensures
            r is Some <==> value == 0,
    {
        if value == 0 {
            Some(Protocol::Tcp)
        } else {
            None
        }
    }
}

/// Node information from an EPMD PORT2_RESP
#[derive(Debug, Clone, PartialEq, Eq)]
pub struct NodeInfo {
    pub port: u16,
    pub node_type: NodeType,
    pub protocol: Protocol,
    pub highest_version: u16,
    pub lowest_version: u16,
    pub node_name: String,
    pub extra: Vec<u8>,
}

/// Where and how to reach an EPMD daemon.
pub struct EpmdClient {
    pub host: String,
    pub port: u16,
    pub timeout: std::time::Duration,
}

impl EpmdClient {
    /// A client for the daemon on `host` at the default port, with the
    /// default timeout of 5 seconds.
    pub fn new(host: &str) -> (r: Self)
        ensures
            r.host@ == host@,
            r.port == EPMD_PORT,
            r.timeout == crate::types::secs_duration(DEFAULT_TIMEOUT_SECS),
    {
        EpmdClient {
            host: String::from_str(host),
            port: EPMD_PORT,
            timeout: duration_from_secs(DEFAULT_TIMEOUT_SECS),
        }
    }

    /// A client for the daemon on `host` at `port`, with the default timeout.
    pub fn with_port(host: &str, port: u16) -> (r: Self)
        ensures
            r.host@ == host@,
            r.port == port,
            r.timeout == crate::types::secs_duration(DEFAULT_TIMEOUT_SECS),
    {
        EpmdClient { host: String::from_str(host), port, timeout: duration_from_secs(DEFAULT_TIMEOUT_SECS) }
    }

    /// The same client with another timeout.
    pub fn with_timeout(self, timeout: std::time::Duration) -> (r: Self)
        ensures
            r.host == self.host,
            r.port == self.port,
            r.timeout == timeout,
    {
        EpmdClient { timeout, ..self }
    }
}

/// The PORT_PLEASE2_REQ bytes that look up `name`.
pub open spec fn port2_request_bytes(name: Seq<u8>) -> Seq<u8> {
    wire::be16(((name.len() as u16) + 1) as u16) + seq![PORT2_REQ] + name
}

/// The bytes of a PORT_PLEASE2_REQ that looks up a node name. The name's
/// length, in bytes and taken modulo 65536, must be below 65535.
pub fn port2_request(node_name: &str) -> (r: Vec<u8>)
    requires
        (utf8::encode_utf8(node_name@).len() as u16) < 0xffff,
    ensures
        r@ == port2_request_bytes(utf8::encode_utf8(node_name@)),
{
    let name = node_name.as_bytes();
    let mut buf: Vec<u8> = Vec::new();
    put_u16(&mut buf, (name.len() as u16) + 1);
    buf.push(PORT2_REQ);
    put_slice(&mut buf, name);
    buf
}

/// The ALIVE2_REQ bytes that register a node.
pub open spec fn alive2_request_bytes(
    port: u16,
    node_type: NodeType,
    highest: u16,
    lowest: u16,
    name: Seq<u8>,
    extra: Seq<u8>,
) -> Seq<u8> {
    wire::be16((13 + name.len() + extra.len()) as u16) + seq![ALIVE2_REQ] + wire::be16(port) + seq![
        node_type.code(),
        0u8,
    ] + wire::be16(highest) + wire::be16(lowest) + wire::be16(name.len() as u16) + name
        + wire::be16(extra.len() as u16) + extra
}

/// The bytes of an ALIVE2_REQ that registers a node listening on `port`.
/// Lengths are sent modulo 65536.
pub fn alive2_request(
    port: u16,
    node_name: &str,
    node_type: NodeType,
    highest_version: u16,
    lowest_version: u16,
    extra: &[u8],
) -> (r: Vec<u8>)
    requires
        utf8::encode_utf8(node_name@).len() + extra@.len() + 13 <= usize::MAX,
    ensures
        r@ == alive2_request_bytes(
            port,
            node_type,
            highest_version,
            lowest_version,
            utf8::encode_utf8(node_name@),
            extra@,
        ),
{
    let name = node_name.as_bytes();
    let total_len = 1 + 2 + 1 + 1 + 2 + 2 + 2 + name.len() + 2 + extra.len();
    let mut buf: Vec<u8> = Vec::new();
    put_u16(&mut buf, total_len as u16);
    buf.push(ALIVE2_REQ);
    put_u16(&mut buf, port);
    buf.push(node_type.as_u8());
    buf.push(0u8);
    put_u16(&mut buf, highest_version);
    put_u16(&mut buf, lowest_version);
    put_u16(&mut buf, name.len() as u16);
    put_slice(&mut buf, name);
    put_u16(&mut buf, extra.len() as u16);
    put_slice(&mut buf, extra);
    assert(buf@ =~= alive2_request_bytes(
        port,
        node_type,
        highest_version,
        lowest_version,
        utf8::encode_utf8(node_name@),
        extra@,
    ));
    buf
}

/// The bytes of a one-byte request (NAMES_REQ, DUMP_REQ or KILL_REQ).
pub fn simple_request(tag: u8) -> (r: Vec<u8>)
    ensures
        r@ == wire::be16(1) + seq![tag],
{
    let mut buf: Vec<u8> = Vec::new();
    put_u16(&mut buf, 1);
    buf.push(tag);
    buf
}

/// A PORT2_RESP, read to its end, that decodes to node information.
pub open spec fn port2_response_decodes(d: Seq<u8>) -> bool {
    &&& d.len() >= 12
    &&& d[0] == PORT2_RESP
    &&& d[1] == 0
    &&& (d[4] == 77 || d[4] == 72 || d[4] == 104)
    &&& d[5] == 0
    &&& wire::read16(d, 10) <= 255
    &&& d.len() >= 14 + wire::read16(d, 10)
    &&& utf8::valid_utf8(d.subrange(12, 12 + wire::read16(d, 10)))
    &&& wire::read16(d, 12 + wire::read16(d, 10)) <= 4096
    &&& d.len() >= 14 + wire::read16(d, 10) + wire::read16(d, 12 + wire::read16(d, 10))
}

fn epmd_protocol_error(msg: &str) -> (e: Error)
    ensures
        e is EpmdProtocol,
{
    Error::EpmdProtocol(String::from_str(msg))
}

fn truncated(context: &str) -> (e: Error)
    ensures
        e is UnexpectedEof,
{
    Error::UnexpectedEof { context: String::from_str(context) }
}

/// Decodes the daemon's whole reply to a PORT_PLEASE2_REQ for `node_name`.
/// A non-zero result is `EpmdLookup` ("Node not found"); a reply cut short is
/// `UnexpectedEof`; anything else malformed is `EpmdProtocol`.
pub fn decode_port2_response(node_name: &str, data: &[u8]) -> (r: Result<NodeInfo>)
    ensures
        r is Ok <==> port2_response_decodes(data@),
        r matches Ok(info) ==> {
            let nlen = wire::read16(data@, 10);
            let elen = wire::read16(data@, 12 + nlen);
            &&& info.port == wire::read16(data@, 2)
            &&& info.node_type.code() == data@[4]
            &&& info.highest_version == wire::read16(data@, 6)
            &&& info.lowest_version == wire::read16(data@, 8)
            &&& info.node_name@ == utf8::decode_utf8(data@.subrange(12, 12 + nlen))
            &&& info.extra@ == data@.subrange(14 + nlen, 14 + nlen + elen)
        },
        r matches Err(e) ==> (data@.len() >= 2 && data@[0] == PORT2_RESP && data@[1] != 0 <==> (
        e matches Error::EpmdLookup { node, .. } && node@ == node_name@)) && (e is EpmdLookup || e
            is EpmdProtocol || e is UnexpectedEof),
{
    if data.len() < 1 {
        return Err(truncated("EPMD response type"));
    }
    let response_type = data[0];
    if response_type != PORT2_RESP {
        return Err(
            Error::EpmdProtocol(
                text_with_number("Unexpected response type: ", response_type as i128),
            ),
        );
    }
    if data.len() < 2 {
        return Err(truncated("EPMD result"));
    }
    if data[1] != 0 {
        return Err(
            Error::EpmdLookup {
                node: String::from_str(node_name),
                reason: String::from_str("Node not found"),
            },
        );
    }
    if data.len() < 12 {
        return Err(truncated("EPMD node information"));
    }
    let port = get_u16(data, 2);
    let node_type = match NodeType::from_u8(data[4]) {
        Some(t) => t,
        None => {
            return Err(
                Error::EpmdProtocol(text_with_number("Unknown node type: ", data[4] as i128)),
            );
        },
    };
    let protocol = match Protocol::from_u8(data[5]) {
        Some(p) => p,
        None => {
            return Err(Error::EpmdProtocol(text_with_number("Unknown protocol: ", data[5] as i128)));
        },
    };
    let highest_version = get_u16(data, 6);
    let lowest_version = get_u16(data, 8);
    let nlen = get_u16(data, 10) as usize;
    if nlen > 255 {
        let mut msg = text_with_number("Node name too long: ", nlen as i128);
        msg.append(" bytes");
        return Err(Error::EpmdProtocol(msg));
    }
    if data.len() < 12 + nlen {
        return Err(truncated("EPMD node name"));
    }
    let name_bytes = copy_range(data, 12, 12 + nlen);
    let node = match utf8_to_string(name_bytes.as_slice()) {
        Some(s) => s,
        None => {
            return Err(epmd_protocol_error("Invalid UTF-8 in node name"));
        },
    };
    if data.len() < 14 + nlen {
        return Err(truncated("EPMD extra length"));
    }
    let elen = get_u16(data, 12 + nlen) as usize;
    if elen > 4096 {
        let mut msg = text_with_number("Extra data too long: ", elen as i128);
        msg.append(" bytes");
        return Err(Error::EpmdProtocol(msg));
    }
    if data.len() < 14 + nlen + elen {
        return Err(truncated("EPMD extra data"));
    }
    let extra = copy_range(data, 14 + nlen, 14 + nlen + elen);
    Ok(
        NodeInfo {
            port,
            node_type,
            protocol,
            highest_version,
            lowest_version,
            node_name: node,
            extra,
        },
    )
}

/// How long a PORT2 reply must be before what was read of it decides the
/// outcome: the length to read up to, or `None` once the bytes read are
/// enough for `decode_port2_response` (an error, or the whole reply).
pub open spec fn port2_needed(d: Seq<u8>) -> Option<nat> {
    if d.len() < 1 {
        Some(1)
    } else if d[0] != PORT2_RESP {
        None
    } else if d.len() < 2 {
        Some(2)
    } else if d[1] != 0 {
        None
    } else if d.len() < 12 {
        Some(12)
    } else if !(d[4] == 77 || d[4] == 72 || d[4] == 104) || d[5] != 0 || wire::read16(d, 10)
        > 255 {
        None
    } else if d.len() < 14 + wire::read16(d, 10) {
        Some((14 + wire::read16(d, 10)) as nat)
    } else if wire::read16(d, 12 + wire::read16(d, 10)) > 4096 {
        None
    } else if d.len() < 14 + wire::read16(d, 10) + wire::read16(d, 12 + wire::read16(d, 10)) {
        Some((14 + wire::read16(d, 10) + wire::read16(d, 12 + wire::read16(d, 10))) as nat)
    } else {
        None
    }
}

/// How many bytes of a PORT2 reply to have read in all before decoding it:
/// `Some(n)`, with `n` beyond what was read, asks for more; `None` means the
/// bytes read decide the outcome.
pub fn port2_bytes_needed(data: &[u8]) -> (r: Option<usize>)
    ensures
        match port2_needed(data@) {
            Some(n) => r == Some(n as usize) && n > data@.len(),
            None => r is None,
        },
{
    if data.len() < 1 {
        return Some(1);
    }
    if data[0] != PORT2_RESP {
        return None;
    }
    if data.len() < 2 {
        return Some(2);
    }
    if data[1] != 0 {
        return None;
    }
    if data.len() < 12 {
        return Some(12);
    }
    let nlen = get_u16(data, 10) as usize;
    if !(data[4] == 77 || data[4] == 72 || data[4] == 104) || data[5] != 0 || nlen > 255 {
        return None;
    }
    if data.len() < 14 + nlen {
        return Some(14 + nlen);
    }
    let elen = get_u16(data, 12 + nlen) as usize;
    if elen > 4096 {
        return None;
    }
    if data.len() < 14 + nlen + elen {
        return Some(14 + nlen + elen);
    }
    None
}

/// The width in bytes of the creation that follows a registration reply of
/// this type: 2 after ALIVE2_RESP, 4 after ALIVE2_X_RESP; any other type is
/// a protocol error.
pub fn alive2_creation_width(response_type: u8) -> (r: Result<usize>)
    ensures
        response_type == ALIVE2_RESP ==> (r matches Ok(w) && w == 2),
        response_type == ALIVE2_X_RESP ==> (r matches Ok(w) && w == 4),
        response_type != ALIVE2_RESP && response_type != ALIVE2_X_RESP ==> (r matches Err(e)
            && e is EpmdProtocol),
{
    if response_type == ALIVE2_RESP {
        Ok(2)
    } else if response_type == ALIVE2_X_RESP {
        Ok(4)
    } else {
        Err(
            Error::EpmdProtocol(
                text_with_number("Unexpected response type: ", response_type as i128),
            ),
        )
    }
}

/// Checks the result code of a registration reply: zero is success.
pub fn check_alive2_result(result: u8) -> (r: Result<()>)
    ensures
        r is Ok <==> result == 0,
        r matches Err(e) ==> e is EpmdRegistration,
{
    if result != 0 {
        return Err(
            Error::EpmdRegistration {
                reason: text_with_number("EPMD returned error code: ", result as i128),
            },
        );
    }
    Ok(())
}

/// The creation carried by a registration reply, from its 2- or 4-byte field.
pub fn alive2_creation(bytes: &[u8]) -> (r: u32)
    requires
        bytes@.len() == 2 || bytes@.len() == 4,
    ensures
        bytes@.len() == 2 ==> r == wire::read16(bytes@, 0),
        bytes@.len() == 4 ==> r == wire::read32(bytes@, 0),
{
    if bytes.len() == 2 {
        get_u16(bytes, 0) as u32
    } else {
        get_u32(bytes, 0)
    }
}

/// Decodes a registration reply whole: its type, its result and the
/// creation. A reply cut short is `UnexpectedEof`.
pub fn decode_alive2_response(data: &[u8]) -> (r: Result<u32>)
    ensures
        r matches Ok(c) ==> data@.len() >= 2 && data@[1] == 0 && ((data@[0] == ALIVE2_RESP
            && data@.len() >= 4 && c == wire::read16(data@, 2)) || (data@[0] == ALIVE2_X_RESP
            && data@.len() >= 6 && c == wire::read32(data@, 2))),
        (data@.len() >= 4 && data@[0] == ALIVE2_RESP && data@[1] == 0) ==> r is Ok,
        (data@.len() >= 6 && data@[0] == ALIVE2_X_RESP && data@[1] == 0) ==> r is Ok,
        (data@.len() >= 2 && (data@[0] == ALIVE2_RESP || data@[0] == ALIVE2_X_RESP) && data@[1]
            != 0) ==> (r matches Err(e) && e is EpmdRegistration),
        (data@.len() >= 1 && data@[0] != ALIVE2_RESP && data@[0] != ALIVE2_X_RESP) ==> (r matches Err(
            e,
        ) && e is EpmdProtocol),
        (data@.len() < 1 || ((data@[0] == ALIVE2_RESP || data@[0] == ALIVE2_X_RESP) && (data@.len()
            < 2 || (data@[1] == 0 && data@.len() < (if data@[0] == ALIVE2_RESP {
            4int
        } else {
            6int
        }))))) ==> (r matches Err(e) && e is UnexpectedEof),
{
    if data.len() < 1 {
        return Err(truncated("EPMD response type"));
    }
    let width = alive2_creation_width(data[0])?;
    if data.len() < 2 {
        return Err(truncated("EPMD result"));
    }
    check_alive2_result(data[1])?;
    if data.len() < 2 + width {
        return Err(truncated("EPMD creation"));
    }
    let field = copy_range(data, 2, 2 + width);
    assert(field@.len() == 2 ==> wire::read16(field@, 0) == wire::read16(data@, 2));
    assert(field@.len() == 4 ==> wire::read32(field@, 0) == wire::read32(data@, 2));
    Ok(alive2_creation(field.as_slice()))
}

/// Decodes the text of a NAMES or DUMP reply: the daemon's 4-byte port,
/// then UTF-8 text to the end of the reply.
pub fn decode_names_response(data: &[u8]) -> (r: Result<String>)
    ensures
        r is Ok <==> data@.len() >= 4 && utf8::valid_utf8(data@.subrange(4, data@.len() as int)),
        r matches Ok(s) ==> s@ == utf8::decode_utf8(data@.subrange(4, data@.len() as int)),
        r matches Err(e) ==> (data@.len() < 4 ==> e is UnexpectedEof) && (data@.len() >= 4
            ==> e is EpmdProtocol),
{
    if data.len() < 4 {
        return Err(truncated("EPMD port"));
    }
    let _epmd_port = get_u32(data, 0);
    let text = copy_range(data, 4, data.len());
    match utf8_to_string(text.as_slice()) {
        Some(s) => Ok(s),
        None => Err(epmd_protocol_error("Invalid UTF-8 in NAMES response")),
    }
}

/// Decodes the text of a DUMP reply: the daemon's 4-byte port, then UTF-8
/// text to the end of the reply.
pub fn decode_dump_response(data: &[u8]) -> (r: Result<String>)
    ensures
        r is Ok <==> data@.len() >= 4 && utf8::valid_utf8(data@.subrange(4, data@.len() as int)),
        r matches Ok(s) ==> s@ == utf8::decode_utf8(data@.subrange(4, data@.len() as int)),
        r matches Err(e) ==> (data@.len() < 4 ==> e is UnexpectedEof) && (data@.len() >= 4
            ==> e is EpmdProtocol),
{
    if data.len() < 4 {
        return Err(truncated("EPMD port"));
    }
    let text = copy_range(data, 4, data.len());
    match utf8_to_string(text.as_slice()) {
        Some(s) => Ok(s),
        None => Err(epmd_protocol_error("Invalid UTF-8 in DUMP response")),
    }
}

/// Decodes the text of a KILL reply: UTF-8 text to the end of the reply.
pub fn decode_kill_response(data: &[u8]) -> (r: Result<String>)
    ensures
        r is Ok <==> utf8::valid_utf8(data@),
        r matches Ok(s) ==> s@ == utf8::decode_utf8(data@),
        r matches Err(e) ==> e is EpmdProtocol,
{
    match utf8_to_string(data) {
        Some(s) => Ok(s),
        None => Err(epmd_protocol_error("Invalid UTF-8 in KILL response")),
    }
}

/// Reply bytes for a successful lookup, as the daemon sends them.
pub open spec fn port2_response_bytes(info_port: u16, node_type: NodeType, highest: u16, lowest: u16, name: Seq<u8>, extra: Seq<u8>) -> Seq<u8> {
    seq![PORT2_RESP, 0u8] + wire::be16(info_port) + seq![node_type.code(), 0u8] + wire::be16(highest)
        + wire::be16(lowest) + wire::be16(name.len() as u16) + name + wire::be16(extra.len() as u16)
        + extra
}

/// A successful lookup reply decodes to the node information it carries.
pub proof fn lemma_port2_response_roundtrip(
    port: u16,
    node_type: NodeType,
    highest: u16,
    lowest: u16,
    name: Seq<char>,
    extra: Seq<u8>,
)
    requires
        utf8::encode_utf8(name).len() <= 255,
        extra.len() <= 4096,
    ensures
        ({
            let d = port2_response_bytes(port, node_type, highest, lowest, utf8::encode_utf8(name), extra);
            let nlen = wire::read16(d, 10);
            &&& port2_response_decodes(d)
            &&& wire::read16(d, 2) == port
            &&& d[4] == node_type.code()
            &&& wire::read16(d, 6) == highest
            &&& wire::read16(d, 8) == lowest
            &&& utf8::decode_utf8(d.subrange(12, 12 + nlen)) == name
            &&& d.subrange(14 + nlen, 14 + nlen + wire::read16(d, 12 + nlen)) == extra
        }),
{
    let b = utf8::encode_utf8(name);
    let d = port2_response_bytes(port, node_type, highest, lowest, b, extra);
    assert(d.subrange(2, 4) =~= wire::be16(port));
    assert(d.subrange(6, 8) =~= wire::be16(highest));
    assert(d.subrange(8, 10) =~= wire::be16(lowest));
    assert(d.subrange(10, 12) =~= wire::be16(b.len() as u16));
    wire::lemma_read16_be16(port, d, 2);
    wire::lemma_read16_be16(highest, d, 6);
    wire::lemma_read16_be16(lowest, d, 8);
    wire::lemma_read16_be16(b.len() as u16, d, 10);
    let nlen = b.len() as int;
    assert(d.subrange(12, 12 + nlen) =~= b);
    assert(d.subrange(12 + nlen, 14 + nlen) =~= wire::be16(extra.len() as u16));
    wire::lemma_read16_be16(extra.len() as u16, d, 12 + nlen);
    assert(d.subrange(14 + nlen, 14 + nlen + extra.len() as int) =~= extra);
    utf8::encode_utf8_valid_utf8(name);
    utf8::encode_utf8_decode_utf8(name);
}

} // verus!
