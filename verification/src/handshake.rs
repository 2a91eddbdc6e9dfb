//! Distribution protocol handshake messages: their wire encodings and decoders.
use vstd::prelude::*;
use vstd::string::*;
use vstd::utf8;
use crate::digest::{self, compute_digest};
use crate::errors::{Error, Result};
use crate::flags::DistributionFlags;
use crate::text::{bytes_equal, string_bytes, text_with_number, text_with_two_numbers, utf8_to_string};
use crate::wire::{self, copy_range, get_u16, get_u32, get_u64, put_slice, put_u16, put_u32, put_u64};

verus! {

/// Handshake protocol version (version 6 was introduced in Erlang/OTP 23.0)
pub const PROTOCOL_VERSION: u16 = 6;

/// Old protocol version 5 (for compatibility)
pub const PROTOCOL_VERSION_5: u16 = 5;

/// Longest node name, in bytes, that a handshake message carries.
pub const MAX_NODE_NAME_BYTES: usize = 255;

/// Tag of the version 6 name and challenge messages ('N').
pub const TAG_NAME: u8 = 78;

/// Tag of the version 5 name message ('n').
pub const TAG_NAME_OLD: u8 = 110;

/// Tag of the status message ('s').
pub const TAG_STATUS: u8 = 115;

/// Tag of the challenge reply message ('r').
pub const TAG_REPLY: u8 = 114;

/// Tag of the challenge acknowledgement message ('a').
pub const TAG_ACK: u8 = 97;

fn handshake_error(msg: &str) -> (e: Error)
    ensures
        e is InvalidHandshakeMessage,
{
    Error::InvalidHandshakeMessage(String::from_str(msg))
}

/// Handshake status codes
#[derive(Debug, Clone, Copy, PartialEq, Eq, Structural)]
pub enum Status {
    Okay,
    OkSimultaneous,
    Nok,
    NotAllowed,
    Alive,
}

/// The status with the given numeric code.
pub open spec fn status_of_code(value: u8) -> Option<Status> {
    match value {
        0 => Some(Status::Okay),
        1 => Some(Status::OkSimultaneous),
        2 => Some(Status::Nok),
        3 => Some(Status::NotAllowed),
        4 => Some(Status::Alive),
        _ => None,
    }
}

/// The status whose text is `text`.
pub open spec fn status_of_text(text: Seq<char>) -> Option<Status> {
    if text == "ok"@ {
        Some(Status::Okay)
    } else if text == "ok_simultaneous"@ {
        Some(Status::OkSimultaneous)
    } else if text == "nok"@ {
        Some(Status::Nok)
    } else if text == "not_allowed"@ {
        Some(Status::NotAllowed)
    } else if text == "alive"@ {
        Some(Status::Alive)
    } else {
        None
    }
}

impl Status {
    /// The numeric code of the status.
    pub open spec fn code(self) -> u8 {
        match self {
            Status::Okay => 0,
            Status::OkSimultaneous => 1,
            Status::Nok => 2,
            Status::NotAllowed => 3,
            Status::Alive => 4,
        }
    }

    /// The text of the status.
    pub open spec fn text(self) -> Seq<char> {
        match self {
            Status::Okay => "ok"@,
            Status::OkSimultaneous => "ok_simultaneous"@,
            Status::Nok => "nok"@,
            Status::NotAllowed => "not_allowed"@,
            Status::Alive => "alive"@,
        }
    }

    pub fn from_u8(value: u8) -> (r: Option<Self>)
        ensures
            r == status_of_code(value),
    {
        match value {
            0 => Some(Status::Okay),
            1 => Some(Status::OkSimultaneous),
            2 => Some(Status::Nok),
            3 => Some(Status::NotAllowed),
            4 => Some(Status::Alive),
            _ => None,
        }
    }

    /// The numeric code of the status.
    pub fn as_u8(&self) -> (r: u8)
        ensures
            r == self.code(),
    {
        match self {
            Status::Okay => 0,
            Status::OkSimultaneous => 1,
            Status::Nok => 2,
            Status::NotAllowed => 3,
            Status::Alive => 4,
        }
    }

    /// Whether the peer accepted the connection.
    pub fn is_ok(&self) -> (r: bool)
        ensures
            r == (*self == Status::Okay || *self == Status::OkSimultaneous),
    {
        match self {
            Status::Okay | Status::OkSimultaneous => true,
            _ => false,
        }
    }

    /// The text of the status (its display text).
    pub fn as_str(&self) -> (r: &'static str)
        ensures
            r@ == self.text(),
    {
        match self {
            Status::Okay => "ok",
            Status::OkSimultaneous => "ok_simultaneous",
            Status::Nok => "nok",
            Status::NotAllowed => "not_allowed",
            Status::Alive => "alive",
        }
    }

    /// The text of the status, as an owned string.
    pub fn to_string(&self) -> (r: String)
        ensures
            r@ == self.text(),
    {
        String::from_str(self.as_str())
    }
}

/// Every status reads back from its numeric code, and from its text.
pub proof fn lemma_status_code_roundtrip(s: Status)
    ensures
        status_of_code(s.code()) == Some(s),
        status_of_text(s.text()) == Some(s),
{
    reveal_strlit("ok");
    reveal_strlit("ok_simultaneous");
    reveal_strlit("nok");
    reveal_strlit("not_allowed");
    reveal_strlit("alive");
    assert("ok"@.len() == 2);
    assert("ok_simultaneous"@.len() == 15);
    assert("nok"@.len() == 3);
    assert("not_allowed"@.len() == 11);
    assert("alive"@.len() == 5);
}

/// Send Name message (tag 'N' for protocol version 6)
#[derive(Debug, Clone, PartialEq, Eq)]
pub struct SendName {
    pub flags: DistributionFlags,
    pub creation: u32,
    pub name: String,
}

/// Wire bytes of a version 6 name message, with its 2-byte length prefix.
pub open spec fn send_name_wire(flags: u64, creation: u32, name: Seq<u8>) -> Seq<u8> {
    wire::be16((15 + name.len()) as u16) + seq![TAG_NAME] + wire::be64(flags) + wire::be32(creation) + wire::be16(
        name.len() as u16,
    ) + name
}

/// Wire bytes of a version 5 name message, with its 2-byte length prefix.
pub open spec fn send_name_old_wire(flags: u64, name: Seq<u8>) -> Seq<u8> {
    wire::be16((7 + name.len()) as u16) + seq![TAG_NAME_OLD] + wire::be16(PROTOCOL_VERSION_5) + wire::be32(
        flags as u32,
    ) + name
}

/// A version 6 name message body (after the length prefix) that decodes.
pub open spec fn send_name_decodes(d: Seq<u8>) -> bool {
    &&& d.len() >= 15
    &&& d[0] == TAG_NAME
    &&& d.len() - 15 >= wire::read16(d, 13)
    &&& utf8::valid_utf8(d.subrange(15, 15 + wire::read16(d, 13)))
}

/// The node name carried by a decodable name or challenge body whose name
/// length field is at `at`.
pub open spec fn carried_name(d: Seq<u8>, at: int) -> Seq<char> {
    utf8::decode_utf8(d.subrange(at + 2, at + 2 + wire::read16(d, at)))
}

impl SendName {
    pub fn new(flags: DistributionFlags, creation: u32, name: &str) -> (r: Self)
        ensures
            r.flags == flags,
            r.creation == creation,
            r.name@ == name@,
    {
        SendName { flags, creation, name: String::from_str(name) }
    }

    /// The version 6 encoding, with its 2-byte length prefix; the name may be
    /// at most 255 bytes.
    pub fn encode(&self) -> (r: Result<Vec<u8>>)
        ensures
            utf8::encode_utf8(self.name@).len() > 255 <==> r is Err,
            r matches Err(e) ==> e matches Error::NodeNameTooLong { size, max } && size
                == utf8::encode_utf8(self.name@).len() && max == 255,
            r matches Ok(v) ==> v@ == send_name_wire(
                self.flags.bits,
                self.creation,
                utf8::encode_utf8(self.name@),
            ),
    {
        let name_bytes = string_bytes(&self.name);
        if name_bytes.len() > MAX_NODE_NAME_BYTES {
            return Err(Error::NodeNameTooLong { size: name_bytes.len(), max: MAX_NODE_NAME_BYTES });
        }
        let mut buf: Vec<u8> = Vec::new();
        let message_len = (1 + 8 + 4 + 2 + name_bytes.len()) as u16;
        put_u16(&mut buf, message_len);
        buf.push(TAG_NAME);
        put_u64(&mut buf, self.flags.as_u64());
        put_u32(&mut buf, self.creation);
        put_u16(&mut buf, name_bytes.len() as u16);
        put_slice(&mut buf, name_bytes);
        assert(buf@ =~= send_name_wire(self.flags.bits, self.creation, utf8::encode_utf8(self.name@)));
        Ok(buf)
    }

    /// The version 5 encoding, with its 2-byte length prefix; the name may be
    /// at most 255 bytes. Only the low 32 bits of the flags are sent.
    pub fn encode_old(&self) -> (r: Result<Vec<u8>>)
        ensures
            utf8::encode_utf8(self.name@).len() > 255 <==> r is Err,
            r matches Err(e) ==> e matches Error::NodeNameTooLong { size, max } && size
                == utf8::encode_utf8(self.name@).len() && max == 255,
            r matches Ok(v) ==> v@ == send_name_old_wire(self.flags.bits, utf8::encode_utf8(self.name@)),
    {
        let name_bytes = string_bytes(&self.name);
        if name_bytes.len() > MAX_NODE_NAME_BYTES {
            return Err(Error::NodeNameTooLong { size: name_bytes.len(), max: MAX_NODE_NAME_BYTES });
        }
        let mut buf: Vec<u8> = Vec::new();
        let message_len = (1 + 2 + 4 + name_bytes.len()) as u16;
        put_u16(&mut buf, message_len);
        buf.push(TAG_NAME_OLD);
        put_u16(&mut buf, PROTOCOL_VERSION_5);
        put_u32(&mut buf, self.flags.as_u64() as u32);
        put_slice(&mut buf, name_bytes);
        assert(buf@ =~= send_name_old_wire(self.flags.bits, utf8::encode_utf8(self.name@)));
        Ok(buf)
    }

    /// Decodes a version 6 name message body (without the length prefix).
    /// Bytes after the name are ignored.
    pub fn decode(data: &[u8]) -> (r: Result<Self>)
        ensures
            r is Ok <==> send_name_decodes(data@),
            r matches Ok(m) ==> m.flags.bits == wire::read64(data@, 1) && m.creation == wire::read32(data@, 9)
                && m.name@ == carried_name(data@, 13),
            r matches Err(e) ==> e is InvalidHandshakeMessage,
    {
        if data.len() < 1 {
            return Err(handshake_error("Insufficient data for tag"));
        }
        let tag = data[0];
        if tag != TAG_NAME {
            return Err(
                Error::InvalidHandshakeMessage(
                    text_with_number("Expected tag 'N' (78), got ", tag as i128),
                ),
            );
        }
        if data.len() - 1 < 8 + 4 + 2 {
            return Err(handshake_error("Insufficient data for flags, creation, and name length"));
        }
        let flags = DistributionFlags::new(get_u64(data, 1));
        let creation = get_u32(data, 9);
        let name_len = get_u16(data, 13) as usize;
        if data.len() - 15 < name_len {
            return Err(
                Error::InvalidHandshakeMessage(
                    text_with_two_numbers(
                        "Insufficient data for name: expected ",
                        name_len as i128,
                        " bytes, got ",
                        (data.len() - 15) as i128,
                    ),
                ),
            );
        }
        let name_bytes = copy_range(data, 15, 15 + name_len);
        match utf8_to_string(name_bytes.as_slice()) {
            Some(name) => Ok(SendName { flags, creation, name }),
            None => Err(handshake_error("Invalid UTF-8 in node name")),
        }
    }
}

/// Status message (tag 's')
#[derive(Debug, Clone, PartialEq, Eq)]
pub struct StatusMessage {
    pub status: Status,
}

/// Wire bytes of a status message as this library sends it: the 2-byte
/// length 3, the tag, and the numeric status code in 2 bytes.
pub open spec fn status_wire(status: Status) -> Seq<u8> {
    wire::be16(3) + seq![TAG_STATUS] + wire::be16(status.code() as u16)
}

/// A status message body (without length prefix) that decodes: the tag
/// followed by the UTF-8 text of a status.
pub open spec fn status_decodes(d: Seq<u8>) -> bool {
    &&& d.len() >= 1
    &&& d[0] == TAG_STATUS
    &&& utf8::valid_utf8(d.subrange(1, d.len() as int))
    &&& status_of_text(utf8::decode_utf8(d.subrange(1, d.len() as int))) is Some
}

fn status_from_text(text: &String) -> (r: Option<Status>)
    ensures
        r == status_of_text(text@),
{
    let t = text.as_str();
    if crate::text::str_equal(t, "ok") {
        Some(Status::Okay)
    } else if crate::text::str_equal(t, "ok_simultaneous") {
        Some(Status::OkSimultaneous)
    } else if crate::text::str_equal(t, "nok") {
        Some(Status::Nok)
    } else if crate::text::str_equal(t, "not_allowed") {
        Some(Status::NotAllowed)
    } else if crate::text::str_equal(t, "alive") {
        Some(Status::Alive)
    } else {
        None
    }
}

impl StatusMessage {
    pub fn new(status: Status) -> (r: Self)
        ensures
            r.status == status,
    {
        StatusMessage { status }
    }

    /// The length-prefixed wire bytes: the tag followed by the numeric code.
    pub fn encode(&self) -> (r: Vec<u8>)
        ensures
            r@ == status_wire(self.status),
    {
        let mut buf: Vec<u8> = Vec::new();
        put_u16(&mut buf, 3);
        buf.push(TAG_STATUS);
        put_u16(&mut buf, self.status.as_u8() as u16);
        assert(buf@ =~= status_wire(self.status));
        buf
    }

    /// Decodes a status message body: the tag 's' followed by the status
    /// text ("ok", "ok_simultaneous", "nok", "not_allowed" or "alive").
    pub fn decode(data: &[u8]) -> (r: Result<Self>)
        ensures
            r is Ok <==> status_decodes(data@),
            r matches Ok(m) ==> Some(m.status) == status_of_text(
                utf8::decode_utf8(data@.subrange(1, data@.len() as int)),
            ),
            r matches Err(e) ==> e is InvalidHandshakeMessage,
    {
        if data.len() < 1 {
            return Err(handshake_error("Insufficient data for tag"));
        }
        let tag = data[0];
        if tag != TAG_STATUS {
            return Err(
                Error::InvalidHandshakeMessage(
                    text_with_number("Expected tag 's' (115), got ", tag as i128),
                ),
            );
        }
        let rest = copy_range(data, 1, data.len());
        let text = match utf8_to_string(rest.as_slice()) {
            Some(t) => t,
            None => {
                return Err(handshake_error("Invalid UTF-8 in status"));
            },
        };
        match status_from_text(&text) {
            Some(status) => Ok(StatusMessage { status }),
            None => {
                let mut msg = String::from_str("Unknown status: ");
                msg.append(text.as_str());
                Err(Error::InvalidHandshakeMessage(msg))
            },
        }
    }
}

/// Challenge message (tag 'N')
#[derive(Debug, Clone, PartialEq, Eq)]
pub struct Challenge {
    pub flags: DistributionFlags,
    pub challenge: u32,
    pub creation: u32,
    pub name: String,
}

/// Wire bytes of a challenge message, with its 2-byte length prefix.
pub open spec fn challenge_wire(flags: u64, challenge: u32, creation: u32, name: Seq<u8>) -> Seq<
    u8,
> {
    wire::be16((19 + name.len()) as u16) + seq![TAG_NAME] + wire::be64(flags) + wire::be32(challenge) + wire::be32(creation)
        + wire::be16(name.len() as u16) + name
}

/// A challenge message body (after the length prefix) that decodes.
pub open spec fn challenge_decodes(d: Seq<u8>) -> bool {
    &&& d.len() >= 19
    &&& d[0] == TAG_NAME
    &&& d.len() - 19 >= wire::read16(d, 17)
    &&& utf8::valid_utf8(d.subrange(19, 19 + wire::read16(d, 17)))
}

impl Challenge {
    pub fn new(flags: DistributionFlags, challenge: u32, creation: u32, name: &str) -> (r: Self)
        ensures
            r.flags == flags,
            r.challenge == challenge,
            r.creation == creation,
            r.name@ == name@,
    {
        Challenge { flags, challenge, creation, name: String::from_str(name) }
    }

    /// The encoding with its 2-byte length prefix; the name may be at most
    /// 255 bytes.
    pub fn encode(&self) -> (r: Result<Vec<u8>>)
        ensures
            utf8::encode_utf8(self.name@).len() > 255 <==> r is Err,
            r matches Err(e) ==> e matches Error::NodeNameTooLong { size, max } && size
                == utf8::encode_utf8(self.name@).len() && max == 255,
            r matches Ok(v) ==> v@ == challenge_wire(
                self.flags.bits,
                self.challenge,
                self.creation,
                utf8::encode_utf8(self.name@),
            ),
    {
        let name_bytes = string_bytes(&self.name);
        if name_bytes.len() > MAX_NODE_NAME_BYTES {
            return Err(Error::NodeNameTooLong { size: name_bytes.len(), max: MAX_NODE_NAME_BYTES });
        }
        let mut buf: Vec<u8> = Vec::new();
        let message_len = (1 + 8 + 4 + 4 + 2 + name_bytes.len()) as u16;
        put_u16(&mut buf, message_len);
        buf.push(TAG_NAME);
        put_u64(&mut buf, self.flags.as_u64());
        put_u32(&mut buf, self.challenge);
        put_u32(&mut buf, self.creation);
        put_u16(&mut buf, name_bytes.len() as u16);
        put_slice(&mut buf, name_bytes);
        assert(buf@ =~= challenge_wire(
            self.flags.bits,
            self.challenge,
            self.creation,
            utf8::encode_utf8(self.name@),
        ));
        Ok(buf)
    }

    /// Decodes a challenge message body (without the length prefix). Bytes
    /// after the name are ignored.
    pub fn decode(data: &[u8]) -> (r: Result<Self>)
        ensures
            r is Ok <==> challenge_decodes(data@),
            r matches Ok(m) ==> m.flags.bits == wire::read64(data@, 1) && m.challenge == wire::read32(data@, 9)
                && m.creation == wire::read32(data@, 13) && m.name@ == carried_name(data@, 17),
            r matches Err(e) ==> e is InvalidHandshakeMessage,
    {
        if data.len() < 1 {
            return Err(handshake_error("Insufficient data for tag"));
        }
        let tag = data[0];
        if tag != TAG_NAME {
            return Err(
                Error::InvalidHandshakeMessage(
                    text_with_number("Expected tag 'N', got ", tag as i128),
                ),
            );
        }
        if data.len() - 1 < 8 + 4 + 4 + 2 {
            return Err(
                handshake_error("Insufficient data for flags, challenge, creation, name length"),
            );
        }
        let flags = DistributionFlags::new(get_u64(data, 1));
        let challenge = get_u32(data, 9);
        let creation = get_u32(data, 13);
        let name_len = get_u16(data, 17) as usize;
        if data.len() - 19 < name_len {
            return Err(
                Error::InvalidHandshakeMessage(
                    text_with_two_numbers(
                        "Insufficient data for name: expected ",
                        name_len as i128,
                        " bytes, got ",
                        (data.len() - 19) as i128,
                    ),
                ),
            );
        }
        let name_bytes = copy_range(data, 19, 19 + name_len);
        match utf8_to_string(name_bytes.as_slice()) {
            Some(name) => Ok(Challenge { flags, challenge, creation, name }),
            None => Err(handshake_error("Invalid UTF-8 in node name")),
        }
    }
}

/// Challenge Reply message (tag 'r')
#[derive(Debug, Clone, PartialEq, Eq)]
pub struct ChallengeReply {
    pub challenge: u32,
    pub digest: [u8; 16],
}

/// Wire bytes of a challenge reply, with its 2-byte length prefix.
pub open spec fn challenge_reply_wire(challenge: u32, digest: Seq<u8>) -> Seq<u8> {
    wire::be16(21) + seq![TAG_REPLY] + wire::be32(challenge) + digest
}

/// A challenge reply body (without the length prefix) that decodes.
pub open spec fn challenge_reply_decodes(d: Seq<u8>) -> bool {
    d.len() >= 21 && d[0] == TAG_REPLY
}

fn digest_from(data: &[u8], start: usize) -> (r: [u8; 16])
    requires
        start + 16 <= data@.len(),
    ensures
        r@ == data@.subrange(start as int, start + 16),
{
    let n = data.len();
    let mut d = [0u8; 16];
    let mut i: usize = 0;
    while i < 16
        invariant
            i <= 16,
            n == data@.len(),
            start + 16 <= data@.len(),
            d@.len() == 16,
            forall|k: int| 0 <= k < i ==> d@[k] == data@[start + k],
        decreases 16 - i,
    {
        d[i] = data[start + i];
        i = i + 1;
    }
    assert(d@ =~= data@.subrange(start as int, start + 16));
    d
}

impl ChallengeReply {
    /// A reply that carries our challenge and the digest of theirs.
    pub fn new(our_challenge: u32, their_challenge: u32, cookie: &str) -> (r: Self)
        ensures
            r.challenge == our_challenge,
            r.digest@ == digest::spec_digest(their_challenge, cookie@),
    {
        let digest = compute_digest(their_challenge, cookie);
        ChallengeReply { challenge: our_challenge, digest }
    }

    pub fn encode(&self) -> (r: Vec<u8>)
        ensures
            r@ == challenge_reply_wire(self.challenge, self.digest@),
    {
        let mut buf: Vec<u8> = Vec::new();
        put_u16(&mut buf, 21);
        buf.push(TAG_REPLY);
        put_u32(&mut buf, self.challenge);
        put_slice(&mut buf, &self.digest);
        assert(buf@ =~= challenge_reply_wire(self.challenge, self.digest@));
        buf
    }

    /// Decodes a challenge reply body (without the length prefix).
    pub fn decode(data: &[u8]) -> (r: Result<Self>)
        ensures
            r is Ok <==> challenge_reply_decodes(data@),
            r matches Ok(m) ==> m.challenge == wire::read32(data@, 1) && m.digest@ == data@.subrange(
                5,
                21,
            ),
            r matches Err(e) ==> e is InvalidHandshakeMessage,
    {
        if data.len() < 1 {
            return Err(handshake_error("Insufficient data for tag"));
        }
        let tag = data[0];
        if tag != TAG_REPLY {
            return Err(
                Error::InvalidHandshakeMessage(
                    text_with_number("Expected tag 'r', got ", tag as i128),
                ),
            );
        }
        if data.len() - 1 < 4 + 16 {
            return Err(handshake_error("Insufficient data for challenge and digest"));
        }
        let challenge = get_u32(data, 1);
        let digest = digest_from(data, 5);
        Ok(ChallengeReply { challenge, digest })
    }

    /// Whether the digest is that of `their_challenge` under `cookie`.
    pub fn verify(&self, their_challenge: u32, cookie: &str) -> (r: bool)
        ensures
            r == (self.digest@ == digest::spec_digest(their_challenge, cookie@)),
    {
        let expected = compute_digest(their_challenge, cookie);
        bytes_equal(&self.digest, &expected)
    }
}

/// Challenge Acknowledgment message (tag 'a')
#[derive(Debug, Clone, PartialEq, Eq)]
pub struct ChallengeAck {
    pub digest: [u8; 16],
}

/// Wire bytes of a challenge acknowledgement, with its 2-byte length prefix.
pub open spec fn challenge_ack_wire(digest: Seq<u8>) -> Seq<u8> {
    wire::be16(17) + seq![TAG_ACK] + digest
}

/// A challenge acknowledgement body (without the length prefix) that decodes.
pub open spec fn challenge_ack_decodes(d: Seq<u8>) -> bool {
    d.len() >= 17 && d[0] == TAG_ACK
}

impl ChallengeAck {
    /// An acknowledgement that carries the digest of `challenge`.
    pub fn new(challenge: u32, cookie: &str) -> (r: Self)
        ensures
            r.digest@ == digest::spec_digest(challenge, cookie@),
    {
        let digest = compute_digest(challenge, cookie);
        ChallengeAck { digest }
    }

    pub fn encode(&self) -> (r: Vec<u8>)
        ensures
            r@ == challenge_ack_wire(self.digest@),
    {
        let mut buf: Vec<u8> = Vec::new();
        put_u16(&mut buf, 17);
        buf.push(TAG_ACK);
        put_slice(&mut buf, &self.digest);
        assert(buf@ =~= challenge_ack_wire(self.digest@));
        buf
    }

    /// Decodes a challenge acknowledgement body (without the length prefix).
    pub fn decode(data: &[u8]) -> (r: Result<Self>)
        ensures
            r is Ok <==> challenge_ack_decodes(data@),
            r matches Ok(m) ==> m.digest@ == data@.subrange(1, 17),
            r matches Err(e) ==> e is InvalidHandshakeMessage,
    {
        if data.len() < 1 {
            return Err(handshake_error("Insufficient data for tag"));
        }
        let tag = data[0];
        if tag != TAG_ACK {
            return Err(
                Error::InvalidHandshakeMessage(
                    text_with_number("Expected tag 'a', got ", tag as i128),
                ),
            );
        }
        if data.len() - 1 < 16 {
            return Err(handshake_error("Insufficient data for digest"));
        }
        let digest = digest_from(data, 1);
        Ok(ChallengeAck { digest })
    }

    /// Whether the digest is that of `challenge` under `cookie`.
    pub fn verify(&self, challenge: u32, cookie: &str) -> (r: bool)
        ensures
            r == (self.digest@ == digest::spec_digest(challenge, cookie@)),
    {
        let expected = compute_digest(challenge, cookie);
        bytes_equal(&self.digest, &expected)
    }
}

/// A version 6 name message decodes, after its 2-byte length prefix, to the
/// flags, creation and name that were encoded.
pub proof fn lemma_send_name_roundtrip(flags: u64, creation: u32, name: Seq<char>)
    requires
        utf8::encode_utf8(name).len() <= 255,
    ensures
        ({
            let w = send_name_wire(flags, creation, utf8::encode_utf8(name));
            let d = w.subrange(2, w.len() as int);
            &&& send_name_decodes(d)
            &&& wire::read64(d, 1) == flags
            &&& wire::read32(d, 9) == creation
            &&& carried_name(d, 13) == name
        }),
{
    let b = utf8::encode_utf8(name);
    let w = send_name_wire(flags, creation, b);
    let d = w.subrange(2, w.len() as int);
    assert(d =~= seq![TAG_NAME] + wire::be64(flags) + wire::be32(creation) + wire::be16(b.len() as u16) + b);
    assert(d.subrange(1, 9) =~= wire::be64(flags));
    assert(d.subrange(9, 13) =~= wire::be32(creation));
    assert(d.subrange(13, 15) =~= wire::be16(b.len() as u16));
    wire::lemma_read64_be64(flags, d, 1);
    wire::lemma_read32_be32(creation, d, 9);
    wire::lemma_read16_be16(b.len() as u16, d, 13);
    assert(d.subrange(15, 15 + wire::read16(d, 13)) =~= b);
    vstd::utf8::encode_utf8_valid_utf8(name);
    vstd::utf8::encode_utf8_decode_utf8(name);
}

/// A challenge message decodes, after its 2-byte length prefix, to the flags,
/// challenge, creation and name that were encoded.
pub proof fn lemma_challenge_roundtrip(flags: u64, challenge: u32, creation: u32, name: Seq<char>)
    requires
        utf8::encode_utf8(name).len() <= 255,
    ensures
        ({
            let w = challenge_wire(flags, challenge, creation, utf8::encode_utf8(name));
            let d = w.subrange(2, w.len() as int);
            &&& challenge_decodes(d)
            &&& wire::read64(d, 1) == flags
            &&& wire::read32(d, 9) == challenge
            &&& wire::read32(d, 13) == creation
            &&& carried_name(d, 17) == name
        }),
{
    let b = utf8::encode_utf8(name);
    let w = challenge_wire(flags, challenge, creation, b);
    let d = w.subrange(2, w.len() as int);
    assert(d =~= seq![TAG_NAME] + wire::be64(flags) + wire::be32(challenge) + wire::be32(creation) + wire::be16(
        b.len() as u16,
    ) + b);
    assert(d.subrange(1, 9) =~= wire::be64(flags));
    assert(d.subrange(9, 13) =~= wire::be32(challenge));
    assert(d.subrange(13, 17) =~= wire::be32(creation));
    assert(d.subrange(17, 19) =~= wire::be16(b.len() as u16));
    wire::lemma_read64_be64(flags, d, 1);
    wire::lemma_read32_be32(challenge, d, 9);
    wire::lemma_read32_be32(creation, d, 13);
    wire::lemma_read16_be16(b.len() as u16, d, 17);
    assert(d.subrange(19, 19 + wire::read16(d, 17)) =~= b);
    vstd::utf8::encode_utf8_valid_utf8(name);
    vstd::utf8::encode_utf8_decode_utf8(name);
}

/// A challenge reply decodes, after its 2-byte length prefix, to the
/// challenge and digest that were encoded.
pub proof fn lemma_challenge_reply_roundtrip(challenge: u32, digest: Seq<u8>)
    requires
        digest.len() == 16,
    ensures
        ({
            let w = challenge_reply_wire(challenge, digest);
            let d = w.subrange(2, w.len() as int);
            &&& challenge_reply_decodes(d)
            &&& wire::read32(d, 1) == challenge
            &&& d.subrange(5, 21) == digest
        }),
{
    let w = challenge_reply_wire(challenge, digest);
    let d = w.subrange(2, w.len() as int);
    assert(d =~= seq![TAG_REPLY] + wire::be32(challenge) + digest);
    assert(d.subrange(1, 5) =~= wire::be32(challenge));
    wire::lemma_read32_be32(challenge, d, 1);
    assert(d.subrange(5, 21) =~= digest);
}

/// A challenge acknowledgement decodes, after its 2-byte length prefix, to
/// the digest that was encoded.
pub proof fn lemma_challenge_ack_roundtrip(digest: Seq<u8>)
    requires
        digest.len() == 16,
    ensures
        ({
            let w = challenge_ack_wire(digest);
            let d = w.subrange(2, w.len() as int);
            &&& challenge_ack_decodes(d)
            &&& d.subrange(1, 17) == digest
        }),
{
    let w = challenge_ack_wire(digest);
    let d = w.subrange(2, w.len() as int);
    assert(d =~= seq![TAG_ACK] + digest);
    assert(d.subrange(1, 17) =~= digest);
}

/// The 2-byte prefix of every encoded handshake message is the length of the
/// rest of the message.
pub proof fn lemma_handshake_length_prefixes(
    flags: u64,
    challenge: u32,
    creation: u32,
    name: Seq<char>,
    digest: Seq<u8>,
)
    requires
        utf8::encode_utf8(name).len() <= 255,
        digest.len() == 16,
    ensures
        ({
            let b = utf8::encode_utf8(name);
            &&& wire::read16(send_name_wire(flags, creation, b), 0) == send_name_wire(
                flags,
                creation,
                b,
            ).len() - 2
            &&& wire::read16(send_name_old_wire(flags, b), 0) == send_name_old_wire(flags, b).len() - 2
            &&& wire::read16(challenge_wire(flags, challenge, creation, b), 0) == challenge_wire(
                flags,
                challenge,
                creation,
                b,
            ).len() - 2
            &&& wire::read16(challenge_reply_wire(challenge, digest), 0) == challenge_reply_wire(
                challenge,
                digest,
            ).len() - 2
            &&& wire::read16(challenge_ack_wire(digest), 0) == challenge_ack_wire(digest).len() - 2
        }),
{
    let b = utf8::encode_utf8(name);
    let w1 = send_name_wire(flags, creation, b);
    assert(w1.subrange(0, 2) =~= wire::be16((15 + b.len()) as u16));
    wire::lemma_read16_be16((15 + b.len()) as u16, w1, 0);
    let w2 = send_name_old_wire(flags, b);
    assert(w2.subrange(0, 2) =~= wire::be16((7 + b.len()) as u16));
    wire::lemma_read16_be16((7 + b.len()) as u16, w2, 0);
    let w3 = challenge_wire(flags, challenge, creation, b);
    assert(w3.subrange(0, 2) =~= wire::be16((19 + b.len()) as u16));
    wire::lemma_read16_be16((19 + b.len()) as u16, w3, 0);
    let w4 = challenge_reply_wire(challenge, digest);
    assert(w4.subrange(0, 2) =~= wire::be16(21));
    wire::lemma_read16_be16(21, w4, 0);
    let w5 = challenge_ack_wire(digest);
    assert(w5.subrange(0, 2) =~= wire::be16(17));
    wire::lemma_read16_be16(17, w5, 0);
}

} // verus!
