//! The error type of the library.
use vstd::prelude::*;
use vstd::string::*;
use crate::state_machine::ConnectionState;
use crate::text;

verus! {

#[verifier::external_type_specification]
#[verifier::external_body]
pub struct ExIoError(std::io::Error);

#[verifier::external_type_specification]
#[verifier::external_body]
pub struct ExEncodeError(erltf::errors::EncodeError);

#[verifier::external_type_specification]
#[verifier::external_body]
pub struct ExDecodeError(erltf::errors::DecodeError);

#[verifier::external_type_specification]
#[verifier::external_body]
pub struct ExContextualDecodeError(erltf::errors::ContextualDecodeError);

#[verifier::external_type_specification]
#[verifier::external_body]
pub struct ExTermConversionError(erltf::errors::TermConversionError);

/// The library's kinds of I/O failure that callers distinguish.
#[derive(Debug, Clone, Copy, PartialEq, Eq, Structural)]
pub enum IoKind {
    UnexpectedEof,
    ConnectionReset,
    BrokenPipe,
    TimedOut,
    Other,
}

/// Tells apart the kinds of `std::io::Error` that the library acts on; every
/// other kind is reported as `IoKind::Other`. Nothing is claimed of the result.
#[verifier::external_body]
fn io_error_kind(e: &std::io::Error) -> (r: IoKind) {
    match e.kind() {
        std::io::ErrorKind::UnexpectedEof => IoKind::UnexpectedEof,
        std::io::ErrorKind::ConnectionReset => IoKind::ConnectionReset,
        std::io::ErrorKind::BrokenPipe => IoKind::BrokenPipe,
        std::io::ErrorKind::TimedOut => IoKind::TimedOut,
        _ => IoKind::Other,
    }
}

/// Errors of the distribution protocol client.
#[derive(Debug)]
pub enum Error {
    Io(std::io::Error),
    Timeout(std::time::Duration),
    ConnectionClosed,
    ConnectionRefused { reason: String },
    EpmdLookup { node: String, reason: String },
    EpmdRegistration { reason: String },
    EpmdProtocol(String),
    HandshakeFailed { reason: String },
    AuthenticationFailed,
    IncompatibleVersion { got: u16, expected: u16 },
    MissingMandatoryFlags { missing: Vec<String> },
    InvalidHandshakeMessage(String),
    InvalidControlMessage(String),
    MessageTooLarge { size: usize, max: usize },
    NodeNameTooLong { size: usize, max: usize },
    InvalidNodeName(String),
    InvalidAtom(String),
    Protocol(String),
    Encode(erltf::errors::EncodeError),
    Decode(erltf::errors::DecodeError),
    ContextualDecode(erltf::errors::ContextualDecodeError),
    TermConversion(erltf::errors::TermConversionError),
    UnexpectedEof { context: String },
    InvalidStateTransition { from: ConnectionState, to: ConnectionState },
    InvalidState { state: ConnectionState },
    InvalidStateMessage(String),
}

pub type Result<T> = core::result::Result<T, Error>;

impl Error {
    /// I/O failures, timeouts and unexpected end of input may succeed on retry.
    pub fn is_recoverable(&self) -> (r: bool)
        ensures
            r == (self is Io || self is Timeout || self is UnexpectedEof),
    {
        match self {
            Error::Io(_) | Error::Timeout(_) | Error::UnexpectedEof { .. } => true,
            _ => false,
        }
    }

    /// The peer closed the connection: an explicit close, an end of input, or
    /// an I/O error of kind unexpected EOF, connection reset or broken pipe.
    pub fn is_connection_closed(&self) -> (r: bool)
        ensures
            (self is ConnectionClosed || self is UnexpectedEof) ==> r,
            !(self is ConnectionClosed || self is UnexpectedEof || self is Io) ==> !r,
    {
        match self {
            Error::ConnectionClosed | Error::UnexpectedEof { .. } => true,
            Error::Io(e) => {
                let kind = io_error_kind(e);
                match kind {
                    IoKind::UnexpectedEof | IoKind::ConnectionReset | IoKind::BrokenPipe => true,
                    _ => false,
                }
            },
            _ => false,
        }
    }

    /// A timeout, or an I/O error of kind "timed out".
    pub fn is_timeout(&self) -> (r: bool)
        ensures
            self is Timeout ==> r,
            !(self is Timeout || self is Io) ==> !r,
    {
        match self {
            Error::Timeout(_) => true,
            Error::Io(e) => {
                let kind = io_error_kind(e);
                match kind {
                    IoKind::TimedOut => true,
                    _ => false,
                }
            },
            _ => false,
        }
    }
}

/// `Display` of an I/O error, through `format!`. Nothing is claimed of the
/// text.
#[verifier::external_body]
fn io_error_text(e: &std::io::Error) -> String {
    format!("{}", e)
}

/// `Debug` of a duration, through `format!`. Nothing is claimed of the text.
#[verifier::external_body]
fn duration_debug_text(d: &std::time::Duration) -> String {
    format!("{:?}", d)
}

/// `Debug` of a list of strings (quoted and escaped), through `format!`.
/// Nothing is claimed of the text.
#[verifier::external_body]
fn strings_debug_text(v: &Vec<String>) -> String {
    format!("{:?}", v)
}

/// `Display` of an `erltf` encode error. Nothing is claimed of the text.
#[verifier::external_body]
fn encode_error_text(e: &erltf::errors::EncodeError) -> String {
    format!("{}", e)
}

/// `Display` of an `erltf` decode error. Nothing is claimed of the text.
#[verifier::external_body]
fn decode_error_text(e: &erltf::errors::DecodeError) -> String {
    format!("{}", e)
}

/// `Display` of an `erltf` contextual decode error. Nothing is claimed of the
/// text.
#[verifier::external_body]
fn contextual_decode_error_text(e: &erltf::errors::ContextualDecodeError) -> String {
    format!("{}", e)
}

/// `Display` of an `erltf` term conversion error. Nothing is claimed of the
/// text.
#[verifier::external_body]
fn term_conversion_error_text(e: &erltf::errors::TermConversionError) -> String {
    format!("{}", e)
}

/// The decimal text of a count.
pub open spec fn dec(n: int) -> Seq<char> {
    text::signed_decimal_chars(n)
}

/// The message of an error whose text the library decides in full.
pub open spec fn error_text(e: Error) -> Option<Seq<char>> {
    match e {
        Error::ConnectionClosed => Some("Connection closed by peer"@),
        Error::ConnectionRefused { reason } => Some("Connection refused by peer: "@ + reason@),
        Error::EpmdLookup { node, reason } => Some(
            "EPMD lookup failed for node '"@ + node@ + "': "@ + reason@,
        ),
        Error::EpmdRegistration { reason } => Some("EPMD registration failed: "@ + reason@),
        Error::EpmdProtocol(s) => Some("EPMD protocol error: "@ + s@),
        Error::HandshakeFailed { reason } => Some("Handshake failed: "@ + reason@),
        Error::AuthenticationFailed => Some(
            "Authentication failed: challenge validation mismatch"@,
        ),
        Error::IncompatibleVersion { got, expected } => Some(
            "Incompatible protocol version: got "@ + dec(got as int) + ", expected "@ + dec(
                expected as int,
            ),
        ),
        Error::InvalidHandshakeMessage(s) => Some("Invalid handshake message: "@ + s@),
        Error::InvalidControlMessage(s) => Some("Invalid control message: "@ + s@),
        Error::MessageTooLarge { size, max } => Some(
            "Message too large: "@ + dec(size as int) + " bytes (max "@ + dec(max as int)
                + " bytes)"@,
        ),
        Error::NodeNameTooLong { size, max } => Some(
            "Node name too long: "@ + dec(size as int) + " bytes (max "@ + dec(max as int)
                + " bytes)"@,
        ),
        Error::InvalidNodeName(s) => Some("Invalid node name: "@ + s@),
        Error::InvalidAtom(s) => Some("Invalid atom: "@ + s@),
        Error::Protocol(s) => Some("Protocol error: "@ + s@),
        Error::UnexpectedEof { context } => Some("Unexpected EOF while reading "@ + context@),
        Error::InvalidStateTransition { from, to } => Some(
            "Invalid state transition: "@ + from.name() + " -> "@ + to.name(),
        ),
        Error::InvalidState { state } => Some(
            "Operation not supported in current state: "@ + state.name(),
        ),
        Error::InvalidStateMessage(s) => Some(s@),
        _ => None,
    }
}

/// The fixed start of the message of an error whose text ends with that of
/// an outside value.
pub open spec fn error_prefix(e: Error) -> Seq<char> {
    match e {
        Error::Io(_) => "I/O error: "@,
        Error::Timeout(_) => "Connection timeout after "@,
        Error::MissingMandatoryFlags { .. } => "Missing mandatory capability flags: "@,
        Error::Encode(_) => "Encode error: "@,
        Error::Decode(_) => "Decode error: "@,
        Error::ContextualDecode(_) => "Contextual decode error: "@,
        Error::TermConversion(_) => "Term conversion error: "@,
        _ => Seq::empty(),
    }
}

fn prefixed(prefix: &str, rest: &str) -> (r: String)
    ensures
        r@ == prefix@ + rest@,
{
    let mut s = String::from_str(prefix);
    s.append(rest);
    s
}

impl Error {
    /// The message of the error.
    pub fn to_string(&self) -> (r: String)
        ensures
            match error_text(*self) {
                Some(t) => r@ == t,
                None => r@.len() >= error_prefix(*self).len() && r@.subrange(
                    0,
                    error_prefix(*self).len() as int,
                ) == error_prefix(*self),
            },
    {
        let r = match self {
            Error::Io(e) => prefixed("I/O error: ", io_error_text(e).as_str()),
            Error::Timeout(d) => prefixed("Connection timeout after ", duration_debug_text(d).as_str()),
            Error::ConnectionClosed => String::from_str("Connection closed by peer"),
            Error::ConnectionRefused { reason } => prefixed("Connection refused by peer: ", reason.as_str()),
            Error::EpmdLookup { node, reason } => {
                let mut s = prefixed("EPMD lookup failed for node '", node.as_str());
                s.append("': ");
                s.append(reason.as_str());
                s
            },
            Error::EpmdRegistration { reason } => prefixed("EPMD registration failed: ", reason.as_str()),
            Error::EpmdProtocol(m) => prefixed("EPMD protocol error: ", m.as_str()),
            Error::HandshakeFailed { reason } => prefixed("Handshake failed: ", reason.as_str()),
            Error::AuthenticationFailed => String::from_str(
                "Authentication failed: challenge validation mismatch",
            ),
            Error::IncompatibleVersion { got, expected } => text::text_with_two_numbers(
                "Incompatible protocol version: got ",
                *got as i128,
                ", expected ",
                *expected as i128,
            ),
            Error::MissingMandatoryFlags { missing } => prefixed(
                "Missing mandatory capability flags: ",
                strings_debug_text(missing).as_str(),
            ),
            Error::InvalidHandshakeMessage(m) => prefixed("Invalid handshake message: ", m.as_str()),
            Error::InvalidControlMessage(m) => prefixed("Invalid control message: ", m.as_str()),
            Error::MessageTooLarge { size, max } => {
                let mut s = text::text_with_two_numbers(
                    "Message too large: ",
                    *size as i128,
                    " bytes (max ",
                    *max as i128,
                );
                s.append(" bytes)");
                s
            },
            Error::NodeNameTooLong { size, max } => {
                let mut s = text::text_with_two_numbers(
                    "Node name too long: ",
                    *size as i128,
                    " bytes (max ",
                    *max as i128,
                );
                s.append(" bytes)");
                s
            },
            Error::InvalidNodeName(m) => prefixed("Invalid node name: ", m.as_str()),
            Error::InvalidAtom(m) => prefixed("Invalid atom: ", m.as_str()),
            Error::Protocol(m) => prefixed("Protocol error: ", m.as_str()),
            Error::Encode(e) => prefixed("Encode error: ", encode_error_text(e).as_str()),
            Error::Decode(e) => prefixed("Decode error: ", decode_error_text(e).as_str()),
            Error::ContextualDecode(e) => prefixed(
                "Contextual decode error: ",
                contextual_decode_error_text(e).as_str(),
            ),
            Error::TermConversion(e) => prefixed(
                "Term conversion error: ",
                term_conversion_error_text(e).as_str(),
            ),
            Error::UnexpectedEof { context } => prefixed("Unexpected EOF while reading ", context.as_str()),
            Error::InvalidStateTransition { from, to } => {
                let mut s = prefixed("Invalid state transition: ", from.as_str());
                s.append(" -> ");
                s.append(to.as_str());
                s
            },
            Error::InvalidState { state } => prefixed(
                "Operation not supported in current state: ",
                state.as_str(),
            ),
            Error::InvalidStateMessage(m) => m.clone(),
        };
        assert(match error_text(*self) {
            Some(t) => r@ =~= t,
            None => r@.subrange(0, error_prefix(*self).len() as int) =~= error_prefix(*self),
        });
        r
    }
}

} // verus!
