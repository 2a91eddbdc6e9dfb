//! Length-prefixed message framing (2-byte prefixes during the handshake,
//! 4-byte prefixes afterwards).
use vstd::prelude::*;
use crate::wire::{self, copy_range, get_u16, get_u32, put_slice, put_u16, put_u32};

verus! {

/// Largest message a deframer accepts: 256 MiB.
pub const MAX_MESSAGE_SIZE: usize = 268_435_456;

/// Which length prefix frames carry.
#[derive(Debug, Clone, Copy, PartialEq, Eq, Structural)]
pub enum FrameMode {
    Handshake,
    Distribution,
}

impl FrameMode {
    /// The prefix size in bytes.
    pub open spec fn prefix_size(self) -> nat {
        match self {
            FrameMode::Handshake => 2,
            FrameMode::Distribution => 4,
        }
    }

    pub fn length_prefix_size(&self) -> (r: usize)
        ensures
            r == self.prefix_size(),
    {
        match self {
            FrameMode::Handshake => 2,
            FrameMode::Distribution => 4,
        }
    }
}

/// The frame of `data`: its length (truncated to the prefix width) followed
/// by the data.
pub open spec fn frame_bytes(mode: FrameMode, data: Seq<u8>) -> Seq<u8> {
    match mode {
        FrameMode::Handshake => wire::be16(data.len() as u16) + data,
        FrameMode::Distribution => wire::be32(data.len() as u32) + data,
    }
}

/// The length announced by a prefix at the start of `buf`.
pub open spec fn announced_length(mode: FrameMode, buf: Seq<u8>) -> nat {
    match mode {
        FrameMode::Handshake => wire::read16(buf, 0) as nat,
        FrameMode::Distribution => wire::read32(buf, 0) as nat,
    }
}

/// Writes frames.
pub struct MessageFramer {
    pub mode: FrameMode,
}

impl MessageFramer {
    pub fn new(mode: FrameMode) -> (r: Self)
        ensures
            r.mode == mode,
    {
        MessageFramer { mode }
    }

    pub fn set_mode(&mut self, mode: FrameMode)
        ensures
            final(self).mode == mode,
    {
        self.mode = mode;
    }

    /// The length prefix followed by `data`.
    pub fn frame_message(&self, data: &[u8]) -> (r: Vec<u8>)
        ensures
            r@ == frame_bytes(self.mode, data@),
    {
        let mut buf: Vec<u8> = Vec::new();
        match self.mode {
            FrameMode::Handshake => put_u16(&mut buf, data.len() as u16),
            FrameMode::Distribution => put_u32(&mut buf, data.len() as u32),
        }
        put_slice(&mut buf, data);
        buf
    }
}

/// What a length prefix announces.
#[derive(Debug, Clone, Copy, PartialEq, Eq, Structural)]
pub enum FrameLength {
    /// A zero-length frame (a heartbeat tick).
    Tick,
    /// A frame of this many payload bytes.
    Payload(usize),
    /// A frame longer than `MAX_MESSAGE_SIZE`.
    TooLarge(usize),
}

/// The outcome of reading one frame from the start of a buffer.
#[derive(Debug, Clone, PartialEq, Eq)]
pub enum FrameParse {
    /// More bytes are needed.
    Incomplete,
    /// The announced length is over `MAX_MESSAGE_SIZE`.
    TooLarge(usize),
    /// A whole frame: its payload and the bytes it took, prefix included.
    Complete { payload: Vec<u8>, consumed: usize },
}

/// Reads frames.
pub struct MessageDeframer {
    pub mode: FrameMode,
}

/// Classification of an announced length.
pub open spec fn classify_length(len: nat) -> FrameLength {
    if len == 0 {
        FrameLength::Tick
    } else if len > MAX_MESSAGE_SIZE {
        FrameLength::TooLarge(len as usize)
    } else {
        FrameLength::Payload(len as usize)
    }
}

impl MessageDeframer {
    pub fn new(mode: FrameMode) -> (r: Self)
        ensures
            r.mode == mode,
    {
        MessageDeframer { mode }
    }

    pub fn set_mode(&mut self, mode: FrameMode)
        ensures
            final(self).mode == mode,
    {
        self.mode = mode;
    }

    /// Reads the announced length from a prefix and classifies it.
    pub fn frame_length(&self, prefix: &[u8]) -> (r: FrameLength)
        requires
            prefix@.len() >= self.mode.prefix_size(),
        ensures
            r == classify_length(announced_length(self.mode, prefix@)),
    {
        let len: usize = match self.mode {
            FrameMode::Handshake => get_u16(prefix, 0) as usize,
            FrameMode::Distribution => get_u32(prefix, 0) as usize,
        };
        if len == 0 {
            FrameLength::Tick
        } else if len > MAX_MESSAGE_SIZE {
            FrameLength::TooLarge(len)
        } else {
            FrameLength::Payload(len)
        }
    }

    /// Reads one frame from the start of `buf`. A zero-length frame is a
    /// complete frame with an empty payload.
    pub fn parse_frame(&self, buf: &[u8]) -> (r: FrameParse)
        ensures
            ({
                let p = self.mode.prefix_size();
                match r {
                    FrameParse::Incomplete => buf@.len() < p || (announced_length(self.mode, buf@)
                        <= MAX_MESSAGE_SIZE && buf@.len() < p + announced_length(self.mode, buf@)),
                    FrameParse::TooLarge(n) => buf@.len() >= p && n == announced_length(
                        self.mode,
                        buf@,
                    ) && n > MAX_MESSAGE_SIZE,
                    FrameParse::Complete { payload, consumed } => {
                        &&& buf@.len() >= p
                        &&& announced_length(self.mode, buf@) <= MAX_MESSAGE_SIZE
                        &&& consumed == p + announced_length(self.mode, buf@)
                        &&& consumed <= buf@.len()
                        &&& payload@ == buf@.subrange(p as int, consumed as int)
                    },
                }
            }),
    {
        let p = self.mode.length_prefix_size();
        if buf.len() < p {
            return FrameParse::Incomplete;
        }
        let len: usize = match self.mode {
            FrameMode::Handshake => get_u16(buf, 0) as usize,
            FrameMode::Distribution => get_u32(buf, 0) as usize,
        };
        if len > MAX_MESSAGE_SIZE {
            return FrameParse::TooLarge(len);
        }
        if buf.len() - p < len {
            return FrameParse::Incomplete;
        }
        let payload = copy_range(buf, p, p + len);
        FrameParse::Complete { payload, consumed: p + len }
    }
}

/// Reading back a frame that was written in the same mode gives the data
/// that was framed, provided the length fits in the prefix and is within the
/// deframer's limit.
pub proof fn lemma_frame_roundtrip(mode: FrameMode, data: Seq<u8>)
    requires
        data.len() <= MAX_MESSAGE_SIZE,
        mode == FrameMode::Handshake ==> data.len() <= 0xffff,
    ensures
        ({
            let f = frame_bytes(mode, data);
            &&& announced_length(mode, f) == data.len()
            &&& f.len() == mode.prefix_size() + data.len()
            &&& f.subrange(mode.prefix_size() as int, f.len() as int) == data
        }),
{
    let f = frame_bytes(mode, data);
    match mode {
        FrameMode::Handshake => {
            assert(f.subrange(0, 2) =~= wire::be16(data.len() as u16));
            wire::lemma_read16_be16(data.len() as u16, f, 0);
            assert(f.subrange(2, f.len() as int) =~= data);
        },
        FrameMode::Distribution => {
            assert(f.subrange(0, 4) =~= wire::be32(data.len() as u32));
            wire::lemma_read32_be32(data.len() as u32, f, 0);
            assert(f.subrange(4, f.len() as int) =~= data);
        },
    }
}

} // verus!
