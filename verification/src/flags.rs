//! Distribution capability flags exchanged during the handshake (Erlang/OTP 26+).
use vstd::prelude::*;

verus! {

/// Distribution capability flags as a 64-bit mask.
///
/// The named flags are associated `u64` masks; `has`, `insert` and `remove`
/// take such masks.
#[derive(Debug, Clone, Copy, PartialEq, Eq, Structural)]
pub struct DistributionFlags {
    pub bits: u64,
}

/// `mask` holds every bit of `flag`.
pub open spec fn mask_contains(mask: u64, flag: u64) -> bool {
    mask & flag == flag
}

impl DistributionFlags {
    /// Published node (not hidden)
    pub const PUBLISHED: u64 = 0x01;
    /// Use atom cache in distribution messages
    pub const ATOM_CACHE: u64 = 0x02;
    /// Extended 3x32-bit references (mandatory in Erlang/OTP 26+)
    pub const EXTENDED_REFERENCES: u64 = 0x04;
    /// Distributed process monitoring support
    pub const DIST_MONITOR: u64 = 0x08;
    /// Separate function tags (mandatory in Erlang/OTP 26+)
    pub const FUN_TAGS: u64 = 0x10;
    /// Distributed named process monitoring
    pub const DIST_MONITOR_NAME: u64 = 0x20;
    /// Hidden atom cache
    pub const HIDDEN_ATOM_CACHE: u64 = 0x40;
    /// NEW_FUN_EXT understanding (mandatory in Erlang/OTP 26+)
    pub const NEW_FUN_TAGS: u64 = 0x80;
    /// Extended PID and port handling (mandatory in Erlang/OTP 26+)
    pub const EXTENDED_PIDS_PORTS: u64 = 0x100;
    /// EXPORT_EXT tag support (mandatory in Erlang/OTP 26+)
    pub const EXPORT_PTR_TAG: u64 = 0x200;
    /// BIT_BINARY_EXT tag support (mandatory in Erlang/OTP 26+)
    pub const BIT_BINARIES: u64 = 0x400;
    /// NEW_FLOAT_EXT understanding (mandatory in Erlang/OTP 26+)
    pub const NEW_FLOATS: u64 = 0x800;
    /// Distribution header with atom cache
    pub const DIST_HDR_ATOM_CACHE: u64 = 0x2000;
    /// Small atom tags support
    pub const SMALL_ATOM_TAGS: u64 = 0x4000;
    /// UTF-8 atom encoding (mandatory in Erlang/OTP 26+)
    pub const UTF8_ATOMS: u64 = 0x10000;
    /// MAP_EXT understanding (mandatory in Erlang/OTP 26+)
    pub const MAP_TAG: u64 = 0x20000;
    /// Large node creation identifiers (mandatory in Erlang/OTP 26+)
    pub const BIG_CREATION: u64 = 0x40000;
    /// Message fragmentation support
    pub const FRAGMENTS: u64 = 0x800_0000;
    /// Handshake version 6 support (mandatory in Erlang/OTP 26+)
    pub const HANDSHAKE_23: u64 = 0x0100_0000;
    /// New unlink protocol with IDs (mandatory in Erlang/OTP 26+)
    pub const UNLINK_ID: u64 = 0x0200_0000;
    /// Spawn operations support
    pub const SPAWN: u64 = 0x10_0000_0000;
    /// Node name in handshake is UTF-8
    pub const NAME_ME: u64 = 0x20_0000_0000;
    /// Version 4 node containers (mandatory in Erlang/OTP 26+)
    pub const V4_NC: u64 = 0x04_0000_0000;
    /// Process alias support
    pub const ALIAS: u64 = 0x800_0000_0000;
    /// All flags that an Erlang/OTP 26 or later peer requires.
    pub const MANDATORY_OTP26: u64 = 0x4_0307_0F94;
    /// Mandatory flags plus the commonly used optional features; a published node.
    pub const DEFAULT: u64 = 0x834_0B07_4FBD;
    /// Same as `DEFAULT` without `PUBLISHED`: a hidden node.
    pub const DEFAULT_HIDDEN: u64 = 0x834_0B07_4FBC;

    /// Flags with exactly the given bits (unknown bits are kept).
    pub fn new(flags: u64) -> (r: Self)
        ensures
            r.bits == flags,
    {
        DistributionFlags { bits: flags }
    }

    /// The default flags for OTP 26+ (a published node).
    pub fn default_otp26() -> (r: Self)
        ensures
            r.bits == Self::DEFAULT,
    {
        DistributionFlags { bits: Self::DEFAULT }
    }

    /// The default flags for a hidden OTP 26+ node.
    pub fn default_hidden() -> (r: Self)
        ensures
            r.bits == Self::DEFAULT_HIDDEN,
    {
        DistributionFlags { bits: Self::DEFAULT_HIDDEN }
    }

    /// Whether every bit of `flag` is set.
    pub fn has(&self, flag: u64) -> (r: bool)
        ensures
            r == mask_contains(self.bits, flag),
    {
        self.bits & flag == flag
    }

    /// Same as `has`.
    pub fn contains(&self, flag: u64) -> (r: bool)
        ensures
            r == mask_contains(self.bits, flag),
    {
        self.bits & flag == flag
    }

    /// Whether all mandatory OTP 26 flags are set.
    pub fn has_mandatory_otp26(&self) -> (r: bool)
        ensures
            r == mask_contains(self.bits, Self::MANDATORY_OTP26),
    {
        self.bits & Self::MANDATORY_OTP26 == Self::MANDATORY_OTP26
    }

    /// The raw mask.
    pub fn as_u64(&self) -> (r: u64)
        ensures
            r == self.bits,
    {
        self.bits
    }

    /// The raw mask.
    pub fn bits(&self) -> (r: u64)
        ensures
            r == self.bits,
    {
        self.bits
    }

    /// Sets every bit of `flag`.
    pub fn insert(&mut self, flag: u64)
        ensures
            final(self).bits == old(self).bits | flag,
    {
        self.bits = self.bits | flag;
    }

    /// Clears every bit of `flag`.
    pub fn remove(&mut self, flag: u64)
        ensures
            final(self).bits == old(self).bits & !flag,
    {
        self.bits = self.bits & !flag;
    }

    /// The bits set in both masks.
    pub fn intersection(&self, other: Self) -> (r: Self)
        ensures
            r.bits == self.bits & other.bits,
    {
        DistributionFlags { bits: self.bits & other.bits }
    }
}

impl Default for DistributionFlags {
    fn default() -> (r: Self)
        ensures
            r.bits == Self::DEFAULT,
    {
        Self::default_otp26()
    }
}

impl From<u64> for DistributionFlags {
    fn from(flags: u64) -> (r: Self) {
        DistributionFlags { bits: flags }
    }
}

impl vstd::std_specs::convert::FromSpecImpl<u64> for DistributionFlags {
    open spec fn obeys_from_spec() -> bool {
        true
    }

    open spec fn from_spec(v: u64) -> Self {
        DistributionFlags { bits: v }
    }
}

impl From<DistributionFlags> for u64 {
    fn from(flags: DistributionFlags) -> (r: u64) {
        flags.bits
    }
}

impl vstd::std_specs::convert::FromSpecImpl<DistributionFlags> for u64 {
    open spec fn obeys_from_spec() -> bool {
        true
    }

    open spec fn from_spec(v: DistributionFlags) -> u64 {
        v.bits
    }
}

/// The default flag set holds every mandatory OTP 26 flag, and so does the
/// hidden default; the hidden default is the default without `PUBLISHED`.
pub proof fn lemma_default_flag_sets()
    ensures
        mask_contains(DistributionFlags::DEFAULT, DistributionFlags::MANDATORY_OTP26),
        mask_contains(DistributionFlags::DEFAULT_HIDDEN, DistributionFlags::MANDATORY_OTP26),
        DistributionFlags::DEFAULT_HIDDEN == DistributionFlags::DEFAULT & !DistributionFlags::PUBLISHED,
        mask_contains(DistributionFlags::DEFAULT, DistributionFlags::PUBLISHED),
        !mask_contains(DistributionFlags::DEFAULT_HIDDEN, DistributionFlags::PUBLISHED),
{
    assert(0x834_0B07_4FBDu64 & 0x4_0307_0F94u64 == 0x4_0307_0F94u64) by (bit_vector);
    assert(0x834_0B07_4FBCu64 & 0x4_0307_0F94u64 == 0x4_0307_0F94u64) by (bit_vector);
    assert(0x834_0B07_4FBCu64 == 0x834_0B07_4FBDu64 & !0x01u64) by (bit_vector);
    assert(0x834_0B07_4FBDu64 & 0x01u64 == 0x01u64) by (bit_vector);
    assert(0x834_0B07_4FBCu64 & 0x01u64 != 0x01u64) by (bit_vector);
}

/// For a flag of one bit: `has` reports whether that bit is set; inserting
/// the flag makes `has` report it; removing it clears the bit.
pub proof fn lemma_insert_remove(mask: u64, flag: u64)
    requires
        flag != 0,
        flag & (flag - 1) as u64 == 0,
    ensures
        mask_contains(mask, flag) == (mask & flag != 0),
        mask_contains(mask | flag, flag),
        !mask_contains(mask & !flag, flag),
        (mask & !flag) & flag == 0,
{
    assert(flag != 0 && flag & (flag - 1) as u64 == 0 ==> ((mask & flag == flag) == (mask & flag
        != 0))) by (bit_vector);
    assert(mask_contains(mask | flag, flag)) by (bit_vector);
    assert(flag != 0 ==> (mask & !flag) & flag != flag) by (bit_vector);
    assert((mask & !flag) & flag == 0) by (bit_vector);
}

} // verus!
