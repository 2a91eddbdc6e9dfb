//! Small identifier newtypes used across the protocol.
use vstd::prelude::*;

verus! {

/// The duration of `secs` whole seconds, as `std::time::Duration::from_secs`
/// makes it.
pub uninterp spec fn secs_duration(secs: u64) -> std::time::Duration;

/// `std::time::Duration::from_secs`, which depends on `secs` alone; its result
/// is named `secs_duration`.
#[verifier::external_body]
pub(crate) fn duration_from_secs(secs: u64) -> (r: std::time::Duration)
    ensures
        r == secs_duration(secs),
{
    std::time::Duration::from_secs(secs)
}

/// A node incarnation number ("creation").
#[derive(Debug, Clone, Copy, PartialEq, Eq, Hash, Structural)]
pub struct Creation(pub u32);

impl Creation {
    pub fn new(value: u32) -> (r: Self)
        ensures
            r.0 == value,
    {
        Creation(value)
    }

    pub fn get(&self) -> (r: u32)
        ensures
            r == self.0,
    {
        self.0
    }
}

impl Default for Creation {
    fn default() -> (r: Self)
        ensures
            r.0 == 0,
    {
        Creation(0)
    }
}

impl From<u32> for Creation {
    fn from(value: u32) -> (r: Self) {
        Creation(value)
    }
}

impl vstd::std_specs::convert::FromSpecImpl<u32> for Creation {
    open spec fn obeys_from_spec() -> bool {
        true
    }

    open spec fn from_spec(v: u32) -> Self {
        Creation(v)
    }
}

/// Identifies one fragmented message on a connection.
#[derive(Debug, Clone, Copy, PartialEq, Eq, Hash, Structural)]
pub struct SequenceId(pub u64);

impl From<u64> for SequenceId {
    fn from(value: u64) -> (r: Self) {
        SequenceId(value)
    }
}

impl vstd::std_specs::convert::FromSpecImpl<u64> for SequenceId {
    open spec fn obeys_from_spec() -> bool {
        true
    }

    open spec fn from_spec(v: u64) -> Self {
        SequenceId(v)
    }
}

} // verus!
