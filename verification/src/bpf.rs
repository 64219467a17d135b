//! Plain values exchanged with the BPF loader.
use vstd::prelude::*;

verus! {

/// Flags for writing an element of a BPF map.
#[derive(Clone, Copy, Debug, PartialEq, Eq)]
pub enum UpdateMapElemFlags {
    /// Create a new element or update an existing one.
    Upsert,
    /// Insert the element if and only if it does not already exist.
    Insert,
    /// Update the element if and only if it already exists.
    Update,
}

impl UpdateMapElemFlags {
    /// The value the kernel expects for the flag (`BPF_ANY`, `BPF_NOEXIST`, `BPF_EXIST`).
    pub open spec fn spec_bits(self) -> u64 {
        match self {
            UpdateMapElemFlags::Upsert => 0,
            UpdateMapElemFlags::Insert => 1,
            UpdateMapElemFlags::Update => 2,
        }
    }

    /// The value the kernel expects for the flag (`BPF_ANY`, `BPF_NOEXIST`, `BPF_EXIST`).
    pub fn bits(self) -> (r: u64)
        ensures
            r == self.spec_bits(),
    {
        match self {
            UpdateMapElemFlags::Upsert => 0,
            UpdateMapElemFlags::Insert => 1,
            UpdateMapElemFlags::Update => 2,
        }
    }
}

/// Distinct flags have distinct kernel values.
pub proof fn lemma_flag_bits_distinct(a: UpdateMapElemFlags, b: UpdateMapElemFlags)
    ensures
        a.spec_bits() == b.spec_bits() <==> a == b,
{
}

} // verus!
