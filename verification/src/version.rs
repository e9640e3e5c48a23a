//! The query wrapper: three output slots in, one ordered triple out.
//!
//! The version routine takes three locations and writes one 32-bit number
//! through each. A query hands it three zeroed slots and returns what it finds
//! in them afterwards.

use vstd::prelude::*;

verus! {

/// Major, minor and build number, in that order.
pub type VersionTriple = (u32, u32, u32);

/// The three locations that the version routine writes through.
#[derive(Clone, Copy, Debug, PartialEq, Eq, Structural)]
pub struct OutputSlots {
    pub major: u32,
    pub minor: u32,
    pub build: u32,
}

impl OutputSlots {
    /// The triple that these slots stand for.
    pub open spec fn spec_triple(&self) -> VersionTriple {
        (self.major, self.minor, self.build)
    }

    /// Fresh slots, every one of them zero, as they are handed to the routine.
    pub fn zeroed() -> (slots: Self)
        ensures
            slots.major == 0,
            slots.minor == 0,
            slots.build == 0,
    {
        OutputSlots { major: 0, minor: 0, build: 0 }
    }

    /// What the slots hold, as the triple `(major, minor, build)`.
    ///
    /// Nothing is validated, masked or narrowed on the way: each number of the
    /// triple is the full 32-bit value of its slot, whatever the routine wrote
    /// there, all zeros included.
    #[verifier::when_used_as_spec(spec_triple)]
    pub fn triple(&self) -> (version: VersionTriple)
        ensures
            version == self.spec_triple(),
    {
        (self.major, self.minor, self.build)
    }
}

/// Turning slots into a triple loses nothing: two sets of slots give the same
/// triple only if they hold the same three numbers.
pub proof fn lemma_triple_is_lossless(a: OutputSlots, b: OutputSlots)
    ensures
        a.triple() == b.triple() <==> a == b,
{
}

} // verus!
