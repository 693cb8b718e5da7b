use vstd::prelude::*;

verus! {

/// The first protocol version that publishes repeated storage writes by
/// enumeration index and initial ones by derived key plus value.
pub const COMPACT_WRITES_VERSION: u16 = 17;

/// A protocol version, ordered by its number.
#[derive(Debug, Clone, Copy, PartialEq, Eq, Structural, PartialOrd, Ord, Hash)]
pub struct ProtocolVersionId(pub u16);

impl ProtocolVersionId {
    /// Whether storage writes are published in the compact encoding.
    pub open spec fn spec_uses_compact_writes(self) -> bool {
        self.0 >= COMPACT_WRITES_VERSION
    }

    /// Whether this version is at or past the compact-writes cutover.
    pub fn uses_compact_writes(&self) -> (r: bool)
        ensures
            r == self.spec_uses_compact_writes(),
    {
        self.0 >= COMPACT_WRITES_VERSION
    }
}

} // verus!
