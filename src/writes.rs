use vstd::prelude::*;

use crate::protocol::ProtocolVersionId;
use crate::sizes::{
    BYTES_PER_DERIVED_KEY, BYTES_PER_ENUMERATION_INDEX, INITIAL_STORAGE_WRITE_SIZE,
    REPEATED_STORAGE_WRITE_SIZE,
};
use crate::tx_metrics::TransactionExecutionMetrics;

verus! {

/// Counts and sizes of the storage writes left after deduplication.
#[derive(Debug, Clone, Copy, PartialEq, Eq, Structural)]
pub struct DeduplicatedWritesMetrics {
    /// The number of initial storage writes.
    pub initial_storage_writes: usize,
    /// The number of repeated storage writes.
    pub repeated_storage_writes: usize,
    /// The total number of bytes of the values that the writes set.
    pub total_updated_values_size: usize,
}

impl DeduplicatedWritesMetrics {
    /// The write counts that a raw record carries.
    pub open spec fn spec_from_tx_metrics(tx_metrics: TransactionExecutionMetrics) -> Self {
        DeduplicatedWritesMetrics {
            initial_storage_writes: tx_metrics.initial_storage_writes,
            repeated_storage_writes: tx_metrics.repeated_storage_writes,
            total_updated_values_size: tx_metrics.total_updated_values_size,
        }
    }

    /// Bytes needed to publish these writes under `protocol_version`: from the
    /// compact-writes cutover on, the values plus a derived key per initial
    /// write and an enumeration index per repeated write; before it, a fixed
    /// record per write.
    pub open spec fn spec_size(self, protocol_version: ProtocolVersionId) -> int {
        if protocol_version.spec_uses_compact_writes() {
            self.total_updated_values_size + BYTES_PER_DERIVED_KEY * self.initial_storage_writes
                + BYTES_PER_ENUMERATION_INDEX * self.repeated_storage_writes
        } else {
            self.initial_storage_writes * INITIAL_STORAGE_WRITE_SIZE
                + self.repeated_storage_writes * REPEATED_STORAGE_WRITE_SIZE
        }
    }

    pub fn from_tx_metrics(tx_metrics: &TransactionExecutionMetrics) -> (r: Self)
        ensures
            r == Self::spec_from_tx_metrics(*tx_metrics),
            r.initial_storage_writes == tx_metrics.initial_storage_writes,
            r.repeated_storage_writes == tx_metrics.repeated_storage_writes,
            r.total_updated_values_size == tx_metrics.total_updated_values_size,
    {
        DeduplicatedWritesMetrics {
            initial_storage_writes: tx_metrics.initial_storage_writes,
            repeated_storage_writes: tx_metrics.repeated_storage_writes,
            total_updated_values_size: tx_metrics.total_updated_values_size,
        }
    }

    pub fn size(&self, protocol_version: ProtocolVersionId) -> (r: usize)
        requires
            self.spec_size(protocol_version) <= usize::MAX,
        ensures
            r == self.spec_size(protocol_version),
    {
        if protocol_version.uses_compact_writes() {
            self.total_updated_values_size + BYTES_PER_DERIVED_KEY * self.initial_storage_writes
                + BYTES_PER_ENUMERATION_INDEX * self.repeated_storage_writes
        } else {
            self.initial_storage_writes * INITIAL_STORAGE_WRITE_SIZE
                + self.repeated_storage_writes * REPEATED_STORAGE_WRITE_SIZE
        }
    }
}

impl Default for DeduplicatedWritesMetrics {
    /// No writes at all.
    fn default() -> (r: Self)
        ensures
            r.initial_storage_writes == 0,
            r.repeated_storage_writes == 0,
            r.total_updated_values_size == 0,
    {
        DeduplicatedWritesMetrics {
            initial_storage_writes: 0,
            repeated_storage_writes: 0,
            total_updated_values_size: 0,
        }
    }
}

/// Projecting a raw record depends on its three write fields and on nothing
/// else: two records give the same result exactly when those fields agree, so
/// projecting one record twice gives identical values.
pub proof fn lemma_writes_projection_deterministic(
    a: TransactionExecutionMetrics,
    b: TransactionExecutionMetrics,
)
    ensures
        DeduplicatedWritesMetrics::spec_from_tx_metrics(a)
            == DeduplicatedWritesMetrics::spec_from_tx_metrics(b) <==> (a.initial_storage_writes
            == b.initial_storage_writes && a.repeated_storage_writes == b.repeated_storage_writes
            && a.total_updated_values_size == b.total_updated_values_size),
        a == b ==> DeduplicatedWritesMetrics::spec_from_tx_metrics(a)
            == DeduplicatedWritesMetrics::spec_from_tx_metrics(b),
{
}

} // verus!
