//! Resource accounting for executed transactions: per-transaction execution
//! logs, the execution status, the cost of publishing deduplicated storage
//! writes, and the additive execution-metrics record summed over a batch.

pub mod metrics;
pub mod protocol;
pub mod records;
pub mod sizes;
pub mod status;
pub mod tx_metrics;
pub mod writes;

pub use metrics::ExecutionMetrics;
pub use protocol::{ProtocolVersionId, COMPACT_WRITES_VERSION};
pub use records::{L2ToL1Log, StorageLogQuery, VmEvent, VmExecutionLogs};
pub use sizes::{
    BYTES_PER_DERIVED_KEY, BYTES_PER_ENUMERATION_INDEX, INITIAL_STORAGE_WRITE_SIZE,
    L2_TO_L1_LOG_SIZE, REPEATED_STORAGE_WRITE_SIZE,
};
pub use status::TxExecutionStatus;
pub use tx_metrics::TransactionExecutionMetrics;
pub use writes::DeduplicatedWritesMetrics;
