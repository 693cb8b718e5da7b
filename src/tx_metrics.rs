use vstd::prelude::*;

verus! {

/// The raw metrics that the execution layer records for one transaction.
#[derive(Debug, Clone, Copy, Default, PartialEq, Eq, Structural)]
pub struct TransactionExecutionMetrics {
    pub initial_storage_writes: usize,
    pub repeated_storage_writes: usize,
    pub total_updated_values_size: usize,
    pub gas_used: usize,
    pub published_bytecode_bytes: usize,
    pub l2_l1_long_messages: usize,
    pub l2_l1_logs: usize,
    pub contracts_used: usize,
    pub contracts_deployed: u16,
    pub vm_events: usize,
    pub storage_logs: usize,
    pub total_log_queries: usize,
    pub cycles_used: u32,
    pub computational_gas_used: u32,
}

} // verus!
