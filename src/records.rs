use vstd::prelude::*;

verus! {

/// One storage access made by the virtual machine.
#[derive(Debug, Clone, Copy, Default, PartialEq, Eq)]
pub struct StorageLogQuery {
    pub tx_number_in_block: u16,
    pub address: [u8; 20],
    pub key: [u8; 32],
    pub read_value: [u8; 32],
    pub written_value: [u8; 32],
    pub is_write: bool,
    pub rollback: bool,
}

/// An event emitted by a contract.
#[derive(Debug, Clone, Default, PartialEq, Eq)]
pub struct VmEvent {
    pub tx_number_in_block: u16,
    pub address: [u8; 20],
    pub indexed_topics: Vec<[u8; 32]>,
    pub value: Vec<u8>,
}

/// A log sent from L2 to L1.
#[derive(Debug, Clone, Copy, Default, PartialEq, Eq)]
pub struct L2ToL1Log {
    pub shard_id: u8,
    pub is_service: bool,
    pub tx_number_in_block: u16,
    pub sender: [u8; 20],
    pub key: [u8; 32],
    pub value: [u8; 32],
}

/// Events, storage logs and L2 to L1 logs created within one transaction's
/// execution. `total_log_queries_count` is kept only for compatibility of the
/// stored form: it is set by whoever builds the value and is not derived from
/// the lengths of the three sequences.
#[derive(Debug, Clone, Default, PartialEq)]
pub struct VmExecutionLogs {
    pub storage_logs: Vec<StorageLogQuery>,
    pub events: Vec<VmEvent>,
    pub l2_to_l1_logs: Vec<L2ToL1Log>,
    pub total_log_queries_count: usize,
}

} // verus!
