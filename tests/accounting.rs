use exec_metrics::{
    DeduplicatedWritesMetrics, ExecutionMetrics, L2ToL1Log, ProtocolVersionId, StorageLogQuery,
    TransactionExecutionMetrics, TxExecutionStatus, VmEvent, VmExecutionLogs,
    BYTES_PER_DERIVED_KEY, BYTES_PER_ENUMERATION_INDEX, COMPACT_WRITES_VERSION,
    INITIAL_STORAGE_WRITE_SIZE, L2_TO_L1_LOG_SIZE, REPEATED_STORAGE_WRITE_SIZE,
};

fn raw_sample() -> TransactionExecutionMetrics {
    TransactionExecutionMetrics {
        initial_storage_writes: 2,
        repeated_storage_writes: 3,
        total_updated_values_size: 100,
        gas_used: 21_000,
        published_bytecode_bytes: 500,
        l2_l1_long_messages: 10,
        l2_l1_logs: 4,
        contracts_used: 7,
        contracts_deployed: 1,
        vm_events: 5,
        storage_logs: 12,
        total_log_queries: 30,
        cycles_used: 4_000,
        computational_gas_used: 9_000,
    }
}

fn metrics(seed: usize) -> ExecutionMetrics {
    ExecutionMetrics {
        gas_used: 1000 + seed,
        published_bytecode_bytes: 10 + seed,
        l2_l1_long_messages: 20 + seed,
        l2_l1_logs: 1 + seed,
        contracts_used: 2 + seed,
        contracts_deployed: (3 + seed) as u16,
        vm_events: 4 + seed,
        storage_logs: 5 + seed,
        total_log_queries: 6 + seed,
        cycles_used: (700 + seed) as u32,
        computational_gas_used: (800 + seed) as u32,
    }
}

#[test]
fn status_from_has_failed() {
    assert_eq!(TxExecutionStatus::from_has_failed(true), TxExecutionStatus::Failure);
    assert_eq!(TxExecutionStatus::from_has_failed(false), TxExecutionStatus::Success);
}

#[test]
fn size_constants() {
    assert_eq!(BYTES_PER_DERIVED_KEY, 32);
    assert_eq!(BYTES_PER_ENUMERATION_INDEX, 8);
    assert_eq!(INITIAL_STORAGE_WRITE_SIZE, 64);
    assert_eq!(REPEATED_STORAGE_WRITE_SIZE, 40);
    assert_eq!(L2_TO_L1_LOG_SIZE, 88);
    assert_eq!(COMPACT_WRITES_VERSION, 17);
}

#[test]
fn writes_size_at_and_after_cutover() {
    let w = DeduplicatedWritesMetrics {
        initial_storage_writes: 2,
        repeated_storage_writes: 3,
        total_updated_values_size: 100,
    };
    assert_eq!(w.size(ProtocolVersionId(17)), 188);
    assert_eq!(w.size(ProtocolVersionId(18)), 188);
    assert_eq!(w.size(ProtocolVersionId(u16::MAX)), 188);
}

#[test]
fn writes_size_before_cutover() {
    let w = DeduplicatedWritesMetrics {
        initial_storage_writes: 2,
        repeated_storage_writes: 3,
        total_updated_values_size: 100,
    };
    assert_eq!(w.size(ProtocolVersionId(16)), 248);
    assert_eq!(w.size(ProtocolVersionId(0)), 248);
}

#[test]
fn version_cutover_comparison() {
    assert!(!ProtocolVersionId(16).uses_compact_writes());
    assert!(ProtocolVersionId(17).uses_compact_writes());
    assert!(ProtocolVersionId(16) < ProtocolVersionId(17));
}

#[test]
fn writes_size_of_nothing_is_zero() {
    let w = DeduplicatedWritesMetrics::default();
    assert_eq!(w.size(ProtocolVersionId(17)), 0);
    assert_eq!(w.size(ProtocolVersionId(16)), 0);
}

#[test]
fn writes_size_counts_values_only_in_compact_encoding() {
    let w = DeduplicatedWritesMetrics {
        initial_storage_writes: 0,
        repeated_storage_writes: 0,
        total_updated_values_size: 77,
    };
    assert_eq!(w.size(ProtocolVersionId(17)), 77);
    assert_eq!(w.size(ProtocolVersionId(16)), 0);
}

#[test]
fn writes_projection_copies_fields() {
    let raw = raw_sample();
    let w = DeduplicatedWritesMetrics::from_tx_metrics(&raw);
    assert_eq!(w.initial_storage_writes, 2);
    assert_eq!(w.repeated_storage_writes, 3);
    assert_eq!(w.total_updated_values_size, 100);
}

#[test]
fn metrics_projection_copies_fields() {
    let raw = raw_sample();
    let m = ExecutionMetrics::from_tx_metrics(&raw);
    assert_eq!(m.gas_used, 21_000);
    assert_eq!(m.published_bytecode_bytes, 500);
    assert_eq!(m.l2_l1_long_messages, 10);
    assert_eq!(m.l2_l1_logs, 4);
    assert_eq!(m.contracts_used, 7);
    assert_eq!(m.contracts_deployed, 1);
    assert_eq!(m.vm_events, 5);
    assert_eq!(m.storage_logs, 12);
    assert_eq!(m.total_log_queries, 30);
    assert_eq!(m.cycles_used, 4_000);
    assert_eq!(m.computational_gas_used, 9_000);
}

#[test]
fn projection_twice_is_identical() {
    let raw = raw_sample();
    assert_eq!(ExecutionMetrics::from_tx_metrics(&raw), ExecutionMetrics::from_tx_metrics(&raw));
    assert_eq!(
        DeduplicatedWritesMetrics::from_tx_metrics(&raw),
        DeduplicatedWritesMetrics::from_tx_metrics(&raw)
    );
}

#[test]
fn metrics_size_formula() {
    let m = ExecutionMetrics {
        l2_l1_logs: 4,
        l2_l1_long_messages: 10,
        published_bytecode_bytes: 500,
        ..ExecutionMetrics::default()
    };
    assert_eq!(m.size(), 862);
}

#[test]
fn metrics_size_ignores_other_counters() {
    let raw = raw_sample();
    let m = ExecutionMetrics::from_tx_metrics(&raw);
    assert_eq!(m.size(), 862);
    assert_eq!(ExecutionMetrics::default().size(), 0);
}

#[test]
fn addition_is_field_wise() {
    let s = metrics(0) + metrics(1);
    assert_eq!(s.gas_used, 2001);
    assert_eq!(s.published_bytecode_bytes, 21);
    assert_eq!(s.l2_l1_long_messages, 41);
    assert_eq!(s.l2_l1_logs, 3);
    assert_eq!(s.contracts_used, 5);
    assert_eq!(s.contracts_deployed, 7);
    assert_eq!(s.vm_events, 9);
    assert_eq!(s.storage_logs, 11);
    assert_eq!(s.total_log_queries, 13);
    assert_eq!(s.cycles_used, 1401);
    assert_eq!(s.computational_gas_used, 1601);
}

#[test]
fn addition_is_associative_and_commutative() {
    let (a, b, c) = (metrics(3), metrics(50), metrics(900));
    assert_eq!((a + b) + c, a + (b + c));
    assert_eq!(a + b, b + a);
}

#[test]
fn zero_is_identity() {
    let a = metrics(42);
    let zero = ExecutionMetrics::default();
    assert_eq!(a + zero, a);
    assert_eq!(zero + a, a);
}

#[test]
fn add_assign_matches_add() {
    let mut total = ExecutionMetrics::default();
    for i in 0..5 {
        total += metrics(i);
    }
    let folded = metrics(0) + metrics(1) + metrics(2) + metrics(3) + metrics(4);
    assert_eq!(total, folded);
    assert_eq!(total.gas_used, 5010);
}

#[test]
fn addition_saturates_instead_of_wrapping() {
    let mut a = metrics(0);
    a.gas_used = usize::MAX - 1;
    a.contracts_deployed = u16::MAX;
    a.cycles_used = u32::MAX - 100;
    let s = a + metrics(0);
    assert_eq!(s.gas_used, usize::MAX);
    assert_eq!(s.contracts_deployed, u16::MAX);
    assert_eq!(s.cycles_used, u32::MAX);
    assert_eq!(s.vm_events, 8);
}

#[test]
fn checked_add_gives_exact_sum() {
    let a = metrics(1);
    let b = metrics(2);
    assert_eq!(a.checked_add(&b), Some(a + b));
}

#[test]
fn checked_add_reports_usize_overflow() {
    let mut a = metrics(0);
    a.total_log_queries = usize::MAX;
    assert_eq!(a.checked_add(&metrics(0)), None);
}

#[test]
fn checked_add_reports_narrow_counter_overflow() {
    let mut a = metrics(0);
    a.contracts_deployed = u16::MAX - 2;
    assert_eq!(a.checked_add(&metrics(0)), None);
    let mut b = metrics(0);
    b.computational_gas_used = u32::MAX;
    assert_eq!(b.checked_add(&metrics(0)), None);
}

#[test]
fn checked_add_at_exact_limit() {
    let mut a = ExecutionMetrics::default();
    a.cycles_used = u32::MAX - 5;
    let mut b = ExecutionMetrics::default();
    b.cycles_used = 5;
    assert_eq!(a.checked_add(&b).map(|m| m.cycles_used), Some(u32::MAX));
}

#[test]
fn log_count_is_not_derived() {
    let logs = VmExecutionLogs {
        storage_logs: vec![StorageLogQuery::default(); 2],
        events: vec![VmEvent { value: vec![1, 2, 3], ..VmEvent::default() }],
        l2_to_l1_logs: vec![L2ToL1Log { shard_id: 0, is_service: true, ..L2ToL1Log::default() }],
        total_log_queries_count: 10,
    };
    let sum = logs.storage_logs.len() + logs.events.len() + logs.l2_to_l1_logs.len();
    assert_eq!(sum, 4);
    assert_eq!(logs.total_log_queries_count, 10);
    assert_eq!(logs.clone(), logs);
    let empty = VmExecutionLogs::default();
    assert!(empty.storage_logs.is_empty() && empty.events.is_empty());
    assert_eq!(empty.total_log_queries_count, 0);
    assert_ne!(empty, logs);
}
