use vstd::prelude::*;

use crate::sizes::L2_TO_L1_LOG_SIZE;
use crate::tx_metrics::TransactionExecutionMetrics;

verus! {

/// `a + b`, or `cap` where the sum exceeds it.
pub open spec fn capped_sum(a: int, b: int, cap: int) -> int {
    if a + b > cap {
        cap
    } else {
        a + b
    }
}

/// The accounting record of one transaction, or the sum of many.
#[derive(Debug, Clone, Copy, PartialEq, Eq, Structural)]
pub struct ExecutionMetrics {
    pub gas_used: usize,
    pub published_bytecode_bytes: usize,
    pub l2_l1_long_messages: usize,
    pub l2_l1_logs: usize,
    pub contracts_used: usize,
    pub contracts_deployed: u16,
    pub vm_events: usize,
    pub storage_logs: usize,
    pub total_log_queries: usize,
    pub cycles_used: u32,
    pub computational_gas_used: u32,
}

impl ExecutionMetrics {
    /// The record with every counter at zero.
    pub open spec fn spec_zero() -> Self {
        ExecutionMetrics {
            gas_used: 0,
            published_bytecode_bytes: 0,
            l2_l1_long_messages: 0,
            l2_l1_logs: 0,
            contracts_used: 0,
            contracts_deployed: 0,
            vm_events: 0,
            storage_logs: 0,
            total_log_queries: 0,
            cycles_used: 0,
            computational_gas_used: 0,
        }
    }

    /// The counters that a raw record carries, copied as they are.
    pub open spec fn spec_from_tx_metrics(tx_metrics: TransactionExecutionMetrics) -> Self {
        ExecutionMetrics {
            gas_used: tx_metrics.gas_used,
            published_bytecode_bytes: tx_metrics.published_bytecode_bytes,
            l2_l1_long_messages: tx_metrics.l2_l1_long_messages,
            l2_l1_logs: tx_metrics.l2_l1_logs,
            contracts_used: tx_metrics.contracts_used,
            contracts_deployed: tx_metrics.contracts_deployed,
            vm_events: tx_metrics.vm_events,
            storage_logs: tx_metrics.storage_logs,
            total_log_queries: tx_metrics.total_log_queries,
            cycles_used: tx_metrics.cycles_used,
            computational_gas_used: tx_metrics.computational_gas_used,
        }
    }

    /// Bytes needed to publish everything but the storage writes.
    pub open spec fn spec_size(self) -> int {
        self.l2_l1_logs * L2_TO_L1_LOG_SIZE + self.l2_l1_long_messages
            + self.published_bytecode_bytes
    }

    /// Whether every counter of `self` plus the same counter of `other` fits
    /// in the counter's type.
    pub open spec fn spec_sum_fits(self, other: Self) -> bool {
        &&& self.gas_used + other.gas_used <= usize::MAX
        &&& self.published_bytecode_bytes + other.published_bytecode_bytes <= usize::MAX
        &&& self.l2_l1_long_messages + other.l2_l1_long_messages <= usize::MAX
        &&& self.l2_l1_logs + other.l2_l1_logs <= usize::MAX
        &&& self.contracts_used + other.contracts_used <= usize::MAX
        &&& self.contracts_deployed + other.contracts_deployed <= u16::MAX
        &&& self.vm_events + other.vm_events <= usize::MAX
        &&& self.storage_logs + other.storage_logs <= usize::MAX
        &&& self.total_log_queries + other.total_log_queries <= usize::MAX
        &&& self.cycles_used + other.cycles_used <= u32::MAX
        &&& self.computational_gas_used + other.computational_gas_used <= u32::MAX
    }

    /// The field-wise sum, each counter held at its type's maximum where the
    /// sum would exceed it.
    pub open spec fn spec_add(self, other: Self) -> Self {
        ExecutionMetrics {
            gas_used: capped_sum(
                self.gas_used as int,
                other.gas_used as int,
                usize::MAX as int,
            ) as usize,
            published_bytecode_bytes: capped_sum(
                self.published_bytecode_bytes as int,
                other.published_bytecode_bytes as int,
                usize::MAX as int,
            ) as usize,
            l2_l1_long_messages: capped_sum(
                self.l2_l1_long_messages as int,
                other.l2_l1_long_messages as int,
                usize::MAX as int,
            ) as usize,
            l2_l1_logs: capped_sum(
                self.l2_l1_logs as int,
                other.l2_l1_logs as int,
                usize::MAX as int,
            ) as usize,
            contracts_used: capped_sum(
                self.contracts_used as int,
                other.contracts_used as int,
                usize::MAX as int,
            ) as usize,
            contracts_deployed: capped_sum(
                self.contracts_deployed as int,
                other.contracts_deployed as int,
                u16::MAX as int,
            ) as u16,
            vm_events: capped_sum(
                self.vm_events as int,
                other.vm_events as int,
                usize::MAX as int,
            ) as usize,
            storage_logs: capped_sum(
                self.storage_logs as int,
                other.storage_logs as int,
                usize::MAX as int,
            ) as usize,
            total_log_queries: capped_sum(
                self.total_log_queries as int,
                other.total_log_queries as int,
                usize::MAX as int,
            ) as usize,
            cycles_used: capped_sum(
                self.cycles_used as int,
                other.cycles_used as int,
                u32::MAX as int,
            ) as u32,
            computational_gas_used: capped_sum(
                self.computational_gas_used as int,
                other.computational_gas_used as int,
                u32::MAX as int,
            ) as u32,
        }
    }

    pub fn from_tx_metrics(tx_metrics: &TransactionExecutionMetrics) -> (r: Self)
        ensures
            r == Self::spec_from_tx_metrics(*tx_metrics),
    {
        ExecutionMetrics {
            published_bytecode_bytes: tx_metrics.published_bytecode_bytes,
            l2_l1_long_messages: tx_metrics.l2_l1_long_messages,
            l2_l1_logs: tx_metrics.l2_l1_logs,
            contracts_deployed: tx_metrics.contracts_deployed,
            contracts_used: tx_metrics.contracts_used,
            gas_used: tx_metrics.gas_used,
            storage_logs: tx_metrics.storage_logs,
            vm_events: tx_metrics.vm_events,
            total_log_queries: tx_metrics.total_log_queries,
            cycles_used: tx_metrics.cycles_used,
            computational_gas_used: tx_metrics.computational_gas_used,
        }
    }

    pub fn size(&self) -> (r: usize)
        requires
            self.spec_size() <= usize::MAX,
        ensures
            r == self.spec_size(),
    {
        self.l2_l1_logs * L2_TO_L1_LOG_SIZE + self.l2_l1_long_messages
            + self.published_bytecode_bytes
    }

    /// The exact field-wise sum, or `None` where some counter would not fit
    /// in its type.
    pub fn checked_add(&self, other: &Self) -> (r: Option<Self>)
        ensures
            r is Some <==> self.spec_sum_fits(*other),
            r is Some ==> r->Some_0 == self.spec_add(*other),
            r matches Some(m) ==> {
                &&& m.gas_used == self.gas_used + other.gas_used
                &&& m.published_bytecode_bytes == self.published_bytecode_bytes
                    + other.published_bytecode_bytes
                &&& m.l2_l1_long_messages == self.l2_l1_long_messages + other.l2_l1_long_messages
                &&& m.l2_l1_logs == self.l2_l1_logs + other.l2_l1_logs
                &&& m.contracts_used == self.contracts_used + other.contracts_used
                &&& m.contracts_deployed == self.contracts_deployed + other.contracts_deployed
                &&& m.vm_events == self.vm_events + other.vm_events
                &&& m.storage_logs == self.storage_logs + other.storage_logs
                &&& m.total_log_queries == self.total_log_queries + other.total_log_queries
                &&& m.cycles_used == self.cycles_used + other.cycles_used
                &&& m.computational_gas_used == self.computational_gas_used
                    + other.computational_gas_used
            },
    {
        if self.gas_used > usize::MAX - other.gas_used
            || self.published_bytecode_bytes > usize::MAX - other.published_bytecode_bytes
            || self.l2_l1_long_messages > usize::MAX - other.l2_l1_long_messages
            || self.l2_l1_logs > usize::MAX - other.l2_l1_logs
            || self.contracts_used > usize::MAX - other.contracts_used
            || self.contracts_deployed > u16::MAX - other.contracts_deployed
            || self.vm_events > usize::MAX - other.vm_events
            || self.storage_logs > usize::MAX - other.storage_logs
            || self.total_log_queries > usize::MAX - other.total_log_queries
            || self.cycles_used > u32::MAX - other.cycles_used
            || self.computational_gas_used > u32::MAX - other.computational_gas_used {
            return None;
        }
        Some(
            ExecutionMetrics {
                gas_used: self.gas_used + other.gas_used,
                published_bytecode_bytes: self.published_bytecode_bytes
                    + other.published_bytecode_bytes,
                l2_l1_long_messages: self.l2_l1_long_messages + other.l2_l1_long_messages,
                l2_l1_logs: self.l2_l1_logs + other.l2_l1_logs,
                contracts_used: self.contracts_used + other.contracts_used,
                contracts_deployed: self.contracts_deployed + other.contracts_deployed,
                vm_events: self.vm_events + other.vm_events,
                storage_logs: self.storage_logs + other.storage_logs,
                total_log_queries: self.total_log_queries + other.total_log_queries,
                cycles_used: self.cycles_used + other.cycles_used,
                computational_gas_used: self.computational_gas_used + other.computational_gas_used,
            },
        )
    }
}

impl Default for ExecutionMetrics {
    /// The additive identity: every counter at zero.
    fn default() -> (r: Self)
        ensures
            r == Self::spec_zero(),
    {
        ExecutionMetrics {
            gas_used: 0,
            published_bytecode_bytes: 0,
            l2_l1_long_messages: 0,
            l2_l1_logs: 0,
            contracts_used: 0,
            contracts_deployed: 0,
            vm_events: 0,
            storage_logs: 0,
            total_log_queries: 0,
            cycles_used: 0,
            computational_gas_used: 0,
        }
    }
}

impl std::ops::Add for ExecutionMetrics {
    type Output = ExecutionMetrics;

    /// Field-wise sum; a counter that would pass its type's maximum stays at
    /// that maximum instead of wrapping.
    fn add(self, other: ExecutionMetrics) -> (r: ExecutionMetrics)
        ensures
            r == self.spec_add(other),
    {
        ExecutionMetrics {
            published_bytecode_bytes: self.published_bytecode_bytes.saturating_add(
                other.published_bytecode_bytes,
            ),
            contracts_deployed: self.contracts_deployed.saturating_add(other.contracts_deployed),
            contracts_used: self.contracts_used.saturating_add(other.contracts_used),
            l2_l1_long_messages: self.l2_l1_long_messages.saturating_add(other.l2_l1_long_messages),
            l2_l1_logs: self.l2_l1_logs.saturating_add(other.l2_l1_logs),
            gas_used: self.gas_used.saturating_add(other.gas_used),
            vm_events: self.vm_events.saturating_add(other.vm_events),
            storage_logs: self.storage_logs.saturating_add(other.storage_logs),
            total_log_queries: self.total_log_queries.saturating_add(other.total_log_queries),
            cycles_used: self.cycles_used.saturating_add(other.cycles_used),
            computational_gas_used: self.computational_gas_used.saturating_add(
                other.computational_gas_used,
            ),
        }
    }
}

impl vstd::std_specs::ops::AddSpecImpl for ExecutionMetrics {
    open spec fn obeys_add_spec() -> bool {
        true
    }

    open spec fn add_req(self, other: ExecutionMetrics) -> bool {
        true
    }

    open spec fn add_spec(self, other: ExecutionMetrics) -> ExecutionMetrics {
        self.spec_add(other)
    }
}

impl std::ops::AddAssign for ExecutionMetrics {
    fn add_assign(&mut self, other: Self)
        ensures
            *final(self) == old(self).spec_add(other),
    {
        *self = *self + other;
    }
}

/// Addition of metrics is commutative: `a + b == b + a`.
pub proof fn lemma_add_commutative(a: ExecutionMetrics, b: ExecutionMetrics)
    ensures
        a.spec_add(b) == b.spec_add(a),
{
}

/// Addition of metrics is associative: `(a + b) + c == a + (b + c)`, so a
/// batch total does not depend on how the per-transaction records are grouped.
pub proof fn lemma_add_associative(a: ExecutionMetrics, b: ExecutionMetrics, c: ExecutionMetrics)
    ensures
        a.spec_add(b).spec_add(c) == a.spec_add(b.spec_add(c)),
{
}

/// The record with every counter at zero is the identity of addition.
pub proof fn lemma_add_zero(a: ExecutionMetrics)
    ensures
        a.spec_add(ExecutionMetrics::spec_zero()) == a,
        ExecutionMetrics::spec_zero().spec_add(a) == a,
{
}

/// Projecting a raw record depends on the counters it copies and on nothing
/// else: two records give the same result exactly when those counters agree,
/// so projecting one record twice gives identical values.
pub proof fn lemma_metrics_projection_deterministic(
    a: TransactionExecutionMetrics,
    b: TransactionExecutionMetrics,
)
    ensures
        ExecutionMetrics::spec_from_tx_metrics(a) == ExecutionMetrics::spec_from_tx_metrics(b)
            <==> {
            &&& a.gas_used == b.gas_used
            &&& a.published_bytecode_bytes == b.published_bytecode_bytes
            &&& a.l2_l1_long_messages == b.l2_l1_long_messages
            &&& a.l2_l1_logs == b.l2_l1_logs
            &&& a.contracts_used == b.contracts_used
            &&& a.contracts_deployed == b.contracts_deployed
            &&& a.vm_events == b.vm_events
            &&& a.storage_logs == b.storage_logs
            &&& a.total_log_queries == b.total_log_queries
            &&& a.cycles_used == b.cycles_used
            &&& a.computational_gas_used == b.computational_gas_used
        },
        a == b ==> ExecutionMetrics::spec_from_tx_metrics(a)
            == ExecutionMetrics::spec_from_tx_metrics(b),
{
}

} // verus!
