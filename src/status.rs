use vstd::prelude::*;

verus! {

/// Terminal classification of an executed transaction.
#[derive(Debug, Clone, Copy, PartialEq, Eq, Structural)]
pub enum TxExecutionStatus {
    Success,
    Failure,
}

impl TxExecutionStatus {
    /// The status that a transaction has, given whether its execution failed.
    pub open spec fn spec_from_has_failed(has_failed: bool) -> TxExecutionStatus {
        if has_failed {
            TxExecutionStatus::Failure
        } else {
            TxExecutionStatus::Success
        }
    }

    /// `Failure` when `has_failed` holds, `Success` otherwise.
    pub fn from_has_failed(has_failed: bool) -> (r: Self)
        ensures
            r == Self::spec_from_has_failed(has_failed),
            r == TxExecutionStatus::Failure <==> has_failed,
            r == TxExecutionStatus::Success <==> !has_failed,
    {
        if has_failed {
            TxExecutionStatus::Failure
        } else {
            TxExecutionStatus::Success
        }
    }
}

} // verus!
