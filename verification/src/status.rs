//! Status codes and transaction outputs: the terminal outcomes of one
//! transaction's execution.

use vstd::prelude::*;
use crate::types::{AccessPath, WriteOp, writes_view};

verus! {

/// The coarse classification of an execution outcome.
#[derive(Clone, Copy, PartialEq, Eq, Debug)]
pub enum StatusCode {
    /// The transaction ran to completion.
    Executed,
    /// A gas debit would have exceeded the remaining budget.
    OutOfGas,
    /// The transaction's payload could not be decoded.
    Malformed,
    /// A module or a function could not be resolved.
    LinkerError,
    /// An internal invariant of the trusted pipeline was violated
    /// (wrong native arity or argument type, stack underflow).
    Unreachable,
    /// A read reached an access path that holds no value.
    MissingData,
    /// The bytecode executed an explicit abort instruction.
    Aborted,
}

/// A status: the classification plus an optional abort code.
#[derive(Clone, Copy, PartialEq, Eq, Debug)]
pub struct VMStatus {
    pub major: StatusCode,
    pub sub_status: Option<u64>,
}

impl VMStatus {
    /// A status with the given classification and no abort code.
    pub fn new(major: StatusCode) -> (r: VMStatus)
        ensures
            r == (VMStatus { major, sub_status: None::<u64> }),
    {
        VMStatus { major, sub_status: None }
    }
}

/// A result whose failure is a status.
pub type VMResult<T> = Result<T, VMStatus>;

/// Whether the transaction's effects are applied or voided.
#[derive(Clone, Copy, PartialEq, Eq, Debug)]
pub enum TransactionStatus {
    /// The write-set is to be applied.
    Keep(VMStatus),
    /// The effects are entirely void; only the status is recorded.
    Discard(VMStatus),
}

/// The result of one transaction's execution: a write-set, the gas used and
/// the terminal status. Constructed once, immutable thereafter.
pub struct TransactionOutput {
    pub write_set: Vec<(AccessPath, WriteOp)>,
    pub gas_used: u64,
    pub status: TransactionStatus,
}

impl TransactionOutput {
    /// The view of the output's write-set.
    pub open spec fn write_set_view(self) -> Seq<(
        crate::types::AccessPathView,
        crate::types::WriteOpView,
    )> {
        writes_view(self.write_set@)
    }

    /// Whether the output is a discard.
    pub open spec fn is_discarded(self) -> bool {
        self.status is Discard
    }
}

/// The discarded output that records a failure: its write-set is empty, so no
/// partial state change is ever visible outside the executor, and no gas is
/// billed to the output.
pub fn discard_error_output(err: VMStatus) -> (r: TransactionOutput)
    ensures
        r.write_set@.len() == 0,
        r.gas_used == 0,
        r.status == TransactionStatus::Discard(err),
        r.is_discarded(),
{
    TransactionOutput { write_set: Vec::new(), gas_used: 0, status: TransactionStatus::Discard(err) }
}

} // verus!
