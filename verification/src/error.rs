//! The kinds of failure in restore and revert, and what each calls for.

use vstd::prelude::*;

verus! {

/// A kind of failure.
#[derive(Clone, Copy, Debug, PartialEq, Eq, Structural)]
pub enum ErrorKind {
    /// A query to the L1 node failed.
    ChainRpc,
    /// A log or the input of an L1 transaction did not decode.
    Decode,
    /// The operations of a block did not decode, or its chunks are no
    /// admitted size.
    OpsDecode,
    /// An invariant of the tree or of the order of priority operations is broken.
    InvariantViolation,
    /// The database failed.
    Db,
    /// No receipt arrived before the deadline.
    Timeout,
    /// The contract refused the revert.
    ContractRevertFailed,
}

/// What a failure calls for.
#[derive(Clone, Copy, Debug, PartialEq, Eq, Structural)]
pub enum ErrorPolicy {
    /// Give up the current iteration without moving the checkpoint, log a
    /// warning, and try again with the next iteration.
    RetryNextIteration,
    /// Go back to the checkpoint and try again from there.
    RetryFromCheckpoint,
    /// Roll the open database transaction back and stop.
    RollbackAndAbort,
    /// Stop, so that the operator can look at the state.
    Abort,
}

/// What a failure of `kind` calls for, where `in_transaction` says whether a
/// database transaction is open.
pub open spec fn policy_of(kind: ErrorKind, in_transaction: bool) -> ErrorPolicy {
    match kind {
        ErrorKind::ChainRpc => ErrorPolicy::RetryNextIteration,
        ErrorKind::Db => if in_transaction {
            ErrorPolicy::RollbackAndAbort
        } else {
            ErrorPolicy::RetryFromCheckpoint
        },
        _ => ErrorPolicy::Abort,
    }
}

impl ErrorKind {
    /// Whether a failure of this kind ends the process or the operation.
    pub open spec fn is_fatal_spec(self, in_transaction: bool) -> bool {
        policy_of(self, in_transaction) == ErrorPolicy::Abort || policy_of(self, in_transaction)
            == ErrorPolicy::RollbackAndAbort
    }

    /// What a failure of this kind calls for.
    pub fn policy(self, in_transaction: bool) -> (policy: ErrorPolicy)
        ensures
            policy == policy_of(self, in_transaction),
    {
        match self {
            ErrorKind::ChainRpc => ErrorPolicy::RetryNextIteration,
            ErrorKind::Db => if in_transaction {
                ErrorPolicy::RollbackAndAbort
            } else {
                ErrorPolicy::RetryFromCheckpoint
            },
            _ => ErrorPolicy::Abort,
        }
    }

    /// Whether a failure of this kind ends the process or the operation.
    #[verifier::when_used_as_spec(is_fatal_spec)]
    pub fn is_fatal(self, in_transaction: bool) -> (fatal: bool)
        ensures
            fatal == self.is_fatal_spec(in_transaction),
    {
        match self.policy(in_transaction) {
            ErrorPolicy::Abort => true,
            ErrorPolicy::RollbackAndAbort => true,
            _ => false,
        }
    }
}

/// Only a failed query to the L1 node, and a failed database between
/// transactions, are tried again; every other failure is fatal.
pub proof fn lemma_fatal_failures(kind: ErrorKind, in_transaction: bool)
    ensures
        kind.is_fatal_spec(in_transaction) <==> !(kind == ErrorKind::ChainRpc || (kind
            == ErrorKind::Db && !in_transaction)),
{
}

} // verus!
