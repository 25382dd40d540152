//! State machine executor of the node.

use crate::error::NodeError;
use crate::transaction::{
    SignedTransaction, Status, Transaction, TransactionOutput, VMExecutor, VMVerifier,
};
use vstd::prelude::*;

verus! {

/// State machine executor. It exists as an interface only: every call says
/// so, and none makes up a result.
#[derive(Clone, Copy, Debug, PartialEq, Eq, Structural)]
pub struct SynchronicityExecutor {}

impl SynchronicityExecutor {
    /// A new executor.
    pub fn new() -> (executor: SynchronicityExecutor)
        ensures
            executor == (SynchronicityExecutor {  }),
    {
        SynchronicityExecutor {  }
    }
}

impl VMExecutor for SynchronicityExecutor {
    /// Fails with `NodeError::NotImplemented`, whatever the block.
    fn execute_block(transactions: Vec<Transaction>) -> (outputs: Result<
        Vec<TransactionOutput>,
        NodeError,
    >)
        ensures
            outputs == Err::<Vec<TransactionOutput>, NodeError>(NodeError::NotImplemented),
    {
        Err(NodeError::NotImplemented)
    }
}

impl VMVerifier for SynchronicityExecutor {
    /// Fails with `NodeError::NotImplemented`, whatever the transaction.
    fn validate_transaction(&self, txn: SignedTransaction) -> (verdict: Result<
        Option<Status>,
        NodeError,
    >)
        ensures
            verdict == Err::<Option<Status>, NodeError>(NodeError::NotImplemented),
    {
        Err(NodeError::NotImplemented)
    }
}

} // verus!
