//! Transactions, and the interfaces through which they are verified and
//! executed. This library defines the interfaces; what stands behind them
//! is chosen by the caller.

use crate::error::NodeError;
use crate::storage::StorageReadClient;
use vstd::prelude::*;

verus! {

/// A transaction with its signature, in serialized form.
#[derive(Clone, Debug, PartialEq, Eq)]
pub struct SignedTransaction {
    /// The serialized transaction.
    pub bytes: Vec<u8>,
}

/// A transaction of a block, in serialized form.
#[derive(Clone, Debug, PartialEq, Eq)]
pub struct Transaction {
    /// The serialized transaction.
    pub bytes: Vec<u8>,
}

/// What executing one transaction gave, in serialized form.
#[derive(Clone, Debug, PartialEq, Eq)]
pub struct TransactionOutput {
    /// The serialized output.
    pub bytes: Vec<u8>,
}

/// Why a transaction was turned down.
#[derive(Clone, Copy, Debug, PartialEq, Eq, Structural)]
pub struct Status {
    /// Status code of the rejection.
    pub code: u64,
}

/// Validates one signed transaction at a time.
pub trait TransactionValidation {
    /// `Ok(None)` where the transaction passes, `Ok(Some(status))` where it
    /// is turned down, `Err` where no verdict could be reached.
    fn validate_transaction(&self, txn: SignedTransaction) -> Result<Option<Status>, NodeError>;
}

/// Makes a transaction validator out of a storage reader.
pub trait NewVerifier {
    /// The validator that this provider makes.
    type Verifier: TransactionValidation;

    /// A validator that reads ledger state through `storage_read_client`.
    fn new_verifier(&self, storage_read_client: StorageReadClient) -> Self::Verifier;
}

/// Executes blocks of transactions.
pub trait VMExecutor {
    /// The outputs of the transactions of one block, in order.
    fn execute_block(transactions: Vec<Transaction>) -> Result<Vec<TransactionOutput>, NodeError>;
}

/// Validates a transaction against ledger state.
pub trait VMVerifier {
    /// `Ok(None)` where the transaction passes, `Ok(Some(status))` where it
    /// is turned down, `Err` where no verdict could be reached.
    fn validate_transaction(&self, txn: SignedTransaction) -> Result<Option<Status>, NodeError>;
}

} // verus!
