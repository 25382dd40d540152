//! Transaction verifier of the node.

use crate::error::NodeError;
use crate::executor::SynchronicityExecutor;
use crate::storage::StorageReadClient;
use crate::transaction::{NewVerifier, SignedTransaction, Status, TransactionValidation};
use vstd::prelude::*;

verus! {

/// Verification provider: makes a `Verifier` for each storage reader.
#[derive(Clone, Copy, Debug, PartialEq, Eq, Structural)]
pub struct VerifyProvider {}

impl VerifyProvider {
    /// A new verification provider.
    pub fn new() -> (provider: VerifyProvider)
        ensures
            provider == (VerifyProvider {  }),
    {
        VerifyProvider {  }
    }
}

impl NewVerifier for VerifyProvider {
    type Verifier = Verifier;

    /// The validator that reads through `storage_read_client`.
    fn new_verifier(&self, storage_read_client: StorageReadClient) -> (verifier: Verifier)
        ensures
            verifier.storage_read_client == storage_read_client,
    {
        Verifier::new(storage_read_client)
    }
}

/// Validator of the node's transactions. It exists as an interface only.
#[derive(Clone, Debug, PartialEq, Eq)]
pub struct Verifier {
    /// Where ledger state is read from.
    pub storage_read_client: StorageReadClient,
    /// What executes a transaction to validate it.
    pub executor: SynchronicityExecutor,
}

impl Verifier {
    /// The validator that reads through `storage_read_client`.
    pub fn new(storage_read_client: StorageReadClient) -> (verifier: Verifier)
        ensures
            verifier.storage_read_client == storage_read_client,
            verifier.executor == (SynchronicityExecutor {  }),
    {
        let executor = SynchronicityExecutor::new();
        Verifier { storage_read_client, executor }
    }
}

impl TransactionValidation for Verifier {
    /// Fails with `NodeError::NotImplemented`, whatever the transaction.
    fn validate_transaction(&self, txn: SignedTransaction) -> (verdict: Result<
        Option<Status>,
        NodeError,
    >)
        ensures
            verdict == Err::<Option<Status>, NodeError>(NodeError::NotImplemented),
    {
        Err(NodeError::NotImplemented)
    }
}

} // verus!
