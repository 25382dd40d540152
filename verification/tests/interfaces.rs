use synchronicity::application::{SynchronicityApp, SynchronicityConfig};
use synchronicity::commands::version::VersionCmd;
use synchronicity::commands::{SynchronicityCmd, CONFIG_FILE};
use synchronicity::error::{NodeError, Subsystem};
use synchronicity::executor::SynchronicityExecutor;
use synchronicity::storage::StorageReadClient;
use synchronicity::transaction::{
    NewVerifier, SignedTransaction, Transaction, TransactionValidation, VMExecutor, VMVerifier,
};
use synchronicity::verification::{Verifier, VerifyProvider};

fn storage() -> StorageReadClient {
    StorageReadClient {
        env_name_prefix: String::from("grpc-mem-sto-"),
        address: String::from("localhost"),
        port: 6184,
    }
}

#[test]
fn executor_is_not_implemented() {
    let block = vec![Transaction { bytes: vec![1, 2, 3] }];
    assert_eq!(SynchronicityExecutor::execute_block(block), Err(NodeError::NotImplemented));
    assert_eq!(SynchronicityExecutor::execute_block(vec![]), Err(NodeError::NotImplemented));
    let executor = SynchronicityExecutor::new();
    assert_eq!(
        VMVerifier::validate_transaction(&executor, SignedTransaction { bytes: vec![] }),
        Err(NodeError::NotImplemented)
    );
}

#[test]
fn verifier_is_not_implemented() {
    let verifier = Verifier::new(storage());
    assert_eq!(
        verifier.validate_transaction(SignedTransaction { bytes: vec![0; 64] }),
        Err(NodeError::NotImplemented)
    );
}

#[test]
fn provider_makes_a_verifier_for_the_storage_reader() {
    let provider = VerifyProvider::new();
    let verifier = provider.new_verifier(storage());
    assert_eq!(verifier.storage_read_client, storage());
    assert_eq!(verifier.executor, SynchronicityExecutor::new());
    assert_eq!(verifier, Verifier::new(storage()));
}

#[test]
fn config_is_there_once_it_is_loaded() {
    let mut app = SynchronicityApp::default();
    assert_eq!(app.config(), Err(NodeError::ConfigNotLoaded));
    let config = SynchronicityConfig {
        node_config: String::from("/d/node.config.toml"),
        scratch_dir: String::from("/d/scratch/"),
    };
    app.after_config(config.clone());
    assert_eq!(app.config(), Ok(&config));
}

#[test]
fn config_file_is_loaded_where_it_exists() {
    let cmd = SynchronicityCmd::Help;
    assert_eq!(cmd.config_path(true), Some(String::from("synchronicity.toml")));
    assert_eq!(cmd.config_path(false), None);
    assert_eq!(CONFIG_FILE, "synchronicity.toml");
}

#[test]
fn version_message_is_name_and_version() {
    let cmd = VersionCmd::default();
    assert_eq!(cmd.message("synchronicity", "0.1.0"), "synchronicity 0.1.0");
    assert_eq!(cmd.message("", ""), " ");
}

#[test]
fn errors_have_messages() {
    assert_eq!(
        NodeError::Usage.message(),
        "usage: synchronicity init /path/to/syncronicity/base/dir"
    );
    assert_eq!(
        NodeError::NetworkConfigCount(0).message(),
        "unexpected number of network configs: 0 (expected 1)"
    );
    assert_eq!(
        NodeError::NetworkConfigCount(12).message(),
        "unexpected number of network configs: 12 (expected 1)"
    );
    assert_eq!(
        NodeError::PermissionlessUnsupported.message(),
        "support for `is_permissioned: false` unimplemented"
    );
    assert_eq!(
        NodeError::SigningKeyMissing.message(),
        "failed to move network signing private key out of NodeConfig: key not set or moved already"
    );
    assert_eq!(NodeError::Startup(Subsystem::Consensus).message(), "couldn't start consensus");
    assert_eq!(NodeError::Startup(Subsystem::Runtime).message(), "couldn't start runtime");
    assert_eq!(NodeError::NotImplemented.message(), "not implemented");
    assert_eq!(NodeError::ConfigNotLoaded.message(), "config not loaded");
    assert_eq!(NodeError::AddressParse.message(), "couldn't parse address: not an IPv4 host");
    assert_eq!(NodeError::ValidatorCount.message(), "unexpected number of validators (expected 1)");
    assert_eq!(NodeError::PeerCount.message(), "unexpected number of peers (expected 1)");
    assert_eq!(NodeError::UnknownRole.message(), "invalid node role");
    assert_eq!(NodeError::InvalidPeerId.message(), "invalid peer id");
    assert_eq!(NodeError::OutOfOrder.message(), "launch step out of order");
}

#[test]
fn subsystems_have_names() {
    assert_eq!(Subsystem::Runtime.name(), "runtime");
    assert_eq!(Subsystem::Network.name(), "network");
    assert_eq!(Subsystem::Mempool.name(), "mempool");
    assert_eq!(Subsystem::Executor.name(), "executor");
    assert_eq!(Subsystem::Consensus.name(), "consensus");
}
