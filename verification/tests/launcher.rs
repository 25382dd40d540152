use synchronicity::address::parse_multiaddr_from_ipv4;
use synchronicity::commands::start::StartCmd;
use synchronicity::config::{
    ConsensusConfig, MempoolConfig, NetworkConfig, NetworkKeyPairs, NetworkPeer, NetworkPeerInfo,
    NetworkPeersConfig, NodeConfig, RoleType, SeedPeer, SeedPeersConfig, StorageConfig,
};
use synchronicity::error::{NodeError, Subsystem};
use synchronicity::launcher::{
    consensus_channel, start_runtime, ConsensusSetup, LaunchAction, LaunchEvent, LaunchState,
    Launcher, Phase, ProtocolId,
};
use synchronicity::storage::{StorageReadClient, StorageWriteClient};
use synchronicity::verification::{Verifier, VerifyProvider};

const PEER_ID: &str = "0x8deeeaed65f0cd7484a9e4e5ac51fbac548f2f71299a05e000156031ca78fb9f";

/// What `PEER_ID` parses to.
fn peer_id() -> Option<Vec<u8>> {
    Some(vec![
        0x8d, 0xee, 0xea, 0xed, 0x65, 0xf0, 0xcd, 0x74, 0x84, 0xa9, 0xe4, 0xe5, 0xac, 0x51, 0xfb,
        0xac, 0x54, 0x8f, 0x2f, 0x71, 0x29, 0x9a, 0x05, 0xe0, 0x00, 0x15, 0x60, 0x31, 0xca, 0x78,
        0xfb, 0x9f,
    ])
}

fn network_config(role: &str) -> NetworkConfig {
    NetworkConfig {
        peer_id: String::from(PEER_ID),
        role: String::from(role),
        listen_address: parse_multiaddr_from_ipv4("0.0.0.0", 6180).unwrap(),
        advertised_address: parse_multiaddr_from_ipv4("203.0.113.9", 6180).unwrap(),
        is_permissioned: true,
        network_keypairs_file: String::from("network_keypairs.config.toml"),
        network_keypairs: NetworkKeyPairs::load(vec![2; 32], vec![3; 32]),
        network_peers: NetworkPeersConfig {
            peers: vec![NetworkPeer {
                peer_id: String::from(PEER_ID),
                info: NetworkPeerInfo {
                    network_signing_pubkey: vec![5; 32],
                    network_identity_pubkey: vec![6; 32],
                },
            }],
        },
        seed_peers: SeedPeersConfig {
            seed_peers: vec![SeedPeer {
                peer_id: String::from("0x01"),
                addresses: vec![parse_multiaddr_from_ipv4("198.51.100.4", 6180).unwrap()],
            }],
        },
        discovery_interval_ms: 1000,
        connectivity_check_interval_ms: 5000,
    }
}

fn node_config(networks: Vec<NetworkConfig>) -> NodeConfig {
    NodeConfig {
        networks,
        consensus: ConsensusConfig {
            consensus_keypair_file: String::from("consensus_keypair.config.toml"),
        },
        storage: StorageConfig {
            address: String::from("storage.internal"),
            port: 6184,
            grpc_max_receive_len: Some(100_000_000),
        },
        mempool: MempoolConfig {
            address: String::from("mempool.internal"),
            mempool_service_port: 6182,
        },
    }
}

fn launcher() -> Launcher<VerifyProvider> {
    match Launcher::new(
        node_config(vec![network_config("validator")]),
        peer_id(),
        VerifyProvider::new(),
    ) {
        Ok(launcher) => launcher,
        Err(e) => panic!("no launcher: {:?}", e),
    }
}

fn launcher_in(phase: Phase) -> Launcher<VerifyProvider> {
    let mut launcher = launcher();
    let events = [
        LaunchEvent::Begin,
        LaunchEvent::RuntimeStarted,
        LaunchEvent::NetworkStarted,
        LaunchEvent::MempoolStarted,
        LaunchEvent::ConsensusRegistered,
        LaunchEvent::ExecutorStarted,
        LaunchEvent::ConsensusStarted,
    ];
    for event in events {
        if launcher.phase() == phase {
            break;
        }
        assert!(launcher.launch(event).is_ok());
    }
    assert_eq!(launcher.phase(), phase);
    launcher
}

fn error_of(launcher: Result<Launcher<VerifyProvider>, NodeError>) -> NodeError {
    match launcher {
        Ok(_) => panic!("a launcher was made"),
        Err(e) => e,
    }
}

#[test]
fn launcher_wants_a_network_config() {
    let made = Launcher::new(node_config(vec![]), peer_id(), VerifyProvider::new());
    assert_eq!(error_of(made), NodeError::NetworkConfigCount(0));
    let made = Launcher::new(node_config(vec![]), None, VerifyProvider::new());
    assert_eq!(error_of(made), NodeError::NetworkConfigCount(0));
}

#[test]
fn launcher_wants_no_second_network_config() {
    let networks = vec![network_config("validator"), network_config("full_node")];
    let made = Launcher::new(node_config(networks), peer_id(), VerifyProvider::new());
    assert_eq!(error_of(made), NodeError::NetworkConfigCount(2));
}

#[test]
fn launcher_wants_a_known_role() {
    let made = Launcher::new(
        node_config(vec![network_config("observer")]),
        peer_id(),
        VerifyProvider::new(),
    );
    assert_eq!(error_of(made), NodeError::UnknownRole);
}

#[test]
fn launcher_wants_a_peer_id_that_parsed() {
    let mut network = network_config("validator");
    network.peer_id = String::from("zz");
    let made = Launcher::new(node_config(vec![network]), None, VerifyProvider::new());
    assert_eq!(error_of(made), NodeError::InvalidPeerId);
}

#[test]
fn launcher_looks_at_the_peer_id_before_the_role_and_the_key() {
    let mut network = network_config("observer");
    network.network_keypairs.take_network_signing_private();
    let made = Launcher::new(node_config(vec![network]), None, VerifyProvider::new());
    assert_eq!(error_of(made), NodeError::InvalidPeerId);
}

#[test]
fn launcher_wants_the_signing_key() {
    let mut network = network_config("validator");
    network.network_keypairs.take_network_signing_private();
    let made = Launcher::new(node_config(vec![network]), peer_id(), VerifyProvider::new());
    assert_eq!(error_of(made), NodeError::SigningKeyMissing);
}

#[test]
fn launcher_takes_peer_id_and_role_from_the_network_config() {
    let launcher = launcher();
    assert_eq!(Some(launcher.peer_id().clone()), peer_id());
    assert_eq!(launcher.role(), RoleType::Validator);
    assert_eq!(launcher.phase(), Phase::Idle);
    assert_eq!(launcher.state(), LaunchState::Constructed);
    let full_node = Launcher::new(
        node_config(vec![network_config("full_node")]),
        peer_id(),
        VerifyProvider::new(),
    );
    match full_node {
        Ok(l) => assert_eq!(l.role(), RoleType::FullNode),
        Err(e) => panic!("no launcher: {:?}", e),
    }
}

#[test]
fn start_command_makes_the_launcher() {
    let cmd = StartCmd::default();
    match cmd.launcher(node_config(vec![network_config("validator")]), peer_id()) {
        Ok(l) => assert_eq!(l.phase(), Phase::Idle),
        Err(e) => panic!("no launcher: {:?}", e),
    }
    assert_eq!(
        error_of(cmd.launcher(node_config(vec![]), peer_id())),
        NodeError::NetworkConfigCount(0)
    );
    assert_eq!(
        error_of(cmd.launcher(node_config(vec![network_config("validator")]), None)),
        NodeError::InvalidPeerId
    );
}

#[test]
fn nothing_starts_without_a_launcher() {
    let made = Launcher::new(node_config(vec![]), peer_id(), VerifyProvider::new());
    assert!(made.is_err());
    let node = launcher_in(Phase::Idle).into_node((), (), (), ());
    assert!(matches!(node, Err(NodeError::OutOfOrder)));
}

#[test]
fn runtime_comes_first() {
    let mut launcher = launcher();
    assert_eq!(
        launcher.launch(LaunchEvent::Begin),
        Ok(LaunchAction::StartRuntime(start_runtime()))
    );
    assert_eq!(start_runtime().name_prefix, "synchro-");
    assert_eq!(launcher.phase(), Phase::Runtime);
    assert_eq!(launcher.state(), LaunchState::Constructed);
}

#[test]
fn network_starts_with_the_settings_of_the_config() {
    let mut launcher = launcher_in(Phase::Runtime);
    let config = network_config("validator");
    match launcher.launch(LaunchEvent::RuntimeStarted) {
        Ok(LaunchAction::StartNetwork(setup)) => {
            assert_eq!(Some(setup.peer_id.clone()), peer_id());
            assert_eq!(setup.role, RoleType::Validator);
            assert_eq!(setup.listen_address.as_str(), "/ip4/0.0.0.0/tcp/6180");
            assert_eq!(setup.advertised_address.as_str(), "/ip4/203.0.113.9/tcp/6180");
            assert!(setup.is_permissioned);
            assert_eq!(
                setup.direct_send_protocols,
                vec![
                    ProtocolId::ConsensusDirectSend,
                    ProtocolId::MempoolDirectSend,
                    ProtocolId::StateSynchronizerMsg
                ]
            );
            assert_eq!(
                setup.rpc_protocols,
                vec![ProtocolId::ConsensusRpc, ProtocolId::AdmissionControlRpc]
            );
            assert_eq!(setup.trusted_peers, &config.network_peers.peers);
            assert_eq!(setup.seed_peers, &config.seed_peers.seed_peers);
            assert_eq!(setup.identity_private_key, &vec![3u8; 32]);
            assert_eq!(setup.signing_private_key, vec![2u8; 32]);
            assert_eq!(setup.connectivity_check_interval_ms, 5000);
            assert_eq!(setup.discovery_interval_ms, 1000);
        },
        other => panic!("unexpected answer: {:?}", other),
    }
    assert_eq!(launcher.phase(), Phase::Network);
    assert_eq!(launcher.state(), LaunchState::Constructed);
}

#[test]
fn mempool_starts_after_the_network() {
    let mut launcher = launcher_in(Phase::Network);
    let storage = StorageReadClient {
        env_name_prefix: String::from("grpc-mem-sto-"),
        address: String::from("localhost"),
        port: 6184,
    };
    match launcher.launch(LaunchEvent::NetworkStarted) {
        Ok(LaunchAction::StartMempool(setup)) => {
            assert_eq!(setup.protocols, vec![ProtocolId::MempoolDirectSend]);
            assert_eq!(setup.grpc_env_name_prefix, "grpc-mempool-");
            assert_eq!(setup.completion_queues, 2);
            assert_eq!(setup.bind_address, "mempool.internal");
            assert_eq!(setup.bind_port, 6182);
            assert_eq!(setup.storage, storage);
            assert_eq!(setup.verifier, Verifier::new(storage.clone()));
        },
        other => panic!("unexpected answer: {:?}", other),
    }
    assert_eq!(launcher.state(), LaunchState::NetworkStarted);
}

#[test]
fn consensus_channel_is_registered_after_the_mempool() {
    let mut launcher = launcher_in(Phase::Mempool);
    assert_eq!(
        launcher.launch(LaunchEvent::MempoolStarted),
        Ok(LaunchAction::RegisterConsensus(vec![
            ProtocolId::ConsensusRpc,
            ProtocolId::ConsensusDirectSend
        ]))
    );
    assert_eq!(consensus_channel(), vec![ProtocolId::ConsensusRpc, ProtocolId::ConsensusDirectSend]);
    assert_eq!(launcher.state(), LaunchState::MempoolStarted);
}

#[test]
fn executor_reaches_the_storage_of_the_config() {
    let mut launcher = launcher_in(Phase::ConsensusChannel);
    match launcher.launch(LaunchEvent::ConsensusRegistered) {
        Ok(LaunchAction::StartExecutor(setup)) => {
            assert_eq!(
                setup.storage_read,
                StorageReadClient {
                    env_name_prefix: String::from("grpc-exe-sto-"),
                    address: String::from("storage.internal"),
                    port: 6184,
                }
            );
            assert_eq!(
                setup.storage_write,
                StorageWriteClient {
                    env_name_prefix: String::from("grpc-exe-sto-"),
                    address: String::from("storage.internal"),
                    port: 6184,
                    grpc_max_receive_len: Some(100_000_000),
                }
            );
        },
        other => panic!("unexpected answer: {:?}", other),
    }
    assert_eq!(launcher.state(), LaunchState::MempoolStarted);
}

#[test]
fn consensus_comes_last() {
    let mut launcher = launcher_in(Phase::Executor);
    assert_eq!(
        launcher.launch(LaunchEvent::ExecutorStarted),
        Ok(LaunchAction::StartConsensus(ConsensusSetup { state_sync_network_handles: 0 }))
    );
    assert_eq!(launcher.state(), LaunchState::ExecutorReady);
    assert_eq!(launcher.launch(LaunchEvent::ConsensusStarted), Ok(LaunchAction::Assemble));
    assert_eq!(launcher.phase(), Phase::Running);
    assert_eq!(launcher.state(), LaunchState::ConsensusStarted);
}

#[test]
fn node_is_put_together_when_everything_runs() {
    let launcher = launcher_in(Phase::Running);
    match launcher.into_node("runtime", "consensus", "mempool", "executor") {
        Ok(node) => {
            assert_eq!(node.runtime, "runtime");
            assert_eq!(node.consensus, "consensus");
            assert_eq!(node.mempool, "mempool");
            assert_eq!(node.executor, "executor");
        },
        Err(e) => panic!("no node: {:?}", e),
    }
}

#[test]
fn no_node_before_consensus_runs() {
    for phase in [
        Phase::Idle,
        Phase::Runtime,
        Phase::Network,
        Phase::Mempool,
        Phase::ConsensusChannel,
        Phase::Executor,
        Phase::Consensus,
    ] {
        let node = launcher_in(phase).into_node(1, 2, 3, 4);
        assert!(matches!(node, Err(NodeError::OutOfOrder)));
    }
}

#[test]
fn no_consensus_start_before_the_network_has_started() {
    // The network start is slow: everything else is reported first.
    let mut launcher = launcher_in(Phase::Network);
    for early in [
        LaunchEvent::MempoolStarted,
        LaunchEvent::ConsensusRegistered,
        LaunchEvent::ExecutorStarted,
        LaunchEvent::ConsensusStarted,
        LaunchEvent::Begin,
        LaunchEvent::RuntimeStarted,
    ] {
        assert_eq!(launcher.launch(early), Err(NodeError::OutOfOrder));
        assert_eq!(launcher.phase(), Phase::Network);
    }
    // Only after the completion signal does the launch go on, and the
    // consensus start is still three steps away.
    let mut steps = Vec::new();
    for event in [
        LaunchEvent::NetworkStarted,
        LaunchEvent::MempoolStarted,
        LaunchEvent::ConsensusRegistered,
        LaunchEvent::ExecutorStarted,
    ] {
        match launcher.launch(event) {
            Ok(LaunchAction::StartMempool(_)) => steps.push("mempool"),
            Ok(LaunchAction::RegisterConsensus(_)) => steps.push("consensus channel"),
            Ok(LaunchAction::StartExecutor(_)) => steps.push("executor"),
            Ok(LaunchAction::StartConsensus(_)) => steps.push("consensus"),
            other => panic!("unexpected answer: {:?}", other),
        }
    }
    assert_eq!(steps, vec!["mempool", "consensus channel", "executor", "consensus"]);
}

#[test]
fn reports_out_of_order_change_nothing() {
    let mut launcher = launcher();
    assert_eq!(launcher.launch(LaunchEvent::ConsensusStarted), Err(NodeError::OutOfOrder));
    assert_eq!(launcher.launch(LaunchEvent::Failed), Err(NodeError::OutOfOrder));
    assert_eq!(launcher.phase(), Phase::Idle);
    let mut running = launcher_in(Phase::Running);
    assert_eq!(running.launch(LaunchEvent::Begin), Err(NodeError::OutOfOrder));
    assert_eq!(running.launch(LaunchEvent::Failed), Err(NodeError::OutOfOrder));
    assert_eq!(running.phase(), Phase::Running);
}

#[test]
fn a_failed_start_aborts_the_launch() {
    let cases = [
        (Phase::Runtime, Subsystem::Runtime),
        (Phase::Network, Subsystem::Network),
        (Phase::Mempool, Subsystem::Mempool),
        (Phase::ConsensusChannel, Subsystem::Network),
        (Phase::Executor, Subsystem::Executor),
        (Phase::Consensus, Subsystem::Consensus),
    ];
    for (phase, subsystem) in cases {
        let mut launcher = launcher_in(phase);
        assert_eq!(launcher.launch(LaunchEvent::Failed), Err(NodeError::Startup(subsystem)));
        assert_eq!(launcher.phase(), Phase::Aborted);
        assert_eq!(launcher.state(), LaunchState::Aborted);
        assert_eq!(launcher.launch(LaunchEvent::Begin), Err(NodeError::OutOfOrder));
        assert_eq!(launcher.launch(LaunchEvent::Failed), Err(NodeError::OutOfOrder));
        assert_eq!(launcher.phase(), Phase::Aborted);
        let node = launcher.into_node((), (), (), ());
        assert!(matches!(node, Err(NodeError::OutOfOrder)));
    }
}

#[test]
fn states_follow_the_phases() {
    assert_eq!(Phase::Idle.state(), LaunchState::Constructed);
    assert_eq!(Phase::Runtime.state(), LaunchState::Constructed);
    assert_eq!(Phase::Network.state(), LaunchState::Constructed);
    assert_eq!(Phase::Mempool.state(), LaunchState::NetworkStarted);
    assert_eq!(Phase::ConsensusChannel.state(), LaunchState::MempoolStarted);
    assert_eq!(Phase::Executor.state(), LaunchState::MempoolStarted);
    assert_eq!(Phase::Consensus.state(), LaunchState::ExecutorReady);
    assert_eq!(Phase::Running.state(), LaunchState::ConsensusStarted);
    assert_eq!(Phase::Aborted.state(), LaunchState::Aborted);
}
