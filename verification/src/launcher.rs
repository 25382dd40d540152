//! Launcher: brings the subsystems of a node up, one after the other.
//!
//! The launcher starts nothing itself. It says which step comes next and
//! with which settings; the caller performs the step and reports how it
//! went. The order is fixed: task runtime, network, mempool, the network
//! channel for consensus, executor, consensus. Consensus waits for state
//! synchronization, which waits for the network to report peers, so a
//! consensus engine that was started before the network would wait forever.

use crate::address::NetAddress;
use crate::config::{
    ConsensusConfig, MempoolConfig, NetworkConfig, NetworkKeyPairs, NetworkPeer, NodeConfig,
    RoleType, SeedPeer, StorageConfig,
};
use crate::error::{NodeError, Subsystem};
use crate::node::Node;
use crate::storage::{StorageReadClient, StorageWriteClient};
use crate::transaction::NewVerifier;
use vstd::prelude::*;
use vstd::string::*;

verus! {

/// A protocol that the network carries for one of the subsystems.
#[derive(Clone, Copy, Debug, PartialEq, Eq, Structural)]
pub enum ProtocolId {
    /// Requests and responses of consensus.
    ConsensusRpc,
    /// One-way messages of consensus.
    ConsensusDirectSend,
    /// One-way messages of the mempool.
    MempoolDirectSend,
    /// Messages of state synchronization.
    StateSynchronizerMsg,
    /// Requests and responses of admission control.
    AdmissionControlRpc,
}

/// How far a launch has come.
#[derive(Clone, Copy, Debug, PartialEq, Eq, Structural)]
pub enum LaunchState {
    /// Nothing is known to run yet.
    Constructed,
    /// The network transport listens.
    NetworkStarted,
    /// The mempool runs on its network channel.
    MempoolStarted,
    /// The executor is ready, and the consensus channel is reserved.
    ExecutorReady,
    /// Consensus runs: the node is up.
    ConsensusStarted,
    /// A subsystem failed to start; the launch is over.
    Aborted,
}

/// What the launcher waits for.
#[derive(Clone, Copy, Debug, PartialEq, Eq, Structural)]
pub enum Phase {
    /// For the word to begin.
    Idle,
    /// For the task runtime to be up.
    Runtime,
    /// For the network transport to listen.
    Network,
    /// For the mempool to run.
    Mempool,
    /// For the consensus channel to be registered with the network.
    ConsensusChannel,
    /// For the executor to be ready.
    Executor,
    /// For consensus to run.
    Consensus,
    /// For nothing: the node is up.
    Running,
    /// For nothing: the launch was aborted.
    Aborted,
}

/// What the caller reports to the launcher.
#[derive(Clone, Copy, Debug, PartialEq, Eq, Structural)]
pub enum LaunchEvent {
    /// The launch may begin.
    Begin,
    /// The task runtime is up.
    RuntimeStarted,
    /// The network transport listens.
    NetworkStarted,
    /// The mempool runs.
    MempoolStarted,
    /// The consensus channel is registered.
    ConsensusRegistered,
    /// The executor is ready.
    ExecutorStarted,
    /// Consensus runs.
    ConsensusStarted,
    /// The step that was asked for last has failed.
    Failed,
}

/// A step of the launch, without its settings.
#[derive(Clone, Copy, Debug, PartialEq, Eq, Structural)]
pub enum Step {
    /// Start the task runtime.
    StartRuntime,
    /// Start the network transport.
    StartNetwork,
    /// Register the mempool's channel and start the mempool.
    StartMempool,
    /// Register the channel for consensus traffic.
    RegisterConsensus,
    /// Start the executor.
    StartExecutor,
    /// Start the consensus provider.
    StartConsensus,
    /// Put the node together from the four handles.
    Assemble,
}

impl Phase {
    /// Position of the phase in a launch.
    pub open spec fn rank(self) -> nat {
        match self {
            Phase::Idle => 0,
            Phase::Runtime => 1,
            Phase::Network => 2,
            Phase::Mempool => 3,
            Phase::ConsensusChannel => 4,
            Phase::Executor => 5,
            Phase::Consensus => 6,
            Phase::Running => 7,
            Phase::Aborted => 8,
        }
    }

    /// The report that ends the phase.
    pub open spec fn awaited(self) -> Option<LaunchEvent> {
        match self {
            Phase::Idle => Some(LaunchEvent::Begin),
            Phase::Runtime => Some(LaunchEvent::RuntimeStarted),
            Phase::Network => Some(LaunchEvent::NetworkStarted),
            Phase::Mempool => Some(LaunchEvent::MempoolStarted),
            Phase::ConsensusChannel => Some(LaunchEvent::ConsensusRegistered),
            Phase::Executor => Some(LaunchEvent::ExecutorStarted),
            Phase::Consensus => Some(LaunchEvent::ConsensusStarted),
            Phase::Running => None,
            Phase::Aborted => None,
        }
    }

    /// The subsystem whose start is under way in the phase.
    pub open spec fn pending(self) -> Option<Subsystem> {
        match self {
            Phase::Idle => None,
            Phase::Runtime => Some(Subsystem::Runtime),
            Phase::Network => Some(Subsystem::Network),
            Phase::Mempool => Some(Subsystem::Mempool),
            Phase::ConsensusChannel => Some(Subsystem::Network),
            Phase::Executor => Some(Subsystem::Executor),
            Phase::Consensus => Some(Subsystem::Consensus),
            Phase::Running => None,
            Phase::Aborted => None,
        }
    }

    /// The phase that follows when the awaited report comes.
    pub open spec fn successor(self) -> Phase {
        match self {
            Phase::Idle => Phase::Runtime,
            Phase::Runtime => Phase::Network,
            Phase::Network => Phase::Mempool,
            Phase::Mempool => Phase::ConsensusChannel,
            Phase::ConsensusChannel => Phase::Executor,
            Phase::Executor => Phase::Consensus,
            Phase::Consensus => Phase::Running,
            Phase::Running => Phase::Running,
            Phase::Aborted => Phase::Aborted,
        }
    }

    /// The step that is asked for when the phase ends as awaited.
    pub open spec fn step(self) -> Option<Step> {
        match self {
            Phase::Idle => Some(Step::StartRuntime),
            Phase::Runtime => Some(Step::StartNetwork),
            Phase::Network => Some(Step::StartMempool),
            Phase::Mempool => Some(Step::RegisterConsensus),
            Phase::ConsensusChannel => Some(Step::StartExecutor),
            Phase::Executor => Some(Step::StartConsensus),
            Phase::Consensus => Some(Step::Assemble),
            Phase::Running => None,
            Phase::Aborted => None,
        }
    }

    /// How far the launch has come in the phase.
    pub open spec fn state_of(self) -> LaunchState {
        match self {
            Phase::Idle => LaunchState::Constructed,
            Phase::Runtime => LaunchState::Constructed,
            Phase::Network => LaunchState::Constructed,
            Phase::Mempool => LaunchState::NetworkStarted,
            Phase::ConsensusChannel => LaunchState::MempoolStarted,
            Phase::Executor => LaunchState::MempoolStarted,
            Phase::Consensus => LaunchState::ExecutorReady,
            Phase::Running => LaunchState::ConsensusStarted,
            Phase::Aborted => LaunchState::Aborted,
        }
    }

    /// How far the launch has come in the phase.
    pub fn state(self) -> (state: LaunchState)
        ensures
            state == self.state_of(),
    {
        match self {
            Phase::Idle => LaunchState::Constructed,
            Phase::Runtime => LaunchState::Constructed,
            Phase::Network => LaunchState::Constructed,
            Phase::Mempool => LaunchState::NetworkStarted,
            Phase::ConsensusChannel => LaunchState::MempoolStarted,
            Phase::Executor => LaunchState::MempoolStarted,
            Phase::Consensus => LaunchState::ExecutorReady,
            Phase::Running => LaunchState::ConsensusStarted,
            Phase::Aborted => LaunchState::Aborted,
        }
    }
}

/// The phase after `event` was reported in `phase`. The awaited report
/// moves on to the next phase; a failure while a start is under way aborts;
/// any other report changes nothing.
pub open spec fn next_phase(phase: Phase, event: LaunchEvent) -> Phase {
    if phase.awaited() == Some(event) {
        phase.successor()
    } else if event == LaunchEvent::Failed && phase.pending() is Some {
        Phase::Aborted
    } else {
        phase
    }
}

/// What the launcher answers when `event` is reported in `phase`: the next
/// step, the failed start, or that the report is out of order.
pub open spec fn answer(phase: Phase, event: LaunchEvent) -> Result<Step, NodeError> {
    if phase.awaited() == Some(event) {
        Ok(phase.step()->0)
    } else if event == LaunchEvent::Failed && phase.pending() is Some {
        Err(NodeError::Startup(phase.pending()->0))
    } else {
        Err(NodeError::OutOfOrder)
    }
}

/// The phase of a launcher to which `events` were reported, in order,
/// since it was made.
pub open spec fn phase_after(events: Seq<LaunchEvent>) -> Phase
    decreases events.len(),
{
    if events.len() == 0 {
        Phase::Idle
    } else {
        next_phase(phase_after(events.drop_last()), events.last())
    }
}

/// What the launcher answered to the report at position `at` of `events`.
pub open spec fn answer_at(events: Seq<LaunchEvent>, at: int) -> Result<Step, NodeError> {
    answer(phase_after(events.take(at)), events[at])
}

/// No report takes a launch back: the phase stays, moves on by one, or the
/// launch is aborted.
pub proof fn lemma_no_way_back(phase: Phase, event: LaunchEvent)
    ensures
        next_phase(phase, event).rank() >= phase.rank(),
        next_phase(phase, event) == phase || next_phase(phase, event).rank() == phase.rank() + 1
            || next_phase(phase, event) == Phase::Aborted,
        phase == Phase::Running || phase == Phase::Aborted ==> next_phase(phase, event) == phase,
{
}

/// The launch states follow one another in one line: a report leaves the
/// state as it is, moves it on to the next, or aborts the launch.
pub proof fn lemma_states_in_line(phase: Phase, event: LaunchEvent)
    ensures
        ({
            let before = phase.state_of();
            let after = next_phase(phase, event).state_of();
            ||| after == before
            ||| after == LaunchState::Aborted
            ||| before == LaunchState::Constructed && after == LaunchState::NetworkStarted
            ||| before == LaunchState::NetworkStarted && after == LaunchState::MempoolStarted
            ||| before == LaunchState::MempoolStarted && after == LaunchState::ExecutorReady
            ||| before == LaunchState::ExecutorReady && after == LaunchState::ConsensusStarted
        }),
{
}

/// A step is asked for exactly when the phase moves on by one, and a
/// failure is answered exactly when the launch is aborted by the report.
pub proof fn lemma_answer_follows_phase(phase: Phase, event: LaunchEvent)
    ensures
        answer(phase, event) is Ok <==> next_phase(phase, event).rank() == phase.rank() + 1,
        answer(phase, event) matches Err(NodeError::Startup(_)) <==> phase != Phase::Aborted
            && next_phase(phase, event) == Phase::Aborted,
        answer(phase, event) == Err::<Step, NodeError>(NodeError::OutOfOrder) <==> next_phase(
            phase,
            event,
        ) == phase,
{
}

/// Whatever was reported: a launch that has come as far as `phase` was
/// told, at some earlier point and while it waited for just that, that
/// each phase before `phase` had ended.
pub proof fn lemma_phases_in_order(events: Seq<LaunchEvent>, earlier: Phase)
    requires
        earlier.rank() < phase_after(events).rank(),
        phase_after(events) != Phase::Aborted,
    ensures
        exists|at: int|
            0 <= at < events.len() && phase_after(#[trigger] events.take(at)) == earlier
                && earlier.awaited() == Some(events[at]),
    decreases events.len(),
{
    if events.len() == 0 {
    } else {
        let before = events.drop_last();
        let last = events.len() - 1;
        assert(events.take(last) =~= before);
        let phase = phase_after(before);
        if next_phase(phase, events.last()) == phase {
            lemma_phases_in_order(before, earlier);
            let at = choose|at: int|
                0 <= at < before.len() && phase_after(#[trigger] before.take(at)) == earlier
                    && earlier.awaited() == Some(before[at]);
            assert(events.take(at) =~= before.take(at));
        } else if earlier == phase {
            assert(phase_after(events.take(last)) == earlier);
        } else {
            lemma_phases_in_order(before, earlier);
            let at = choose|at: int|
                0 <= at < before.len() && phase_after(#[trigger] before.take(at)) == earlier
                    && earlier.awaited() == Some(before[at]);
            assert(events.take(at) =~= before.take(at));
        }
    }
}

/// Consensus is never asked to start before the network has reported that
/// it listens: whatever is reported to a launcher, where it answers with
/// the step that starts consensus, an earlier report said that the network
/// had started, and the launcher was waiting for that report then.
pub proof fn lemma_consensus_after_network(events: Seq<LaunchEvent>, at: int)
    requires
        0 <= at < events.len(),
        answer_at(events, at) == Ok::<Step, NodeError>(Step::StartConsensus),
    ensures
        exists|before: int|
            0 <= before < at && events[before] == LaunchEvent::NetworkStarted && phase_after(
                #[trigger] events.take(before),
            ) == Phase::Network,
{
    let prefix = events.take(at);
    assert(phase_after(prefix) == Phase::Executor);
    lemma_phases_in_order(prefix, Phase::Network);
    let before = choose|before: int|
        0 <= before < prefix.len() && phase_after(#[trigger] prefix.take(before))
            == Phase::Network && Phase::Network.awaited() == Some(prefix[before]);
    assert(prefix.take(before) =~= events.take(before));
}

/// Consensus comes last: whatever is reported to a launcher, where it
/// answers with the step that starts consensus, it was told before that
/// the runtime, the network, the mempool, the consensus channel and the
/// executor were up, each while it waited for just that.
pub proof fn lemma_consensus_comes_last(events: Seq<LaunchEvent>, at: int, earlier: Phase)
    requires
        0 <= at < events.len(),
        answer_at(events, at) == Ok::<Step, NodeError>(Step::StartConsensus),
        earlier.rank() <= Phase::Executor.rank(),
    ensures
        exists|before: int|
            0 <= before <= at && earlier.awaited() == Some(events[before]) && phase_after(
                #[trigger] events.take(before),
            ) == earlier,
{
    let prefix = events.take(at);
    assert(phase_after(prefix) == Phase::Executor);
    if earlier == Phase::Executor {
        assert(phase_after(events.take(at)) == earlier);
    } else {
        lemma_phases_in_order(prefix, earlier);
        let before = choose|before: int|
            0 <= before < prefix.len() && phase_after(#[trigger] prefix.take(before)) == earlier
                && earlier.awaited() == Some(prefix[before]);
        assert(prefix.take(before) =~= events.take(before));
    }
}

/// Settings of the task runtime.
#[derive(Clone, Copy, Debug, PartialEq, Eq)]
pub struct RuntimeSetup {
    /// Prefix of the names of the runtime's worker threads.
    pub name_prefix: &'static str,
}

/// Settings of the network transport.
#[derive(Debug, PartialEq, Eq)]
pub struct NetworkSetup<'a> {
    /// Identifier of this node as a peer, as the bytes that it parsed to.
    pub peer_id: &'a Vec<u8>,
    /// Role of this node.
    pub role: RoleType,
    /// Address to listen on.
    pub listen_address: &'a NetAddress,
    /// Address to advertise.
    pub advertised_address: &'a NetAddress,
    /// Whether only trusted peers may connect.
    pub is_permissioned: bool,
    /// Protocols for one-way messages.
    pub direct_send_protocols: Vec<ProtocolId>,
    /// Protocols for requests and responses.
    pub rpc_protocols: Vec<ProtocolId>,
    /// The peers that this node trusts.
    pub trusted_peers: &'a Vec<NetworkPeer>,
    /// The peers to connect to first.
    pub seed_peers: &'a Vec<SeedPeer>,
    /// Private identity key, for the encrypted transport.
    pub identity_private_key: &'a Vec<u8>,
    /// Private signing key, moved out of the config.
    pub signing_private_key: Vec<u8>,
    /// Time between two connectivity checks, in milliseconds.
    pub connectivity_check_interval_ms: u64,
    /// Time between two rounds of peer discovery, in milliseconds.
    pub discovery_interval_ms: u64,
}

/// Settings of the mempool.
#[derive(Debug, PartialEq, Eq)]
pub struct MempoolSetup<'a, T> {
    /// Protocols of the mempool's network channel.
    pub protocols: Vec<ProtocolId>,
    /// Prefix of the names of the mempool service's worker threads.
    pub grpc_env_name_prefix: &'static str,
    /// Number of completion queues of the mempool service.
    pub completion_queues: usize,
    /// Host on which the mempool service listens.
    pub bind_address: &'a String,
    /// Port on which the mempool service listens.
    pub bind_port: u16,
    /// The storage reader of the shared mempool; an equal one was handed
    /// to the verification provider.
    pub storage: StorageReadClient,
    /// The validator that the verification provider made.
    pub verifier: T,
}

/// Settings of the executor.
#[derive(Debug, PartialEq, Eq)]
pub struct ExecutorSetup {
    /// The executor's storage reader.
    pub storage_read: StorageReadClient,
    /// The executor's storage writer.
    pub storage_write: StorageWriteClient,
}

/// Settings of the consensus provider.
#[derive(Clone, Copy, Debug, PartialEq, Eq)]
pub struct ConsensusSetup {
    /// Number of network handles that state synchronization gets.
    pub state_sync_network_handles: usize,
}

/// The next step of a launch, with its settings.
#[derive(Debug, PartialEq, Eq)]
pub enum LaunchAction<'a, T> {
    /// Start the task runtime.
    StartRuntime(RuntimeSetup),
    /// Start the network transport.
    StartNetwork(NetworkSetup<'a>),
    /// Register the mempool's channel and start the mempool.
    StartMempool(MempoolSetup<'a, T>),
    /// Register the channel for consensus traffic, with these protocols.
    RegisterConsensus(Vec<ProtocolId>),
    /// Start the executor.
    StartExecutor(ExecutorSetup),
    /// Start the consensus provider.
    StartConsensus(ConsensusSetup),
    /// Put the node together: every subsystem runs.
    Assemble,
}

impl<'a, T> LaunchAction<'a, T> {
    /// The step of the action.
    pub open spec fn step(self) -> Step {
        match self {
            LaunchAction::StartRuntime(_) => Step::StartRuntime,
            LaunchAction::StartNetwork(_) => Step::StartNetwork,
            LaunchAction::StartMempool(_) => Step::StartMempool,
            LaunchAction::RegisterConsensus(_) => Step::RegisterConsensus,
            LaunchAction::StartExecutor(_) => Step::StartExecutor,
            LaunchAction::StartConsensus(_) => Step::StartConsensus,
            LaunchAction::Assemble => Step::Assemble,
        }
    }
}

/// The settings of the task runtime: its workers are named `synchro-`.
pub open spec fn runtime_setup(setup: RuntimeSetup) -> bool {
    setup.name_prefix@ == "synchro-"@
}

/// The network section `network` once its signing key is moved out.
pub open spec fn without_signing_key(network: NetworkConfig) -> NetworkConfig {
    NetworkConfig {
        network_keypairs: NetworkKeyPairs {
            network_signing_private_key: None,
            ..network.network_keypairs
        },
        ..network
    }
}

/// The settings with which the network transport of `network` starts, for
/// the peer `peer_id` in the given role.
pub open spec fn network_setup(
    setup: NetworkSetup,
    peer_id: Vec<u8>,
    network: NetworkConfig,
    role: RoleType,
) -> bool {
    &&& *setup.peer_id == peer_id
    &&& setup.role == role
    &&& *setup.listen_address == network.listen_address
    &&& *setup.advertised_address == network.advertised_address
    &&& setup.is_permissioned == network.is_permissioned
    &&& setup.direct_send_protocols@ == seq![
        ProtocolId::ConsensusDirectSend,
        ProtocolId::MempoolDirectSend,
        ProtocolId::StateSynchronizerMsg,
    ]
    &&& setup.rpc_protocols@ == seq![ProtocolId::ConsensusRpc, ProtocolId::AdmissionControlRpc]
    &&& *setup.trusted_peers == network.network_peers.peers
    &&& *setup.seed_peers == network.seed_peers.seed_peers
    &&& *setup.identity_private_key == network.network_keypairs.network_identity_private_key
    &&& Some(setup.signing_private_key) == network.network_keypairs.network_signing_private_key
    &&& setup.connectivity_check_interval_ms == network.connectivity_check_interval_ms
    &&& setup.discovery_interval_ms == network.discovery_interval_ms
}

/// The storage reader of the mempool: on this host, at the port of the
/// storage section.
pub open spec fn mempool_storage(client: StorageReadClient, storage: StorageConfig) -> bool {
    &&& client.env_name_prefix@ == "grpc-mem-sto-"@
    &&& client.address@ == "localhost"@
    &&& client.port == storage.port
}

/// The settings with which the mempool starts.
pub open spec fn mempool_setup<T>(
    setup: MempoolSetup<T>,
    mempool: MempoolConfig,
    storage: StorageConfig,
) -> bool {
    &&& setup.protocols@ == seq![ProtocolId::MempoolDirectSend]
    &&& setup.grpc_env_name_prefix@ == "grpc-mempool-"@
    &&& setup.completion_queues == 2
    &&& *setup.bind_address == mempool.address
    &&& setup.bind_port == mempool.mempool_service_port
    &&& mempool_storage(setup.storage, storage)
}

/// The protocols of the channel for consensus traffic.
pub open spec fn consensus_protocols() -> Seq<ProtocolId> {
    seq![ProtocolId::ConsensusRpc, ProtocolId::ConsensusDirectSend]
}

/// The settings with which the executor starts: both of its clients reach
/// the storage service of the storage section.
pub open spec fn executor_setup(setup: ExecutorSetup, storage: StorageConfig) -> bool {
    &&& setup.storage_read.env_name_prefix@ == "grpc-exe-sto-"@
    &&& setup.storage_read.address == storage.address
    &&& setup.storage_read.port == storage.port
    &&& setup.storage_write.env_name_prefix@ == "grpc-exe-sto-"@
    &&& setup.storage_write.address == storage.address
    &&& setup.storage_write.port == storage.port
    &&& setup.storage_write.grpc_max_receive_len == storage.grpc_max_receive_len
}

/// The settings with which consensus starts: state synchronization gets no
/// network handles of its own.
pub open spec fn consensus_setup(setup: ConsensusSetup) -> bool {
    setup.state_sync_network_handles == 0
}

/// The settings of the task runtime.
pub fn start_runtime() -> (setup: RuntimeSetup)
    ensures
        runtime_setup(setup),
{
    RuntimeSetup { name_prefix: "synchro-" }
}

/// What a launcher holds.
pub struct LauncherView<V> {
    /// Identifier of the node as a peer, as the bytes that it parsed to.
    pub peer_id: Vec<u8>,
    /// The one network section of the node config.
    pub network: NetworkConfig,
    /// The consensus section.
    pub consensus: ConsensusConfig,
    /// The storage section.
    pub storage: StorageConfig,
    /// The mempool section.
    pub mempool: MempoolConfig,
    /// Role of the node.
    pub role: RoleType,
    /// The verification provider.
    pub verify_provider: V,
    /// What the launcher waits for.
    pub phase: Phase,
}

/// Launches a node.
pub struct Launcher<V: NewVerifier> {
    peer_id: Vec<u8>,
    network: NetworkConfig,
    consensus: ConsensusConfig,
    storage: StorageConfig,
    mempool: MempoolConfig,
    role: RoleType,
    verify_provider: V,
    phase: Phase,
}

impl<V: NewVerifier> View for Launcher<V> {
    type V = LauncherView<V>;

    closed spec fn view(&self) -> LauncherView<V> {
        LauncherView {
            peer_id: self.peer_id,
            network: self.network,
            consensus: self.consensus,
            storage: self.storage,
            mempool: self.mempool,
            role: self.role,
            verify_provider: self.verify_provider,
            phase: self.phase,
        }
    }
}

/// Whether a launcher may be made of `node_config`, or else why not.
/// `peer_id` is what the peer id of the network section parsed to, and
/// `None` where it did not parse.
pub open spec fn launchable(node_config: NodeConfig, peer_id: Option<Vec<u8>>) -> Result<
    RoleType,
    NodeError,
> {
    if node_config.networks@.len() != 1 {
        Err(NodeError::NetworkConfigCount(node_config.networks@.len() as usize))
    } else if peer_id is None {
        Err(NodeError::InvalidPeerId)
    } else if RoleType::named(node_config.networks@[0].role@) is None {
        Err(NodeError::UnknownRole)
    } else if node_config.networks@[0].network_keypairs.network_signing_private_key is None {
        Err(NodeError::SigningKeyMissing)
    } else {
        Ok(RoleType::named(node_config.networks@[0].role@)->0)
    }
}

impl<V: NewVerifier> Launcher<V> {
    /// What holds of every launcher: its role is the one that its network
    /// section names, and the signing key is there until the network is
    /// asked to start.
    pub open spec fn wf(&self) -> bool {
        &&& RoleType::named(self@.network.role@) == Some(self@.role)
        &&& self@.phase.rank() <= Phase::Runtime.rank()
            ==> self@.network.network_keypairs.network_signing_private_key is Some
    }

    /// Makes a launcher for the node that `node_config` describes.
    ///
    /// `peer_id` is the identifier that the peer id of the network section
    /// stands for, as the bytes that the parser of account addresses gave,
    /// and `None` where the parser refused the text.
    ///
    /// The config must hold exactly one network section, with a peer id
    /// that parsed, a role string that names a role, and its signing key;
    /// `launchable` says which error comes where it does not. The launcher
    /// then waits for the word to begin.
    pub fn new(node_config: NodeConfig, peer_id: Option<Vec<u8>>, verify_provider: V) -> (launcher:
        Result<Self, NodeError>)
        ensures
            match launcher {
                Ok(l) => {
                    &&& launchable(node_config, peer_id) == Ok::<RoleType, NodeError>(l@.role)
                    &&& Some(l@.peer_id) == peer_id
                    &&& l@.network == node_config.networks@[0]
                    &&& l@.consensus == node_config.consensus
                    &&& l@.storage == node_config.storage
                    &&& l@.mempool == node_config.mempool
                    &&& l@.verify_provider == verify_provider
                    &&& l@.phase == Phase::Idle
                    &&& l.wf()
                },
                Err(e) => launchable(node_config, peer_id) == Err::<RoleType, NodeError>(e),
            },
    {
        let NodeConfig { networks, consensus, storage, mempool } = node_config;
        let mut networks = networks;
        let found = networks.len();
        if found != 1 {
            return Err(NodeError::NetworkConfigCount(found));
        }
        let network = match networks.pop() {
            Some(network) => network,
            None => {
                return Err(NodeError::NetworkConfigCount(found));
            },
        };
        let peer_id = match peer_id {
            Some(peer_id) => peer_id,
            None => {
                return Err(NodeError::InvalidPeerId);
            },
        };
        let role = match RoleType::from_name(network.role.as_str()) {
            Ok(role) => role,
            Err(e) => {
                return Err(e);
            },
        };
        if network.network_keypairs.network_signing_private_key.is_none() {
            return Err(NodeError::SigningKeyMissing);
        }
        Ok(
            Launcher {
                peer_id,
                network,
                consensus,
                storage,
                mempool,
                role,
                verify_provider,
                phase: Phase::Idle,
            },
        )
    }

    /// What the launcher waits for.
    pub fn phase(&self) -> (phase: Phase)
        ensures
            phase == self@.phase,
    {
        self.phase
    }

    /// How far the launch has come.
    pub fn state(&self) -> (state: LaunchState)
        ensures
            state == self@.phase.state_of(),
    {
        self.phase.state()
    }

    /// Identifier of the node as a peer, as the bytes that it parsed to.
    pub fn peer_id(&self) -> (peer_id: &Vec<u8>)
        ensures
            *peer_id == self@.peer_id,
    {
        &self.peer_id
    }

    /// Role of the node.
    pub fn role(&self) -> (role: RoleType)
        ensures
            role == self@.role,
    {
        self.role
    }

    /// Takes the next step of the launch.
    ///
    /// `event` reports how the step before went. Where it is the report
    /// that the launcher waits for, the launcher moves on and answers with
    /// the next step and its settings. Where it reports a failure while a
    /// start is under way, the launch is aborted for good and the answer
    /// names the subsystem. Any other report is out of order and changes
    /// nothing.
    pub fn launch(&mut self, event: LaunchEvent) -> (action: Result<
        LaunchAction<'_, V::Verifier>,
        NodeError,
    >)
        requires
            old(self).wf(),
        ensures
            final(self).wf(),
            final(self)@.phase == next_phase(old(self)@.phase, event),
            final(self)@.peer_id == old(self)@.peer_id,
            final(self)@.role == old(self)@.role,
            final(self)@.consensus == old(self)@.consensus,
            final(self)@.storage == old(self)@.storage,
            final(self)@.mempool == old(self)@.mempool,
            final(self)@.verify_provider == old(self)@.verify_provider,
            match action {
                Ok(a) => {
                    &&& answer(old(self)@.phase, event) == Ok::<Step, NodeError>(a.step())
                    &&& match a {
                        LaunchAction::StartRuntime(setup) => runtime_setup(setup),
                        LaunchAction::StartNetwork(setup) => network_setup(
                            setup,
                            old(self)@.peer_id,
                            old(self)@.network,
                            old(self)@.role,
                        ),
                        LaunchAction::StartMempool(setup) => mempool_setup(
                            setup,
                            old(self)@.mempool,
                            old(self)@.storage,
                        ) && call_ensures(
                            V::new_verifier,
                            (&old(self)@.verify_provider, setup.storage),
                            setup.verifier,
                        ),
                        LaunchAction::RegisterConsensus(protocols) => protocols@
                            == consensus_protocols(),
                        LaunchAction::StartExecutor(setup) => executor_setup(
                            setup,
                            old(self)@.storage,
                        ),
                        LaunchAction::StartConsensus(setup) => consensus_setup(setup),
                        LaunchAction::Assemble => true,
                    }
                },
                Err(e) => answer(old(self)@.phase, event) == Err::<Step, NodeError>(e),
            },
            final(self)@.network == if answer(old(self)@.phase, event) == Ok::<Step, NodeError>(
                Step::StartNetwork,
            ) {
                without_signing_key(old(self)@.network)
            } else {
                old(self)@.network
            },
    {
        match self.phase {
            Phase::Idle => {
                if event == LaunchEvent::Begin {
                    self.phase = Phase::Runtime;
                    Ok(LaunchAction::StartRuntime(start_runtime()))
                } else {
                    Err(NodeError::OutOfOrder)
                }
            },
            Phase::Runtime => {
                if event == LaunchEvent::RuntimeStarted {
                    self.phase = Phase::Network;
                    Ok(LaunchAction::StartNetwork(self.start_network_provider()))
                } else if event == LaunchEvent::Failed {
                    self.phase = Phase::Aborted;
                    Err(NodeError::Startup(Subsystem::Runtime))
                } else {
                    Err(NodeError::OutOfOrder)
                }
            },
            Phase::Network => {
                if event == LaunchEvent::NetworkStarted {
                    self.phase = Phase::Mempool;
                    Ok(LaunchAction::StartMempool(self.start_mempool()))
                } else if event == LaunchEvent::Failed {
                    self.phase = Phase::Aborted;
                    Err(NodeError::Startup(Subsystem::Network))
                } else {
                    Err(NodeError::OutOfOrder)
                }
            },
            Phase::Mempool => {
                if event == LaunchEvent::MempoolStarted {
                    self.phase = Phase::ConsensusChannel;
                    Ok(LaunchAction::RegisterConsensus(consensus_channel()))
                } else if event == LaunchEvent::Failed {
                    self.phase = Phase::Aborted;
                    Err(NodeError::Startup(Subsystem::Mempool))
                } else {
                    Err(NodeError::OutOfOrder)
                }
            },
            Phase::ConsensusChannel => {
                if event == LaunchEvent::ConsensusRegistered {
                    self.phase = Phase::Executor;
                    Ok(LaunchAction::StartExecutor(self.start_executor()))
                } else if event == LaunchEvent::Failed {
                    self.phase = Phase::Aborted;
                    Err(NodeError::Startup(Subsystem::Network))
                } else {
                    Err(NodeError::OutOfOrder)
                }
            },
            Phase::Executor => {
                if event == LaunchEvent::ExecutorStarted {
                    self.phase = Phase::Consensus;
                    Ok(LaunchAction::StartConsensus(self.start_consensus_provider()))
                } else if event == LaunchEvent::Failed {
                    self.phase = Phase::Aborted;
                    Err(NodeError::Startup(Subsystem::Executor))
                } else {
                    Err(NodeError::OutOfOrder)
                }
            },
            Phase::Consensus => {
                if event == LaunchEvent::ConsensusStarted {
                    self.phase = Phase::Running;
                    Ok(LaunchAction::Assemble)
                } else if event == LaunchEvent::Failed {
                    self.phase = Phase::Aborted;
                    Err(NodeError::Startup(Subsystem::Consensus))
                } else {
                    Err(NodeError::OutOfOrder)
                }
            },
            Phase::Running => Err(NodeError::OutOfOrder),
            Phase::Aborted => Err(NodeError::OutOfOrder),
        }
    }

    /// The settings of the network transport. The signing key is moved out
    /// of the launcher's config and into the settings.
    fn start_network_provider(&mut self) -> (setup: NetworkSetup<'_>)
        requires
            old(self)@.network.network_keypairs.network_signing_private_key is Some,
        ensures
            network_setup(setup, old(self)@.peer_id, old(self)@.network, old(self)@.role),
            final(self)@.network == without_signing_key(old(self)@.network),
            final(self)@.peer_id == old(self)@.peer_id,
            final(self)@.role == old(self)@.role,
            final(self)@.consensus == old(self)@.consensus,
            final(self)@.storage == old(self)@.storage,
            final(self)@.mempool == old(self)@.mempool,
            final(self)@.verify_provider == old(self)@.verify_provider,
            final(self)@.phase == old(self)@.phase,
    {
        let signing_private_key = match self.network.network_keypairs.take_network_signing_private() {
            Some(key) => key,
            None => vstd::pervasive::unreached(),
        };
        let mut direct_send_protocols: Vec<ProtocolId> = Vec::new();
        direct_send_protocols.push(ProtocolId::ConsensusDirectSend);
        direct_send_protocols.push(ProtocolId::MempoolDirectSend);
        direct_send_protocols.push(ProtocolId::StateSynchronizerMsg);
        let mut rpc_protocols: Vec<ProtocolId> = Vec::new();
        rpc_protocols.push(ProtocolId::ConsensusRpc);
        rpc_protocols.push(ProtocolId::AdmissionControlRpc);
        assert(direct_send_protocols@ =~= seq![
            ProtocolId::ConsensusDirectSend,
            ProtocolId::MempoolDirectSend,
            ProtocolId::StateSynchronizerMsg,
        ]);
        assert(rpc_protocols@ =~= seq![ProtocolId::ConsensusRpc, ProtocolId::AdmissionControlRpc]);
        NetworkSetup {
            peer_id: &self.peer_id,
            role: self.role,
            listen_address: &self.network.listen_address,
            advertised_address: &self.network.advertised_address,
            is_permissioned: self.network.is_permissioned,
            direct_send_protocols,
            rpc_protocols,
            trusted_peers: &self.network.network_peers.peers,
            seed_peers: &self.network.seed_peers.seed_peers,
            identity_private_key: &self.network.network_keypairs.network_identity_private_key,
            signing_private_key,
            connectivity_check_interval_ms: self.network.connectivity_check_interval_ms,
            discovery_interval_ms: self.network.discovery_interval_ms,
        }
    }

    /// The settings of the mempool. The verification provider is asked
    /// for a validator that reads through the mempool's storage reader.
    fn start_mempool(&self) -> (setup: MempoolSetup<'_, V::Verifier>)
        ensures
            mempool_setup(setup, self@.mempool, self@.storage),
            call_ensures(
                V::new_verifier,
                (&self@.verify_provider, setup.storage),
                setup.verifier,
            ),
    {
        let mut protocols: Vec<ProtocolId> = Vec::new();
        protocols.push(ProtocolId::MempoolDirectSend);
        assert(protocols@ =~= seq![ProtocolId::MempoolDirectSend]);
        let storage = StorageReadClient {
            env_name_prefix: String::from_str("grpc-mem-sto-"),
            address: String::from_str("localhost"),
            port: self.storage.port,
        };
        let verifier = self.verify_provider.new_verifier(storage.clone());
        MempoolSetup {
            protocols,
            grpc_env_name_prefix: "grpc-mempool-",
            completion_queues: 2,
            bind_address: &self.mempool.address,
            bind_port: self.mempool.mempool_service_port,
            storage,
            verifier,
        }
    }

    /// The settings of the executor.
    fn start_executor(&self) -> (setup: ExecutorSetup)
        ensures
            executor_setup(setup, self@.storage),
    {
        let storage_read = StorageReadClient {
            env_name_prefix: String::from_str("grpc-exe-sto-"),
            address: self.storage.address.clone(),
            port: self.storage.port,
        };
        let storage_write = StorageWriteClient {
            env_name_prefix: String::from_str("grpc-exe-sto-"),
            address: self.storage.address.clone(),
            port: self.storage.port,
            grpc_max_receive_len: self.storage.grpc_max_receive_len,
        };
        ExecutorSetup { storage_read, storage_write }
    }

    /// The settings of the consensus provider.
    fn start_consensus_provider(&self) -> (setup: ConsensusSetup)
        ensures
            consensus_setup(setup),
    {
        ConsensusSetup { state_sync_network_handles: 0 }
    }

    /// Puts the node together from the handles of its four parts.
    ///
    /// There is a node only where every subsystem runs: at any other point
    /// of a launch the handles are dropped and the call fails with
    /// `NodeError::OutOfOrder`.
    pub fn into_node<R, C, M, E>(self, runtime: R, consensus: C, mempool: M, executor: E) -> (node:
        Result<Node<R, C, M, E>, NodeError>)
        ensures
            match node {
                Ok(n) => {
                    &&& self@.phase == Phase::Running
                    &&& n.runtime == runtime
                    &&& n.consensus == consensus
                    &&& n.mempool == mempool
                    &&& n.executor == executor
                },
                Err(e) => e == NodeError::OutOfOrder && self@.phase != Phase::Running,
            },
    {
        match self.phase {
            Phase::Running => Ok(Node { runtime, consensus, mempool, executor }),
            _ => Err(NodeError::OutOfOrder),
        }
    }
}

/// The protocols of the channel for consensus traffic.
pub fn consensus_channel() -> (protocols: Vec<ProtocolId>)
    ensures
        protocols@ == consensus_protocols(),
{
    let mut protocols: Vec<ProtocolId> = Vec::new();
    protocols.push(ProtocolId::ConsensusRpc);
    protocols.push(ProtocolId::ConsensusDirectSend);
    assert(protocols@ =~= consensus_protocols());
    protocols
}

} // verus!
