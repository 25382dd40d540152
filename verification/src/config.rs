//! Configuration records of a node, as plain values.
//!
//! Keys are held as the bytes that the key generator hands out. A directory
//! of peers is a list in which no peer identifier is meant to occur twice.

use crate::address::NetAddress;
use crate::error::NodeError;
use crate::text::same_text;
use vstd::prelude::*;
use vstd::string::*;

verus! {

/// Role of a node in the network.
#[derive(Clone, Copy, Debug, PartialEq, Eq, Structural)]
pub enum RoleType {
    /// Takes part in consensus, with a signing identity.
    Validator,
    /// Follows the ledger without taking part in consensus.
    FullNode,
}

impl RoleType {
    /// The role string that stands for this role in a network config.
    pub open spec fn name_of(self) -> Seq<char> {
        match self {
            RoleType::Validator => "validator"@,
            RoleType::FullNode => "full_node"@,
        }
    }

    /// The role that a role string stands for, if any.
    pub open spec fn named(name: Seq<char>) -> Option<RoleType> {
        if name == "validator"@ {
            Some(RoleType::Validator)
        } else if name == "full_node"@ {
            Some(RoleType::FullNode)
        } else {
            None
        }
    }

    /// The role string of this role.
    pub fn name(self) -> (name: &'static str)
        ensures
            name@ == self.name_of(),
    {
        match self {
            RoleType::Validator => "validator",
            RoleType::FullNode => "full_node",
        }
    }

    /// The role that `name` stands for. Any text but the two role strings
    /// is refused with `NodeError::UnknownRole`.
    pub fn from_name(name: &str) -> (role: Result<RoleType, NodeError>)
        ensures
            match role {
                Ok(r) => RoleType::named(name@) == Some(r),
                Err(e) => e == NodeError::UnknownRole && RoleType::named(name@) is None,
            },
    {
        if same_text(name, "validator") {
            Ok(RoleType::Validator)
        } else if same_text(name, "full_node") {
            Ok(RoleType::FullNode)
        } else {
            Err(NodeError::UnknownRole)
        }
    }
}

/// A role string that was written for a role reads back as that role.
pub proof fn lemma_role_name_reads_back(role: RoleType)
    ensures
        RoleType::named(role.name_of()) == Some(role),
{
    reveal_strlit("validator");
    reveal_strlit("full_node");
    assert("validator"@[0] == 'v');
    assert("full_node"@[0] == 'f');
}

/// A role string that reads as a role is the one that is written for it.
pub proof fn lemma_role_name_is_unique(name: Seq<char>, role: RoleType)
    requires
        RoleType::named(name) == Some(role),
    ensures
        name == role.name_of(),
{
}

/// Private key of the consensus role.
#[derive(Clone, Debug, PartialEq, Eq)]
pub struct ConsensusPrivateKey {
    /// The signing key, as bytes.
    pub consensus_private_key: Vec<u8>,
}

/// Private keys of the network role.
#[derive(Clone, Debug, PartialEq, Eq)]
pub struct NetworkPrivateKeys {
    /// The signing key, as bytes.
    pub network_signing_private_key: Vec<u8>,
    /// The identity key, as bytes.
    pub network_identity_private_key: Vec<u8>,
}

/// Public key of a consensus peer.
#[derive(Clone, Debug, PartialEq, Eq)]
pub struct ConsensusPeerInfo {
    /// The signing key, as bytes.
    pub consensus_pubkey: Vec<u8>,
}

/// Public keys of a network peer.
#[derive(Clone, Debug, PartialEq, Eq)]
pub struct NetworkPeerInfo {
    /// The signing key, as bytes.
    pub network_signing_pubkey: Vec<u8>,
    /// The identity key, as bytes.
    pub network_identity_pubkey: Vec<u8>,
}

/// One entry of the directory of consensus peers.
#[derive(Clone, Debug, PartialEq, Eq)]
pub struct ConsensusPeer {
    /// Identifier of the peer.
    pub peer_id: String,
    /// Its public key.
    pub info: ConsensusPeerInfo,
}

/// One entry of the directory of network peers.
#[derive(Clone, Debug, PartialEq, Eq)]
pub struct NetworkPeer {
    /// Identifier of the peer.
    pub peer_id: String,
    /// Its public keys.
    pub info: NetworkPeerInfo,
}

/// Directory of consensus peers.
#[derive(Clone, Debug, PartialEq, Eq)]
pub struct ConsensusPeersConfig {
    /// The peers.
    pub peers: Vec<ConsensusPeer>,
}

/// Directory of network peers.
#[derive(Clone, Debug, PartialEq, Eq)]
pub struct NetworkPeersConfig {
    /// The peers.
    pub peers: Vec<NetworkPeer>,
}

/// A peer to connect to first, with the addresses at which it listens.
#[derive(Clone, Debug, PartialEq, Eq)]
pub struct SeedPeer {
    /// Identifier of the peer.
    pub peer_id: String,
    /// Where it listens.
    pub addresses: Vec<NetAddress>,
}

/// The peers to connect to first.
#[derive(Clone, Debug, PartialEq, Eq)]
pub struct SeedPeersConfig {
    /// The peers.
    pub seed_peers: Vec<SeedPeer>,
}

/// The consensus keypair as it is kept in its file.
#[derive(Clone, Debug, PartialEq, Eq)]
pub struct ConsensusKeyPair {
    /// The private key, where there is one.
    pub consensus_private_key: Option<Vec<u8>>,
}

impl ConsensusKeyPair {
    /// The keypair of the given private key.
    pub fn load(private_key: Option<Vec<u8>>) -> (pair: ConsensusKeyPair)
        ensures
            pair.consensus_private_key == private_key,
    {
        ConsensusKeyPair { consensus_private_key: private_key }
    }
}

/// The network keypairs as they are kept in their file.
///
/// The signing key can be moved out once; after that it is gone.
#[derive(Clone, Debug, PartialEq, Eq)]
pub struct NetworkKeyPairs {
    /// The signing key, until it is moved out.
    pub network_signing_private_key: Option<Vec<u8>>,
    /// The identity key.
    pub network_identity_private_key: Vec<u8>,
}

impl NetworkKeyPairs {
    /// The keypairs of the given private keys.
    pub fn load(signing_private_key: Vec<u8>, identity_private_key: Vec<u8>) -> (pairs:
        NetworkKeyPairs)
        ensures
            pairs.network_signing_private_key == Some(signing_private_key),
            pairs.network_identity_private_key == identity_private_key,
    {
        NetworkKeyPairs {
            network_signing_private_key: Some(signing_private_key),
            network_identity_private_key: identity_private_key,
        }
    }

    /// Keypairs without a signing key, as a network config holds them
    /// before its keys are loaded.
    pub fn unloaded() -> (pairs: NetworkKeyPairs)
        ensures
            pairs.network_signing_private_key is None,
            pairs.network_identity_private_key@.len() == 0,
    {
        NetworkKeyPairs {
            network_signing_private_key: None,
            network_identity_private_key: Vec::new(),
        }
    }

    /// Moves the signing key out, leaving none behind.
    pub fn take_network_signing_private(&mut self) -> (key: Option<Vec<u8>>)
        ensures
            key == old(self).network_signing_private_key,
            final(self).network_signing_private_key is None,
            final(self).network_identity_private_key == old(self).network_identity_private_key,
    {
        self.network_signing_private_key.take()
    }
}

/// Consensus section of a node config.
#[derive(Clone, Debug, PartialEq, Eq)]
pub struct ConsensusConfig {
    /// File that holds the consensus keypair, relative to the node config.
    pub consensus_keypair_file: String,
}

/// One network section of a node config.
#[derive(Clone, Debug, PartialEq, Eq)]
pub struct NetworkConfig {
    /// Identifier of this node as a peer.
    pub peer_id: String,
    /// Role string: `validator` or `full_node`.
    pub role: String,
    /// Address to listen on.
    pub listen_address: NetAddress,
    /// Address to advertise to the network.
    pub advertised_address: NetAddress,
    /// Whether only known peers may connect.
    pub is_permissioned: bool,
    /// File that holds the network keypairs, relative to the node config.
    pub network_keypairs_file: String,
    /// The network keypairs, once loaded.
    pub network_keypairs: NetworkKeyPairs,
    /// The peers that this node trusts.
    pub network_peers: NetworkPeersConfig,
    /// The peers to connect to first.
    pub seed_peers: SeedPeersConfig,
    /// Time between two rounds of peer discovery, in milliseconds.
    pub discovery_interval_ms: u64,
    /// Time between two connectivity checks, in milliseconds.
    pub connectivity_check_interval_ms: u64,
}

/// Storage section of a node config: where the storage service listens.
#[derive(Clone, Debug, PartialEq, Eq)]
pub struct StorageConfig {
    /// Host of the storage service.
    pub address: String,
    /// Port of the storage service.
    pub port: u16,
    /// Largest message that a storage client accepts, if limited.
    pub grpc_max_receive_len: Option<i32>,
}

/// Mempool section of a node config: where the mempool service listens.
#[derive(Clone, Debug, PartialEq, Eq)]
pub struct MempoolConfig {
    /// Host of the mempool service.
    pub address: String,
    /// Port of the mempool service.
    pub mempool_service_port: u16,
}

/// Aggregate config of a node.
#[derive(Clone, Debug, PartialEq, Eq)]
pub struct NodeConfig {
    /// Network sections; a node that is launched has exactly one.
    pub networks: Vec<NetworkConfig>,
    /// Consensus section.
    pub consensus: ConsensusConfig,
    /// Storage section.
    pub storage: StorageConfig,
    /// Mempool section.
    pub mempool: MempoolConfig,
}

} // verus!
