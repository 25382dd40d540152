//! Configuration builder: from a key seed and a few placement settings to
//! the configuration records of one validator.
//!
//! The builder writes no file. What is to be written comes back as a
//! `ConfigFile`: the location below the output directory, and the contents.
//! The keys themselves come from the node runtime's key generator, which the
//! caller runs on the seed that the builder derives.

use crate::address::{
    ipv4_address, parse_multiaddr_from_ipv4, NetAddress, DEFAULT_LISTEN_ADDRESS, DEFAULT_PORT,
};
use crate::config::{
    ConsensusConfig, ConsensusKeyPair, ConsensusPeer, ConsensusPeerInfo, ConsensusPeersConfig,
    ConsensusPrivateKey, MempoolConfig, NetworkConfig, NetworkKeyPairs, NetworkPeer,
    NetworkPeerInfo, NetworkPeersConfig, NetworkPrivateKeys, NodeConfig, RoleType, StorageConfig,
};
use crate::error::NodeError;
use crate::key_seed::{derivation_path, derived_subkey, valid_component, KeySeed};
use crate::path::{join, joined, ConfigFile};
use crate::peer_info::PeerInfo;
use vstd::prelude::*;
use vstd::string::*;

verus! {

/// The default listen address, if the multiaddr parser takes it.
pub open spec fn default_address() -> Option<Seq<char>> {
    ipv4_address(DEFAULT_LISTEN_ADDRESS@, DEFAULT_PORT)
}

/// What is asked of the key generator: so many validators, from this seed.
#[derive(Clone, Debug, PartialEq, Eq)]
pub struct ValidatorKeyRequest {
    /// Seed of the key generator.
    pub seed: [u8; 32],
    /// Number of validators to generate keys for.
    pub validators: usize,
}

/// The keys that the key generator made for one validator.
#[derive(Clone, Debug, PartialEq, Eq)]
pub struct GeneratedValidator {
    /// Account of the validator, which is also its peer identifier.
    pub account: String,
    /// Private keys of the validator.
    pub consensus_private_key: ConsensusPrivateKey,
    /// Private keys of the validator's network role.
    pub network_private_keys: NetworkPrivateKeys,
    /// Public key of the consensus role.
    pub consensus_peer: ConsensusPeerInfo,
    /// Public keys of the network role.
    pub network_peer: NetworkPeerInfo,
}

/// The private keys of one account.
#[derive(Clone, Debug, PartialEq, Eq)]
pub struct AccountKeys {
    /// The account.
    pub account: String,
    /// Private key of its consensus role.
    pub consensus_private_key: ConsensusPrivateKey,
    /// Private keys of its network role.
    pub network_private_keys: NetworkPrivateKeys,
}

/// Keys and peer directories of the generated validators.
#[derive(Clone, Debug, PartialEq, Eq)]
pub struct ValidatorConfigs {
    /// Private keys, by account.
    pub private_keys: Vec<AccountKeys>,
    /// Directory of the consensus peers.
    pub consensus_peers: ConsensusPeersConfig,
    /// Directory of the network peers.
    pub network_peers: NetworkPeersConfig,
}

impl ValidatorKeyRequest {
    /// Takes what the key generator made and lays it out as private keys
    /// by account and as the two peer directories.
    ///
    /// The generator must have made exactly the validators that were asked
    /// for, which is one; anything else is refused with
    /// `NodeError::ValidatorCount`.
    pub fn configs(&self, generated: Vec<GeneratedValidator>) -> (configs: Result<
        ValidatorConfigs,
        NodeError,
    >)
        ensures
            match configs {
                Ok(c) => {
                    &&& generated@.len() == 1
                    &&& self.validators == 1
                    &&& c.private_keys@.len() == 1
                    &&& c.private_keys@[0].account@ == generated@[0].account@
                    &&& c.private_keys@[0].consensus_private_key
                        == generated@[0].consensus_private_key
                    &&& c.private_keys@[0].network_private_keys
                        == generated@[0].network_private_keys
                    &&& c.consensus_peers.peers@.len() == 1
                    &&& c.consensus_peers.peers@[0].peer_id@ == generated@[0].account@
                    &&& c.consensus_peers.peers@[0].info == generated@[0].consensus_peer
                    &&& c.network_peers.peers@.len() == 1
                    &&& c.network_peers.peers@[0].peer_id@ == generated@[0].account@
                    &&& c.network_peers.peers@[0].info == generated@[0].network_peer
                },
                Err(e) => e == NodeError::ValidatorCount && (generated@.len() != 1
                    || self.validators != 1),
            },
    {
        let mut generated = generated;
        if generated.len() != 1 || self.validators != 1 {
            return Err(NodeError::ValidatorCount);
        }
        let validator = match generated.pop() {
            Some(validator) => validator,
            None => {
                return Err(NodeError::ValidatorCount);
            },
        };
        let GeneratedValidator {
            account,
            consensus_private_key,
            network_private_keys,
            consensus_peer,
            network_peer,
        } = validator;
        let mut consensus_peers: Vec<ConsensusPeer> = Vec::new();
        consensus_peers.push(ConsensusPeer { peer_id: account.clone(), info: consensus_peer });
        let mut network_peers: Vec<NetworkPeer> = Vec::new();
        network_peers.push(NetworkPeer { peer_id: account.clone(), info: network_peer });
        let mut private_keys: Vec<AccountKeys> = Vec::new();
        private_keys.push(AccountKeys { account, consensus_private_key, network_private_keys });
        Ok(
            ValidatorConfigs {
                private_keys,
                consensus_peers: ConsensusPeersConfig { peers: consensus_peers },
                network_peers: NetworkPeersConfig { peers: network_peers },
            },
        )
    }
}

/// What a builder is set to.
pub struct BuilderView {
    /// Entropy of the key seed.
    pub key_seed: Seq<u8>,
    /// Output directory.
    pub output_dir: Seq<char>,
    /// Address to listen on.
    pub listen_address: Seq<char>,
    /// Address to advertise to the network.
    pub advertised_address: Seq<char>,
    /// Role of the node.
    pub role: RoleType,
    /// Whether the network is permissioned.
    pub is_permissioned: bool,
    /// Seed address for the peer info, if any.
    pub seed_address: Option<Seq<char>>,
}

/// Configuration builder.
pub struct Builder {
    key_seed: KeySeed,
    output_dir: String,
    listen_address: NetAddress,
    advertised_address: NetAddress,
    role: RoleType,
    is_permissioned: bool,
    seed_address: Option<NetAddress>,
}

impl View for Builder {
    type V = BuilderView;

    closed spec fn view(&self) -> BuilderView {
        BuilderView {
            key_seed: self.key_seed@,
            output_dir: self.output_dir@,
            listen_address: self.listen_address@,
            advertised_address: self.advertised_address@,
            role: self.role,
            is_permissioned: self.is_permissioned,
            seed_address: match self.seed_address {
                Some(address) => Some(address@),
                None => None,
            },
        }
    }
}

/// The network config that a builder makes for `peer_id` out of
/// `defaults`: identifier, role string, addresses and permission flag are
/// the builder's, everything else is as in `defaults`.
pub open spec fn built_network_config(
    config: NetworkConfig,
    builder: BuilderView,
    peer_id: Seq<char>,
    defaults: NetworkConfig,
) -> bool {
    &&& config.peer_id@ == peer_id
    &&& config.role@ == builder.role.name_of()
    &&& config.listen_address@ == builder.listen_address
    &&& config.advertised_address@ == builder.advertised_address
    &&& config.is_permissioned == builder.is_permissioned
    &&& config.network_keypairs_file == defaults.network_keypairs_file
    &&& config.network_keypairs == defaults.network_keypairs
    &&& config.network_peers == defaults.network_peers
    &&& config.seed_peers == defaults.seed_peers
    &&& config.discovery_interval_ms == defaults.discovery_interval_ms
    &&& config.connectivity_check_interval_ms == defaults.connectivity_check_interval_ms
}

impl Builder {
    /// A builder for the given key seed: it writes to the current
    /// directory, listens on and advertises the default address at the
    /// default port, and builds a validator of a permissioned network,
    /// without a seed address.
    ///
    /// Fails with `NodeError::AddressParse` where the multiaddr parser
    /// refuses the default address.
    pub fn new(key_seed: KeySeed) -> (builder: Result<Builder, NodeError>)
        ensures
            match builder {
                Ok(b) => {
                    &&& default_address() == Some(b@.listen_address)
                    &&& b@.key_seed == key_seed@
                    &&& b@.output_dir == "."@
                    &&& b@.advertised_address == b@.listen_address
                    &&& b@.role == RoleType::Validator
                    &&& b@.is_permissioned
                    &&& b@.seed_address is None
                },
                Err(e) => e == NodeError::AddressParse && default_address()
                    is None,
            },
    {
        let listen_address = match parse_multiaddr_from_ipv4(DEFAULT_LISTEN_ADDRESS, DEFAULT_PORT) {
            Ok(address) => address,
            Err(e) => {
                return Err(e);
            },
        };
        let advertised_address = listen_address.clone();
        Ok(
            Builder {
                key_seed,
                output_dir: String::from_str("."),
                listen_address,
                advertised_address,
                role: RoleType::Validator,
                is_permissioned: true,
                seed_address: None,
            },
        )
    }

    /// Sets the output directory.
    pub fn with_output_dir(&mut self, output_dir: &str)
        ensures
            final(self)@ == (BuilderView { output_dir: output_dir@, ..old(self)@ }),
    {
        self.output_dir = String::from_str(output_dir);
    }

    /// Sets the address to listen on, at the default port. Where the
    /// address does not parse, the call fails with
    /// `NodeError::AddressParse` and the builder stays as it was.
    pub fn with_listen_address(&mut self, listen_address: &str) -> (set: Result<(), NodeError>)
        ensures
            match set {
                Ok(_) => {
                    &&& ipv4_address(listen_address@, DEFAULT_PORT)
                        == Some(final(self)@.listen_address)
                    &&& final(self)@ == (BuilderView {
                        listen_address: final(self)@.listen_address,
                        ..old(self)@
                    })
                },
                Err(e) => {
                    &&& e == NodeError::AddressParse
                    &&& ipv4_address(listen_address@, DEFAULT_PORT)
                        is None
                    &&& final(self)@ == old(self)@
                },
            },
    {
        match parse_multiaddr_from_ipv4(listen_address, DEFAULT_PORT) {
            Ok(address) => {
                self.listen_address = address;
                Ok(())
            },
            Err(e) => Err(e),
        }
    }

    /// Sets the address to advertise, at the default port. Where the
    /// address does not parse, the call fails with
    /// `NodeError::AddressParse` and the builder stays as it was.
    pub fn with_advertised_address(&mut self, advertised_address: &str) -> (set: Result<
        (),
        NodeError,
    >)
        ensures
            match set {
                Ok(_) => {
                    &&& ipv4_address(advertised_address@, DEFAULT_PORT)
                        == Some(final(self)@.advertised_address)
                    &&& final(self)@ == (BuilderView {
                        advertised_address: final(self)@.advertised_address,
                        ..old(self)@
                    })
                },
                Err(e) => {
                    &&& e == NodeError::AddressParse
                    &&& ipv4_address(advertised_address@, DEFAULT_PORT)
                        is None
                    &&& final(self)@ == old(self)@
                },
            },
    {
        match parse_multiaddr_from_ipv4(advertised_address, DEFAULT_PORT) {
            Ok(address) => {
                self.advertised_address = address;
                Ok(())
            },
            Err(e) => Err(e),
        }
    }

    /// Says whether the network is permissioned. Only permissioned
    /// networks exist: asking for another fails with
    /// `NodeError::PermissionlessUnsupported`. The builder stays as it was
    /// either way.
    pub fn with_is_permissioned(&mut self, is_permissioned: bool) -> (set: Result<(), NodeError>)
        ensures
            final(self)@ == old(self)@,
            is_permissioned ==> set is Ok,
            !is_permissioned ==> set == Err::<(), NodeError>(NodeError::PermissionlessUnsupported),
    {
        if is_permissioned {
            Ok(())
        } else {
            Err(NodeError::PermissionlessUnsupported)
        }
    }

    /// Sets the seed address that goes into the peer info, at the default
    /// port. Where the address does not parse, the call fails with
    /// `NodeError::AddressParse` and the builder stays as it was.
    pub fn with_seed_address(&mut self, seed_address: &str) -> (set: Result<(), NodeError>)
        ensures
            match set {
                Ok(_) => {
                    &&& final(self)@.seed_address is Some
                    &&& ipv4_address(seed_address@, DEFAULT_PORT)
                        == final(self)@.seed_address
                    &&& final(self)@ == (BuilderView {
                        seed_address: final(self)@.seed_address,
                        ..old(self)@
                    })
                },
                Err(e) => {
                    &&& e == NodeError::AddressParse
                    &&& ipv4_address(seed_address@, DEFAULT_PORT) is None
                    &&& final(self)@ == old(self)@
                },
            },
    {
        match parse_multiaddr_from_ipv4(seed_address, DEFAULT_PORT) {
            Ok(address) => {
                self.seed_address = Some(address);
                Ok(())
            },
            Err(e) => Err(e),
        }
    }

    /// The output directory.
    pub fn output_dir(&self) -> (output_dir: &str)
        ensures
            output_dir@ == self@.output_dir,
    {
        self.output_dir.as_str()
    }

    /// Derives the seed for `domain` and `version` and asks for the keys of
    /// one validator from it.
    ///
    /// The seed depends on nothing but the key seed, the domain and the
    /// version: the same builder asks for the same keys every time.
    pub fn generate_keys_and_configs(&self, domain: &[u8], version: u32) -> (request:
        ValidatorKeyRequest)
        requires
            valid_component(domain@),
        ensures
            request.seed@ == derived_subkey(self@.key_seed, derivation_path(domain@, version)),
            request.validators == 1,
    {
        let seed = self.key_seed.derive_seed(domain, version);
        ValidatorKeyRequest { seed, validators: 1 }
    }

    /// The consensus config, which is the runtime's default, and the file
    /// that holds the consensus keypair: it stands below the output
    /// directory under the name that the config gives it.
    pub fn generate_consensus_config(
        &self,
        private_key: ConsensusPrivateKey,
        defaults: ConsensusConfig,
    ) -> (generated: (ConsensusConfig, ConfigFile<ConsensusKeyPair>))
        ensures
            generated.0 == defaults,
            generated.1.path@ == joined(self@.output_dir, defaults.consensus_keypair_file@),
            generated.1.contents.consensus_private_key == Some(private_key.consensus_private_key),
    {
        let consensus_config = defaults;
        let consensus_keypair = ConsensusKeyPair::load(Some(private_key.consensus_private_key));
        let consensus_keypair_file = join(
            self.output_dir.as_str(),
            consensus_config.consensus_keypair_file.as_str(),
        );
        (consensus_config, ConfigFile { path: consensus_keypair_file, contents: consensus_keypair })
    }

    /// The network config of the peer `peer_id`, made out of the runtime's
    /// default, and the file that holds the network keypairs: it stands
    /// below the output directory under the name that the config gives it.
    pub fn generate_network_config(
        &self,
        peer_id: &str,
        private_keys: NetworkPrivateKeys,
        defaults: NetworkConfig,
    ) -> (generated: (NetworkConfig, ConfigFile<NetworkKeyPairs>))
        ensures
            built_network_config(generated.0, self@, peer_id@, defaults),
            generated.1.path@ == joined(self@.output_dir, defaults.network_keypairs_file@),
            generated.1.contents.network_signing_private_key == Some(
                private_keys.network_signing_private_key,
            ),
            generated.1.contents.network_identity_private_key
                == private_keys.network_identity_private_key,
    {
        let network_keypairs = NetworkKeyPairs::load(
            private_keys.network_signing_private_key,
            private_keys.network_identity_private_key,
        );
        let mut network_config = defaults;
        network_config.peer_id = String::from_str(peer_id);
        network_config.role = String::from_str(self.role.name());
        network_config.listen_address = self.listen_address.clone();
        network_config.advertised_address = self.advertised_address.clone();
        network_config.is_permissioned = self.is_permissioned;
        let network_keypairs_file = join(
            self.output_dir.as_str(),
            network_config.network_keypairs_file.as_str(),
        );
        (network_config, ConfigFile { path: network_keypairs_file, contents: network_keypairs })
    }

    /// The node config: the one network section, the consensus section,
    /// and the runtime's default storage and mempool sections. It goes to
    /// `node.config.toml` below the output directory.
    pub fn generate_node_config(
        &self,
        consensus_config: ConsensusConfig,
        network_config: NetworkConfig,
        storage: StorageConfig,
        mempool: MempoolConfig,
    ) -> (generated: ConfigFile<NodeConfig>)
        ensures
            generated.path@ == joined(self@.output_dir, "node.config.toml"@),
            generated.contents.networks@ == seq![network_config],
            generated.contents.consensus == consensus_config,
            generated.contents.storage == storage,
            generated.contents.mempool == mempool,
    {
        let mut networks: Vec<NetworkConfig> = Vec::new();
        networks.push(network_config);
        assert(networks@ =~= seq![network_config]);
        let node_config = NodeConfig { networks, consensus: consensus_config, storage, mempool };
        let node_config_file = join(self.output_dir.as_str(), "node.config.toml");
        ConfigFile { path: node_config_file, contents: node_config }
    }

    /// The peer info of the peer `peer_id`, with the keys of the single
    /// peer of each directory and with the builder's seed address. It goes
    /// to `peer_info.toml` below the output directory.
    ///
    /// A directory that does not hold exactly one peer is refused with
    /// `NodeError::PeerCount`.
    pub fn generate_peer_info(
        &self,
        peer_id: &str,
        consensus_peers: ConsensusPeersConfig,
        network_peers: NetworkPeersConfig,
    ) -> (generated: Result<ConfigFile<PeerInfo>, NodeError>)
        ensures
            match generated {
                Ok(file) => {
                    &&& consensus_peers.peers@.len() == 1
                    &&& network_peers.peers@.len() == 1
                    &&& file.path@ == joined(self@.output_dir, "peer_info.toml"@)
                    &&& file.contents.id@ == peer_id@
                    &&& file.contents.description@ == Seq::<char>::empty()
                    &&& file.contents.website_url@ == Seq::<char>::empty()
                    &&& file.contents.logo_url@ == Seq::<char>::empty()
                    &&& file.contents.seed_text() == self@.seed_address
                    &&& file.contents.consensus == consensus_peers.peers@[0].info
                    &&& file.contents.network == network_peers.peers@[0].info
                },
                Err(e) => e == NodeError::PeerCount && (consensus_peers.peers@.len() != 1
                    || network_peers.peers@.len() != 1),
            },
    {
        let mut consensus_peers = consensus_peers.peers;
        let mut network_peers = network_peers.peers;
        if consensus_peers.len() != 1 || network_peers.len() != 1 {
            return Err(NodeError::PeerCount);
        }
        let consensus_info = match consensus_peers.pop() {
            Some(peer) => peer.info,
            None => {
                return Err(NodeError::PeerCount);
            },
        };
        let network_info = match network_peers.pop() {
            Some(peer) => peer.info,
            None => {
                return Err(NodeError::PeerCount);
            },
        };
        let peer_info = PeerInfo::new(
            peer_id,
            self.seed_address.as_ref(),
            consensus_info,
            network_info,
        );
        let peer_info_file = join(self.output_dir.as_str(), "peer_info.toml");
        Ok(ConfigFile { path: peer_info_file, contents: peer_info })
    }
}

} // verus!
