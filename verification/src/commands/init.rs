//! `init` subcommand: provisions a node in a base directory.

use crate::address::{ipv4_address, DEFAULT_PORT};
use crate::builder::{
    built_network_config, default_address, Builder, BuilderView, ValidatorConfigs,
    ValidatorKeyRequest,
};
use crate::config::{
    ConsensusConfig, ConsensusKeyPair, MempoolConfig, NetworkConfig, NetworkKeyPairs, NodeConfig,
    RoleType, StorageConfig,
};
use crate::error::NodeError;
use crate::key_seed::{derivation_path, derived_subkey, KeySeed};
use crate::path::{join, joined, ConfigFile};
use crate::peer_info::PeerInfo;
use vstd::prelude::*;
use vstd::string::*;

verus! {

/// Derivation component used when computing the seed of a node's keys: the
/// bytes of `synchronicity`.
pub const DERIVATION_COMPONENT: [u8; 13] = [
    0x73, 0x79, 0x6e, 0x63, 0x68, 0x72, 0x6f, 0x6e, 0x69, 0x63, 0x69, 0x74, 0x79,
];

/// The text of the program's configuration file for a node in `base_dir`:
/// a comment line, the location of the node config, and the location of
/// the scratch directory.
pub open spec fn synchronicity_toml(base_dir: Seq<char>) -> Seq<char> {
    "# serendipity.toml: configuration file for Serendipity\n"@ + "node_config = \""@ + joined(
        base_dir,
        "node.config.toml"@,
    ) + "\"\n"@ + "scratch_dir = \""@ + joined(base_dir, "scratch/"@) + "\"\n"@
}

/// The runtime's default sections, out of which the configs are made.
#[derive(Clone, Debug, PartialEq, Eq)]
pub struct ConfigDefaults {
    /// Default consensus section.
    pub consensus: ConsensusConfig,
    /// Default network section.
    pub network: NetworkConfig,
    /// Default storage section.
    pub storage: StorageConfig,
    /// Default mempool section.
    pub mempool: MempoolConfig,
}

/// The files of a provisioned node, in the order in which they are
/// written.
#[derive(Clone, Debug, PartialEq, Eq)]
pub struct Provisioned {
    /// The peer info.
    pub peer_info: ConfigFile<PeerInfo>,
    /// The consensus keypair.
    pub consensus_keypair: ConfigFile<ConsensusKeyPair>,
    /// The network keypairs.
    pub network_keypairs: ConfigFile<NetworkKeyPairs>,
    /// The node config.
    pub node_config: ConfigFile<NodeConfig>,
}

/// Why the keys and directories of `validators` cannot be made into the
/// configs of one node, if they cannot.
pub open spec fn refusal(validators: ValidatorConfigs) -> Option<NodeError> {
    if validators.network_peers.peers@.len() != 1 || validators.consensus_peers.peers@.len() != 1 {
        Some(NodeError::PeerCount)
    } else if validators.private_keys@.len() != 1 {
        Some(NodeError::ValidatorCount)
    } else {
        None
    }
}

/// The files that provision the one validator of `validators` with the
/// settings of `builder`, out of the runtime's `defaults`.
pub open spec fn provisions(
    files: Provisioned,
    builder: BuilderView,
    validators: ValidatorConfigs,
    defaults: ConfigDefaults,
) -> bool {
    let peer_id = validators.network_peers.peers@[0].peer_id@;
    let keys = validators.private_keys@[0];
    &&& files.peer_info.path@ == joined(builder.output_dir, "peer_info.toml"@)
    &&& files.peer_info.contents.id@ == peer_id
    &&& files.peer_info.contents.description@ == Seq::<char>::empty()
    &&& files.peer_info.contents.website_url@ == Seq::<char>::empty()
    &&& files.peer_info.contents.logo_url@ == Seq::<char>::empty()
    &&& files.peer_info.contents.seed_text() == builder.seed_address
    &&& files.peer_info.contents.consensus == validators.consensus_peers.peers@[0].info
    &&& files.peer_info.contents.network == validators.network_peers.peers@[0].info
    &&& files.consensus_keypair.path@ == joined(
        builder.output_dir,
        defaults.consensus.consensus_keypair_file@,
    )
    &&& files.consensus_keypair.contents.consensus_private_key == Some(
        keys.consensus_private_key.consensus_private_key,
    )
    &&& files.network_keypairs.path@ == joined(
        builder.output_dir,
        defaults.network.network_keypairs_file@,
    )
    &&& files.network_keypairs.contents.network_signing_private_key == Some(
        keys.network_private_keys.network_signing_private_key,
    )
    &&& files.network_keypairs.contents.network_identity_private_key
        == keys.network_private_keys.network_identity_private_key
    &&& files.node_config.path@ == joined(builder.output_dir, "node.config.toml"@)
    &&& files.node_config.contents.networks@.len() == 1
    &&& built_network_config(
        files.node_config.contents.networks@[0],
        builder,
        peer_id,
        defaults.network,
    )
    &&& files.node_config.contents.consensus == defaults.consensus
    &&& files.node_config.contents.storage == defaults.storage
    &&& files.node_config.contents.mempool == defaults.mempool
}

/// `init` subcommand.
#[derive(Clone, Debug, Default, PartialEq, Eq)]
pub struct InitCmd {
    /// Address to listen on, where it is not the default.
    pub listen_address: Option<String>,
    /// The base directory; exactly one must be given.
    pub base_dir: Vec<String>,
}

impl InitCmd {
    /// The base directory to prepare: the one that was given. Any other
    /// number of base directories is refused with `NodeError::Usage`.
    pub fn prepare_base_dir(&self) -> (base_dir: Result<&String, NodeError>)
        ensures
            match base_dir {
                Ok(dir) => self.base_dir@.len() == 1 && *dir == self.base_dir@[0],
                Err(e) => e == NodeError::Usage && self.base_dir@.len() != 1,
            },
    {
        if self.base_dir.len() != 1 {
            Err(NodeError::Usage)
        } else {
            Ok(&self.base_dir[0])
        }
    }

    /// The scratch directory of a node in `base_dir`.
    pub fn scratch_dir(&self, base_dir: &str) -> (dir: String)
        ensures
            dir@ == joined(base_dir@, "scratch"@),
    {
        join(base_dir, "scratch")
    }

    /// The program's configuration file for a node in `base_dir`.
    pub fn generate_synchronicity_toml(&self, base_dir: &str) -> (file: ConfigFile<String>)
        ensures
            file.path@ == joined(base_dir@, "synchronicity.toml"@),
            file.contents@ == synchronicity_toml(base_dir@),
    {
        let node_config = join(base_dir, "node.config.toml");
        let scratch_dir = join(base_dir, "scratch/");
        let mut config_data = String::from_str(
            "# serendipity.toml: configuration file for Serendipity\n",
        );
        config_data.append("node_config = \"");
        config_data.append(node_config.as_str());
        config_data.append("\"\n");
        config_data.append("scratch_dir = \"");
        config_data.append(scratch_dir.as_str());
        config_data.append("\"\n");
        let config_path = join(base_dir, "synchronicity.toml");
        ConfigFile { path: config_path, contents: config_data }
    }

    /// The builder of the node's configs: it writes to `base_dir` and
    /// listens on the address that was given, or on the default one.
    ///
    /// Fails with `NodeError::AddressParse` where the default address or
    /// the given one does not parse.
    pub fn builder(&self, base_dir: &str, key_seed: KeySeed) -> (builder: Result<
        Builder,
        NodeError,
    >)
        ensures
            match builder {
                Ok(b) => {
                    &&& default_address() is Some
                    &&& b@.key_seed == key_seed@
                    &&& b@.output_dir == base_dir@
                    &&& b@.advertised_address == default_address()->0
                    &&& b@.role == RoleType::Validator
                    &&& b@.is_permissioned
                    &&& b@.seed_address is None
                    &&& match self.listen_address {
                        Some(address) => ipv4_address(address@, DEFAULT_PORT) == Some(
                            b@.listen_address,
                        ),
                        None => b@.listen_address == b@.advertised_address,
                    }
                },
                Err(e) => {
                    &&& e == NodeError::AddressParse
                    &&& default_address() is None || (self.listen_address matches Some(
                        address,
                    ) && ipv4_address(address@, DEFAULT_PORT) is None)
                },
            },
    {
        let mut builder = match Builder::new(key_seed) {
            Ok(builder) => builder,
            Err(e) => {
                return Err(e);
            },
        };
        builder.with_output_dir(base_dir);
        match &self.listen_address {
            Some(listen_addr) => {
                match builder.with_listen_address(listen_addr.as_str()) {
                    Ok(_) => {},
                    Err(e) => {
                        return Err(e);
                    },
                }
            },
            None => {},
        }
        Ok(builder)
    }

    /// What is asked of the key generator for this node: the keys of one
    /// validator, from the seed for the domain `synchronicity` in its
    /// version 0.
    pub fn key_request(&self, builder: &Builder) -> (request: ValidatorKeyRequest)
        ensures
            request.seed@ == derived_subkey(
                builder@.key_seed,
                derivation_path(DERIVATION_COMPONENT@, 0),
            ),
            request.validators == 1,
    {
        let domain = DERIVATION_COMPONENT;
        builder.generate_keys_and_configs(domain.as_slice(), 0)
    }

    /// The files of the node: peer info, consensus keypair, network
    /// keypairs and node config, made by `builder` of the one validator of
    /// `validators`.
    ///
    /// The node config names its two key files by the names under which the
    /// files are written, and the peer info carries the peer identifier of
    /// the node config's network section.
    ///
    /// Directories that do not hold exactly one peer are refused with
    /// `NodeError::PeerCount`, private keys of any number of accounts but
    /// one with `NodeError::ValidatorCount`.
    pub fn generate_libra_configs(
        &self,
        builder: &Builder,
        validators: ValidatorConfigs,
        defaults: ConfigDefaults,
    ) -> (generated: Result<Provisioned, NodeError>)
        ensures
            match generated {
                Ok(files) => {
                    &&& refusal(validators) is None
                    &&& provisions(files, builder@, validators, defaults)
                    &&& files.consensus_keypair.path@ == joined(
                        builder@.output_dir,
                        files.node_config.contents.consensus.consensus_keypair_file@,
                    )
                    &&& files.network_keypairs.path@ == joined(
                        builder@.output_dir,
                        files.node_config.contents.networks@[0].network_keypairs_file@,
                    )
                    &&& files.peer_info.contents.id@
                        == files.node_config.contents.networks@[0].peer_id@
                },
                Err(e) => refusal(validators) == Some(e),
            },
    {
        let ValidatorConfigs { private_keys, consensus_peers, network_peers } = validators;
        let mut private_keys = private_keys;
        if network_peers.peers.len() != 1 || consensus_peers.peers.len() != 1 {
            return Err(NodeError::PeerCount);
        }
        if private_keys.len() != 1 {
            return Err(NodeError::ValidatorCount);
        }
        let peer_id = network_peers.peers[0].peer_id.clone();
        let peer_info = match builder.generate_peer_info(
            peer_id.as_str(),
            consensus_peers,
            network_peers,
        ) {
            Ok(file) => file,
            Err(e) => {
                return Err(e);
            },
        };
        let keys = match private_keys.pop() {
            Some(keys) => keys,
            None => {
                return Err(NodeError::ValidatorCount);
            },
        };
        let ConfigDefaults { consensus, network, storage, mempool } = defaults;
        let (consensus_config, consensus_keypair) = builder.generate_consensus_config(
            keys.consensus_private_key,
            consensus,
        );
        let (network_config, network_keypairs) = builder.generate_network_config(
            peer_id.as_str(),
            keys.network_private_keys,
            network,
        );
        let node_config = builder.generate_node_config(
            consensus_config,
            network_config,
            storage,
            mempool,
        );
        Ok(Provisioned { peer_info, consensus_keypair, network_keypairs, node_config })
    }
}

impl Provisioned {
    /// The locations of the files, in the order in which they are
    /// written: peer info, consensus keypair, network keypairs, node
    /// config.
    pub fn generated_files(&self) -> (paths: Vec<String>)
        ensures
            paths@.len() == 4,
            paths@[0]@ == self.peer_info.path@,
            paths@[1]@ == self.consensus_keypair.path@,
            paths@[2]@ == self.network_keypairs.path@,
            paths@[3]@ == self.node_config.path@,
    {
        let mut paths: Vec<String> = Vec::new();
        paths.push(self.peer_info.path.clone());
        paths.push(self.consensus_keypair.path.clone());
        paths.push(self.network_keypairs.path.clone());
        paths.push(self.node_config.path.clone());
        paths
    }
}

} // verus!
