//! `start` subcommand: launches the node.

use crate::config::{NodeConfig, RoleType};
use crate::error::NodeError;
use crate::launcher::{launchable, Launcher, Phase};
use crate::verification::VerifyProvider;
use vstd::prelude::*;

verus! {

/// `start` subcommand.
#[derive(Clone, Copy, Debug, Default, PartialEq, Eq)]
pub struct StartCmd {}

impl StartCmd {
    /// The launcher for the node that `node_config` describes, with the
    /// node's own verification provider. `peer_id` is what the peer id of
    /// the network section parsed to, and `None` where it did not parse.
    /// It fails as `Launcher::new` does.
    pub fn launcher(&self, node_config: NodeConfig, peer_id: Option<Vec<u8>>) -> (launcher: Result<
        Launcher<VerifyProvider>,
        NodeError,
    >)
        ensures
            match launcher {
                Ok(l) => {
                    &&& launchable(node_config, peer_id) == Ok::<RoleType, NodeError>(l@.role)
                    &&& Some(l@.peer_id) == peer_id
                    &&& l@.network == node_config.networks@[0]
                    &&& l@.consensus == node_config.consensus
                    &&& l@.storage == node_config.storage
                    &&& l@.mempool == node_config.mempool
                    &&& l@.phase == Phase::Idle
                    &&& l.wf()
                },
                Err(e) => launchable(node_config, peer_id) == Err::<RoleType, NodeError>(e),
            },
    {
        let verify_provider = VerifyProvider::new();
        Launcher::new(node_config, peer_id, verify_provider)
    }
}

} // verus!
