//! Errors reported by the provisioning and bootstrap functions.

use crate::text::{decimal, decimal_string};
use vstd::prelude::*;
use vstd::string::*;

verus! {

/// A subsystem of the node, in the order in which the launcher starts them.
#[derive(Clone, Copy, Debug, PartialEq, Eq, Structural)]
pub enum Subsystem {
    /// The asynchronous task runtime.
    Runtime,
    /// The network transport.
    Network,
    /// The transaction pool.
    Mempool,
    /// The execution engine.
    Executor,
    /// The consensus engine.
    Consensus,
}

impl Subsystem {
    /// The name of the subsystem.
    pub open spec fn name_of(self) -> Seq<char> {
        match self {
            Subsystem::Runtime => "runtime"@,
            Subsystem::Network => "network"@,
            Subsystem::Mempool => "mempool"@,
            Subsystem::Executor => "executor"@,
            Subsystem::Consensus => "consensus"@,
        }
    }

    /// The name of the subsystem.
    pub fn name(self) -> (name: &'static str)
        ensures
            name@ == self.name_of(),
    {
        match self {
            Subsystem::Runtime => "runtime",
            Subsystem::Network => "network",
            Subsystem::Mempool => "mempool",
            Subsystem::Executor => "executor",
            Subsystem::Consensus => "consensus",
        }
    }
}

/// What can go wrong while provisioning or launching a node.
#[derive(Clone, Copy, Debug, PartialEq, Eq, Structural)]
pub enum NodeError {
    /// `init` was not given exactly one base directory.
    Usage,
    /// An address is not an IPv4 host that the multiaddr syntax accepts.
    AddressParse,
    /// A permissionless network was asked for; only permissioned ones exist.
    PermissionlessUnsupported,
    /// The key generator did not hand back exactly the one validator asked
    /// for.
    ValidatorCount,
    /// A peer directory does not hold exactly one peer.
    PeerCount,
    /// The node configuration holds so many network entries, and not one.
    NetworkConfigCount(usize),
    /// The peer id of the network entry is no account address.
    InvalidPeerId,
    /// The role of a network entry is neither `validator` nor `full_node`.
    UnknownRole,
    /// The network signing key is not set, or was moved out already.
    SigningKeyMissing,
    /// A launch event arrived that the current launch state does not expect.
    OutOfOrder,
    /// A subsystem failed to start; the launch was aborted.
    Startup(Subsystem),
    /// The capability exists as an interface only.
    NotImplemented,
    /// The application configuration was asked for before it was loaded.
    ConfigNotLoaded,
}

impl NodeError {
    /// What the operator is told of the error.
    pub open spec fn message_of(self) -> Seq<char> {
        match self {
            NodeError::Usage => "usage: synchronicity init /path/to/syncronicity/base/dir"@,
            NodeError::AddressParse => "couldn't parse address: not an IPv4 host"@,
            NodeError::PermissionlessUnsupported =>
                "support for `is_permissioned: false` unimplemented"@,
            NodeError::ValidatorCount => "unexpected number of validators (expected 1)"@,
            NodeError::PeerCount => "unexpected number of peers (expected 1)"@,
            NodeError::NetworkConfigCount(found) => "unexpected number of network configs: "@
                + decimal(found as nat) + " (expected 1)"@,
            NodeError::InvalidPeerId => "invalid peer id"@,
            NodeError::UnknownRole => "invalid node role"@,
            NodeError::SigningKeyMissing =>
                "failed to move network signing private key out of NodeConfig: key not set or moved already"@,
            NodeError::OutOfOrder => "launch step out of order"@,
            NodeError::Startup(subsystem) => "couldn't start "@ + subsystem.name_of(),
            NodeError::NotImplemented => "not implemented"@,
            NodeError::ConfigNotLoaded => "config not loaded"@,
        }
    }

    /// What the operator is told of the error.
    pub fn message(&self) -> (message: String)
        ensures
            message@ == self.message_of(),
    {
        match self {
            NodeError::Usage => String::from_str(
                "usage: synchronicity init /path/to/syncronicity/base/dir",
            ),
            NodeError::AddressParse => String::from_str("couldn't parse address: not an IPv4 host"),
            NodeError::PermissionlessUnsupported => String::from_str(
                "support for `is_permissioned: false` unimplemented",
            ),
            NodeError::ValidatorCount => String::from_str(
                "unexpected number of validators (expected 1)",
            ),
            NodeError::PeerCount => String::from_str("unexpected number of peers (expected 1)"),
            NodeError::NetworkConfigCount(found) => {
                let mut message = String::from_str("unexpected number of network configs: ");
                let count = decimal_string(*found as u64);
                message.append(count.as_str());
                message.append(" (expected 1)");
                message
            },
            NodeError::InvalidPeerId => String::from_str("invalid peer id"),
            NodeError::UnknownRole => String::from_str("invalid node role"),
            NodeError::SigningKeyMissing => String::from_str(
                "failed to move network signing private key out of NodeConfig: key not set or moved already",
            ),
            NodeError::OutOfOrder => String::from_str("launch step out of order"),
            NodeError::Startup(subsystem) => {
                let mut message = String::from_str("couldn't start ");
                message.append(subsystem.name());
                message
            },
            NodeError::NotImplemented => String::from_str("not implemented"),
            NodeError::ConfigNotLoaded => String::from_str("config not loaded"),
        }
    }
}

} // verus!
