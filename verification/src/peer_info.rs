//! Peer info: what a node publishes of itself, to be gathered into the
//! configuration of a network.

use crate::address::NetAddress;
use crate::config::{ConsensusPeerInfo, NetworkPeerInfo};
use vstd::prelude::*;
use vstd::string::*;

verus! {

/// Name of the file that holds the peer info.
pub const DEFAULT_FILENAME: &'static str = "peer_info.toml";

/// Identity and public keys of one peer.
#[derive(Clone, Debug, PartialEq, Eq)]
pub struct PeerInfo {
    /// Identifier of the peer.
    pub id: String,
    /// Description of the peer; empty unless its operator fills it in.
    pub description: String,
    /// Web site of the peer; empty unless its operator fills it in.
    pub website_url: String,
    /// Logo of the peer; empty unless its operator fills it in.
    pub logo_url: String,
    /// Address at which the peer can be reached first, if it offers one.
    pub seed_ip: Option<String>,
    /// Public key of the consensus role.
    pub consensus: ConsensusPeerInfo,
    /// Public keys of the network role.
    pub network: NetworkPeerInfo,
}

/// The text of an address that may be missing.
pub open spec fn address_text(address: Option<&NetAddress>) -> Option<Seq<char>> {
    match address {
        Some(a) => Some(a@),
        None => None,
    }
}

impl PeerInfo {
    /// The seed address as text, where there is one.
    pub open spec fn seed_text(&self) -> Option<Seq<char>> {
        match self.seed_ip {
            Some(text) => Some(text@),
            None => None,
        }
    }

    /// The peer info of the peer `peer_id` with the given keys, and with
    /// the seed address where there is one. The fields that describe the
    /// peer to people are left empty.
    pub fn new(
        peer_id: &str,
        seed_ip: Option<&NetAddress>,
        consensus: ConsensusPeerInfo,
        network: NetworkPeerInfo,
    ) -> (info: PeerInfo)
        ensures
            info.id@ == peer_id@,
            info.description@ == Seq::<char>::empty(),
            info.website_url@ == Seq::<char>::empty(),
            info.logo_url@ == Seq::<char>::empty(),
            info.seed_text() == address_text(seed_ip),
            info.consensus == consensus,
            info.network == network,
    {
        let seed_ip = match seed_ip {
            Some(address) => Some(address.to_string()),
            None => None,
        };
        PeerInfo {
            id: String::from_str(peer_id),
            description: String::new(),
            website_url: String::new(),
            logo_url: String::new(),
            seed_ip,
            consensus,
            network,
        }
    }
}

} // verus!
