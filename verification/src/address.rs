//! Network addresses: an IPv4 host and a TCP port, in multiaddr form.

use crate::error::NodeError;
use crate::text::{contains_char, decimal, decimal_string};
use vstd::prelude::*;
use vstd::string::*;

verus! {

/// Default port to listen on.
pub const DEFAULT_PORT: u16 = 6180;

/// Default address to listen on.
pub const DEFAULT_LISTEN_ADDRESS: &'static str = "0.0.0.0";

/// `parity_multiaddr::Error`, the reason for which a text is no multiaddr.
/// Nothing here looks into it.
#[verifier::external_type_specification]
#[verifier::external_body]
pub struct ExMultiaddrError(parity_multiaddr::Error);

/// What `parity_multiaddr` makes of `text`: the address that it parses to,
/// as that address prints, or `None` where `text` is no multiaddr.
pub uninterp spec fn parsed_multiaddr(text: Seq<char>) -> Option<Seq<char>>;

/// Parses `text` with `<parity_multiaddr::Multiaddr as FromStr>::from_str`
/// and hands the address back as its `Display` impl prints it.
#[verifier::external_body]
fn parse_multiaddr(text: &str) -> (parsed: Result<String, parity_multiaddr::Error>)
    ensures
        parsed matches Ok(address) ==> parsed_multiaddr(text@) == Some(address@),
        parsed is Err ==> parsed_multiaddr(text@) is None,
{
    match text.parse::<parity_multiaddr::Multiaddr>() {
        Ok(address) => Ok(address.to_string()),
        Err(e) => Err(e),
    }
}

/// The multiaddr text for a host and a TCP port: `/ip4/<host>/tcp/<port>`.
pub open spec fn ipv4_multiaddr_text(host: Seq<char>, port: u16) -> Seq<char> {
    "/ip4/"@ + host + "/tcp/"@ + decimal(port as nat)
}

/// The multiaddr text for a host and a TCP port.
pub fn ipv4_multiaddr(host: &str, port: u16) -> (text: String)
    ensures
        text@ == ipv4_multiaddr_text(host@, port),
{
    let mut text = String::from_str("/ip4/");
    text.append(host);
    text.append("/tcp/");
    let digits = decimal_string(port as u64);
    text.append(digits.as_str());
    text
}

/// A network address that the multiaddr parser accepted, held as the parser
/// prints it. Its model is that text.
#[derive(Debug, PartialEq, Eq)]
pub struct NetAddress {
    text: String,
}

impl View for NetAddress {
    type V = Seq<char>;

    closed spec fn view(&self) -> Seq<char> {
        self.text@
    }
}

impl Clone for NetAddress {
    fn clone(&self) -> (copy: Self)
        ensures
            copy == *self,
    {
        NetAddress { text: self.text.clone() }
    }
}

impl NetAddress {
    /// The address that a parse gave, or the error that stands for a
    /// failed parse.
    pub fn from_parsed(parsed: Result<String, parity_multiaddr::Error>) -> (address: Result<
        NetAddress,
        NodeError,
    >)
        ensures
            parsed matches Ok(text) ==> address matches Ok(a) && a@ == text@,
            parsed is Err ==> address == Err::<NetAddress, NodeError>(NodeError::AddressParse),
    {
        match parsed {
            Ok(text) => Ok(NetAddress { text }),
            Err(_) => Err(NodeError::AddressParse),
        }
    }

    /// The address as text.
    pub fn as_str(&self) -> (text: &str)
        ensures
            text@ == self@,
    {
        self.text.as_str()
    }

    /// The address as text of its own.
    pub fn to_string(&self) -> (text: String)
        ensures
            text@ == self@,
    {
        self.text.clone()
    }
}

/// The address of an IPv4 host at a port: what the multiaddr parser makes
/// of `/ip4/<host>/tcp/<port>`. A host that holds a `/` has none, since it
/// would add parts of its own to the multiaddr; neither has a host that
/// the parser refuses.
pub open spec fn ipv4_address(host: Seq<char>, port: u16) -> Option<Seq<char>> {
    if host.contains('/') {
        None
    } else {
        parsed_multiaddr(ipv4_multiaddr_text(host, port))
    }
}

/// Parses an IPv4 host and a port into a network address.
///
/// A host that holds a `/` is refused before any text is built. Otherwise
/// the address is what the multiaddr parser makes of
/// `/ip4/<host>/tcp/<port>`. Where there is no address, the call fails
/// with `NodeError::AddressParse`.
pub fn parse_multiaddr_from_ipv4(host: &str, port: u16) -> (address: Result<NetAddress, NodeError>)
    ensures
        match address {
            Ok(a) => ipv4_address(host@, port) == Some(a@),
            Err(e) => e == NodeError::AddressParse && ipv4_address(host@, port) is None,
        },
        address is Ok ==> !host@.contains('/'),
{
    if contains_char(host, '/') {
        return Err(NodeError::AddressParse);
    }
    let text = ipv4_multiaddr(host, port);
    NetAddress::from_parsed(parse_multiaddr(text.as_str()))
}

} // verus!
