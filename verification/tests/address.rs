use synchronicity::address::{
    ipv4_multiaddr, parse_multiaddr_from_ipv4, NetAddress, DEFAULT_LISTEN_ADDRESS, DEFAULT_PORT,
};
use synchronicity::text::{contains_char, decimal_string, same_text};
use synchronicity::error::NodeError;
use synchronicity::path::join;

#[test]
fn default_port_is_6180() {
    assert_eq!(DEFAULT_PORT, 6180);
    assert_eq!(DEFAULT_LISTEN_ADDRESS, "0.0.0.0");
}

#[test]
fn decimal_of_small_and_large_numbers() {
    assert_eq!(decimal_string(0), "0");
    assert_eq!(decimal_string(7), "7");
    assert_eq!(decimal_string(10), "10");
    assert_eq!(decimal_string(6180), "6180");
    assert_eq!(decimal_string(65535), "65535");
    assert_eq!(decimal_string(18446744073709551615), "18446744073709551615");
}

#[test]
fn same_text_compares_all_of_it() {
    assert!(same_text("validator", "validator"));
    assert!(same_text("", ""));
    assert!(!same_text("validator", "validators"));
    assert!(!same_text("validator", "full_node"));
}

#[test]
fn decimal_agrees_with_the_standard_formatting() {
    for n in [1u64, 9, 11, 99, 100, 101, 999, 1000, 4096, 10000, 54321, u64::MAX] {
        assert_eq!(decimal_string(n), format!("{}", n));
    }
}

#[test]
fn multiaddr_text_of_host_and_port() {
    assert_eq!(ipv4_multiaddr("0.0.0.0", 6180), "/ip4/0.0.0.0/tcp/6180");
    assert_eq!(ipv4_multiaddr("10.1.2.3", 80), "/ip4/10.1.2.3/tcp/80");
    assert_eq!(ipv4_multiaddr("", 0), "/ip4//tcp/0");
}

#[test]
fn parses_an_ipv4_host() {
    let address = parse_multiaddr_from_ipv4("127.0.0.1", DEFAULT_PORT).unwrap();
    assert_eq!(address.as_str(), "/ip4/127.0.0.1/tcp/6180");
    assert_eq!(address.to_string(), "/ip4/127.0.0.1/tcp/6180");
}

#[test]
fn parses_the_default_listen_address() {
    let address = parse_multiaddr_from_ipv4(DEFAULT_LISTEN_ADDRESS, DEFAULT_PORT).unwrap();
    assert_eq!(address.as_str(), "/ip4/0.0.0.0/tcp/6180");
}

#[test]
fn parsed_address_is_what_the_parser_prints() {
    let address = parse_multiaddr_from_ipv4("192.168.0.1", 1).unwrap();
    let parsed: parity_multiaddr::Multiaddr = "/ip4/192.168.0.1/tcp/1".parse().unwrap();
    assert_eq!(address.as_str(), parsed.to_string());
    assert_ne!(address.as_str(), "192.168.0.1");
}

#[test]
fn refuses_what_is_no_ipv4_host() {
    assert_eq!(parse_multiaddr_from_ipv4("localhost", DEFAULT_PORT), Err(NodeError::AddressParse));
    assert_eq!(parse_multiaddr_from_ipv4("", DEFAULT_PORT), Err(NodeError::AddressParse));
    assert_eq!(parse_multiaddr_from_ipv4("256.0.0.1", DEFAULT_PORT), Err(NodeError::AddressParse));
    assert_eq!(parse_multiaddr_from_ipv4("1.2.3", DEFAULT_PORT), Err(NodeError::AddressParse));
    assert_eq!(parse_multiaddr_from_ipv4("::1", DEFAULT_PORT), Err(NodeError::AddressParse));
}

#[test]
fn refuses_a_host_that_holds_a_slash() {
    assert_eq!(parse_multiaddr_from_ipv4("1.2.3.4/tcp/7", DEFAULT_PORT), Err(NodeError::AddressParse));
    assert_eq!(parse_multiaddr_from_ipv4("1.2.3.4/udp/53", 80), Err(NodeError::AddressParse));
    assert_eq!(parse_multiaddr_from_ipv4("1.2.3.4/", DEFAULT_PORT), Err(NodeError::AddressParse));
    assert_eq!(parse_multiaddr_from_ipv4("/", DEFAULT_PORT), Err(NodeError::AddressParse));
    // The parser alone would take the first of these, as an address of three parts.
    assert!("/ip4/1.2.3.4/tcp/7/tcp/6180".parse::<parity_multiaddr::Multiaddr>().is_ok());
}

#[test]
fn contains_char_finds_a_character_anywhere() {
    assert!(contains_char("/", '/'));
    assert!(contains_char("1.2.3.4/", '/'));
    assert!(contains_char("données/clé", '/'));
    assert!(contains_char("données/clé", 'é'));
    assert!(!contains_char("1.2.3.4", '/'));
    assert!(!contains_char("", '/'));
}

#[test]
fn from_parsed_keeps_the_text() {
    let address = NetAddress::from_parsed(Ok(String::from("/ip4/1.2.3.4/tcp/5"))).unwrap();
    assert_eq!(address.as_str(), "/ip4/1.2.3.4/tcp/5");
    assert_eq!(address.clone(), address);
}

#[test]
fn from_parsed_maps_the_parser_error() {
    let error = "no multiaddr".parse::<parity_multiaddr::Multiaddr>().unwrap_err();
    assert_eq!(NetAddress::from_parsed(Err(error)), Err(NodeError::AddressParse));
}

#[test]
fn join_puts_one_slash_between_directory_and_name() {
    assert_eq!(join("/base", "node.config.toml"), "/base/node.config.toml");
    assert_eq!(join("/base/", "node.config.toml"), "/base/node.config.toml");
    assert_eq!(join(".", "peer_info.toml"), "./peer_info.toml");
    assert_eq!(join("", "peer_info.toml"), "peer_info.toml");
    assert_eq!(join("/base", "scratch/"), "/base/scratch/");
    assert_eq!(join("/base", ""), "/base/");
    assert_eq!(join("/", "x"), "/x");
}

#[test]
fn join_lets_an_absolute_name_stand() {
    assert_eq!(join("/base", "/etc/keys.toml"), "/etc/keys.toml");
    assert_eq!(join("", "/"), "/");
}

#[test]
fn join_counts_characters_not_bytes() {
    assert_eq!(join("/données", "clé.toml"), "/données/clé.toml");
    assert_eq!(join("/données/", "clé.toml"), "/données/clé.toml");
}
