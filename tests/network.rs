use mev_share_client::network::{network_for_chain, ConfigurationError, SupportedNetworks};

#[test]
fn mainnet_lookup_gives_registered_endpoints() {
    let networks = SupportedNetworks::new();
    let n = networks.get_network(1).unwrap();
    assert_eq!(n.chain_id, 1);
    assert_eq!(n.name, "mainnet");
    assert_eq!(n.api_url, "https://relay.flashbots.net");
    assert_eq!(n.stream_url, "https://mev-share.flashbots.net");
}

#[test]
fn goerli_lookup_gives_registered_endpoints() {
    let networks = SupportedNetworks::new();
    let n = networks.get_network(5).unwrap();
    assert_eq!(n.chain_id, 5);
    assert_eq!(n.name, "goerli");
    assert_eq!(n.api_url, "https://relay-goerli.flashbots.net");
    assert_eq!(n.stream_url, "https://mev-share-goerli.flashbots.net");
}

#[test]
fn named_accessors_match_lookup() {
    let networks = SupportedNetworks::new();
    assert_eq!(networks.mainnet().unwrap().chain_id, 1);
    assert_eq!(networks.goerli().unwrap().chain_id, 5);
    assert_eq!(networks.goerli().unwrap().api_url, "https://relay-goerli.flashbots.net");
}

#[test]
fn unsupported_chain_is_refused() {
    let networks = SupportedNetworks::new();
    assert!(networks.is_supported(1));
    assert!(networks.is_supported(5));
    assert!(!networks.is_supported(0));
    assert!(!networks.is_supported(137));
    assert!(networks.get_network(11155111).is_none());
}

#[test]
fn client_network_selection_fails_for_unknown_chain() {
    match network_for_chain(42) {
        Err(e) => assert_eq!(e, ConfigurationError::UnsupportedChain(42)),
        Ok(_) => panic!("chain 42 must be refused"),
    }
    let n = network_for_chain(1).unwrap();
    assert_eq!(n.stream_url, "https://mev-share.flashbots.net");
    let copy = n.copy();
    assert_eq!(copy.api_url, n.api_url);
}
