use cosmos::config::{AddressType, CosmosBuilder, CosmosConfig, CosmosInterceptor, CosmosNetwork};
use cosmos::gas::Fixed;
use cosmos::text::strip_quotes;

#[test]
fn network_names_round_trip() {
    let all = [
        CosmosNetwork::JunoTestnet,
        CosmosNetwork::JunoMainnet,
        CosmosNetwork::JunoLocal,
        CosmosNetwork::OsmosisMainnet,
        CosmosNetwork::OsmosisTestnet,
        CosmosNetwork::OsmosisLocal,
        CosmosNetwork::Dragonfire,
        CosmosNetwork::WasmdLocal,
        CosmosNetwork::SeiMainnet,
        CosmosNetwork::SeiTestnet,
        CosmosNetwork::StargazeTestnet,
        CosmosNetwork::StargazeMainnet,
    ];
    for n in all {
        assert_eq!(CosmosNetwork::from_name(n.as_str()).unwrap(), n);
        assert_eq!(n.as_str().parse::<CosmosNetwork>().unwrap(), n);
    }
    assert_eq!(CosmosNetwork::OsmosisTestnet.as_str(), "osmosis-testnet");
}

#[test]
fn unknown_network_is_rejected() {
    let e = CosmosNetwork::from_name("juno").unwrap_err();
    assert_eq!(e.name, "juno");
    assert_eq!(e.message(), "Unknown network: juno");
}

#[test]
fn default_config_values() {
    let c = CosmosConfig::default();
    assert_eq!(c.gas_estimate_multiplier, Fixed::from_nanos(1_300_000_000));
    assert_eq!(c.gas_price_low, Fixed::from_nanos(20_000_000));
    assert_eq!(c.gas_price_high, Fixed::from_nanos(30_000_000));
    assert_eq!(c.gas_price_retry_attempts, 3);
    assert_eq!(c.transaction_attempts, 30);
    assert!(c.rpc_url.is_none());
    assert!(c.referer_header.is_none());
}

#[test]
fn registered_builders() {
    let b = CosmosNetwork::JunoLocal.builder().unwrap();
    assert_eq!(b.grpc_url, "http://localhost:9090");
    assert_eq!(b.chain_id, "testing");
    assert_eq!(b.gas_coin, "ujunox");
    assert_eq!(b.address_type, AddressType::Juno);
    assert_eq!(b.config.transaction_attempts, 3);
    let sei = CosmosNetwork::SeiMainnet.builder().unwrap();
    assert_eq!(sei.config.gas_price_low, Fixed::from_nanos(12_000_000));
    assert_eq!(sei.config.gas_price_retry_attempts, 6);
    assert!(CosmosNetwork::SeiTestnet.builder().is_none());
    let st = CosmosBuilder::new_sei_testnet(Fixed::from_nanos(100_000_000));
    assert_eq!(st.chain_id, "atlantic-2");
    assert_eq!(st.config.gas_price_high, Fixed::from_nanos(200_000_000));
    assert_eq!(CosmosNetwork::Dragonfire.builder().unwrap().address_type, AddressType::Levana);
}

#[test]
fn overrides_replace_only_given_settings() {
    let mut b = CosmosBuilder::new_osmosis_mainnet();
    b.apply_overrides(None, Some("osmo-x".to_owned()), Some(Fixed::from_nanos(2_000_000_000)), Some("me".to_owned()));
    assert_eq!(b.grpc_url, "http://grpc.osmosis.zone:9090");
    assert_eq!(b.chain_id, "osmo-x");
    assert_eq!(b.config.gas_estimate_multiplier, Fixed::from_nanos(2_000_000_000));
    assert_eq!(b.config.referer_header.as_deref(), Some("me"));
    let mut c = CosmosBuilder::new_juno_mainnet();
    c.set_referer_header("site".to_owned());
    assert_eq!(c.config.referer_header.as_deref(), Some("site"));
}

#[test]
fn tls_follows_url_scheme() {
    assert!(CosmosBuilder::new_osmosis_testnet().uses_tls());
    assert!(!CosmosBuilder::new_juno_mainnet().uses_tls());
}

#[test]
fn interceptor_header() {
    assert_eq!(CosmosInterceptor(Some("x".to_owned())).header().map(|s| s.as_str()), Some("x"));
    assert!(CosmosInterceptor(None).header().is_none());
}

#[test]
fn strip_quotes_cases() {
    assert_eq!(strip_quotes("\"abc\""), "abc");
    assert_eq!(strip_quotes("\"\""), "");
    assert_eq!(strip_quotes("\""), "\"");
    assert_eq!(strip_quotes("abc\""), "abc\"");
    assert_eq!(strip_quotes("abc"), "abc");
}
