use terra_capital::network::{
    cache_is_fresh, horizon_url, network_health, network_name, StellarNetwork,
};

#[test]
fn horizon_urls() {
    assert_eq!(
        horizon_url(StellarNetwork::Testnet),
        "https://horizon-testnet.stellar.org"
    );
    assert_eq!(
        horizon_url(StellarNetwork::Public),
        "https://horizon.stellar.org"
    );
}

#[test]
fn network_names() {
    assert_eq!(network_name(StellarNetwork::Testnet), "testnet");
    assert_eq!(network_name(StellarNetwork::Public), "public");
}

#[test]
fn cache_freshness_decision() {
    assert!(!cache_is_fresh(None, 15_000));
    assert!(cache_is_fresh(Some(0), 15_000));
    assert!(cache_is_fresh(Some(14_999), 15_000));
    assert!(!cache_is_fresh(Some(15_000), 15_000));
    assert!(!cache_is_fresh(Some(20_000), 15_000));
    assert!(!cache_is_fresh(Some(0), 0));
}

#[test]
fn health_snapshot_assembly() {
    let h = network_health(
        StellarNetwork::Public,
        "2.31.0".to_string(),
        "21.0.0".to_string(),
        21,
        52_000_123,
        1_700_000_000_000,
    );
    assert_eq!(h.network, "public".to_string());
    assert_eq!(h.horizon_version, "2.31.0".to_string());
    assert_eq!(h.core_version, "21.0.0".to_string());
    assert_eq!(h.current_protocol_version, 21);
    assert_eq!(h.history_latest_ledger, 52_000_123);
    assert_eq!(h.fetched_at_unix_ms, 1_700_000_000_000);
}
