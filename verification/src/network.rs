use vstd::prelude::*;

verus! {

/// The two remote ledger deployments the status proxy reads.
#[derive(Clone, Copy, Debug, PartialEq, Eq, Structural)]
pub enum StellarNetwork {
    Testnet,
    Public,
}

/// The short name each network is reported under.
pub open spec fn spec_network_name(network: StellarNetwork) -> Seq<char> {
    match network {
        StellarNetwork::Testnet => "testnet"@,
        StellarNetwork::Public => "public"@,
    }
}

/// The root endpoint queried for each network's status.
pub open spec fn spec_horizon_url(network: StellarNetwork) -> Seq<char> {
    match network {
        StellarNetwork::Testnet => "https://horizon-testnet.stellar.org"@,
        StellarNetwork::Public => "https://horizon.stellar.org"@,
    }
}

pub fn horizon_url(network: StellarNetwork) -> (r: &'static str)
    ensures
        r@ == spec_horizon_url(network),
{
    match network {
        StellarNetwork::Testnet => "https://horizon-testnet.stellar.org",
        StellarNetwork::Public => "https://horizon.stellar.org",
    }
}

pub fn network_name(network: StellarNetwork) -> (r: &'static str)
    ensures
        r@ == spec_network_name(network),
{
    match network {
        StellarNetwork::Testnet => "testnet",
        StellarNetwork::Public => "public",
    }
}

/// One network's health snapshot, as served to clients.
pub struct NetworkHealth {
    pub network: String,
    pub horizon_version: String,
    pub core_version: String,
    pub current_protocol_version: i32,
    pub history_latest_ledger: i64,
    pub fetched_at_unix_ms: u128,
}

/// Assembles the snapshot served for `network` from what the remote
/// root endpoint reported and the time the fetch happened.
pub fn network_health(
    network: StellarNetwork,
    horizon_version: String,
    core_version: String,
    current_protocol_version: i32,
    history_latest_ledger: i64,
    fetched_at_unix_ms: u128,
) -> (r: NetworkHealth)
    ensures
        r.network@ == spec_network_name(network),
        r.horizon_version == horizon_version,
        r.core_version == core_version,
        r.current_protocol_version == current_protocol_version,
        r.history_latest_ledger == history_latest_ledger,
        r.fetched_at_unix_ms == fetched_at_unix_ms,
{
    NetworkHealth {
        network: network_name(network).to_owned(),
        horizon_version,
        core_version,
        current_protocol_version,
        history_latest_ledger,
        fetched_at_unix_ms,
    }
}

/// Whether a cached snapshot of age `age_ms` may still be served under
/// the cache's time-to-live; `None` means nothing is cached yet, which
/// always forces a fresh fetch.
pub fn cache_is_fresh(age_ms: Option<u128>, ttl_ms: u128) -> (r: bool)
    ensures
        r == (age_ms is Some && age_ms->Some_0 < ttl_ms),
{
    match age_ms {
        Some(a) => a < ttl_ms,
        None => false,
    }
}

} // verus!
