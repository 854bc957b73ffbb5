use terra_capital::auth::{AuthProof, Principal};
use terra_capital::errors::Error;
use terra_capital::marketplace::TerraMarketplace;

const ADMIN: Principal = Principal(1);
const INTRUDER: Principal = Principal(2);
const TREASURY: Principal = Principal(4);
const TOKEN: Principal = Principal(6);
const TOKEN2: Principal = Principal(7);
const REG_ADDR: Principal = Principal(10);
const MKT_ADDR: Principal = Principal(11);

fn proof_for(p: Principal) -> AuthProof {
    AuthProof { principal: p }
}

fn configured() -> TerraMarketplace {
    let mut mkt = TerraMarketplace::new(MKT_ADDR);
    mkt.init(&proof_for(ADMIN), ADMIN, REG_ADDR, TOKEN, TREASURY, 250)
        .unwrap();
    mkt
}

#[test]
fn init_validates_and_is_one_time() {
    let mut mkt = TerraMarketplace::new(MKT_ADDR);
    assert_eq!(
        mkt.init(&proof_for(INTRUDER), ADMIN, REG_ADDR, TOKEN, TREASURY, 250),
        Err(Error::Unauthorized)
    );
    assert_eq!(
        mkt.init(&proof_for(ADMIN), ADMIN, REG_ADDR, TOKEN, TREASURY, -1),
        Err(Error::InvalidInput)
    );
    assert_eq!(
        mkt.init(&proof_for(ADMIN), ADMIN, REG_ADDR, TOKEN, TREASURY, 2001),
        Err(Error::InvalidInput)
    );
    assert_eq!(
        mkt.init(&proof_for(ADMIN), ADMIN, REG_ADDR, TOKEN, TREASURY, 2000),
        Ok(())
    );
    assert_eq!(
        mkt.init(&proof_for(ADMIN), ADMIN, REG_ADDR, TOKEN, TREASURY, 250),
        Err(Error::AlreadyInitialized)
    );
}

#[test]
fn mutators_demand_initialization() {
    let mut mkt = TerraMarketplace::new(MKT_ADDR);
    assert_eq!(
        mkt.set_fee_config(&proof_for(ADMIN), TREASURY, 100),
        Err(Error::NotInitialized)
    );
    assert_eq!(
        mkt.set_payment_token(&proof_for(ADMIN), TOKEN),
        Err(Error::NotInitialized)
    );
    assert_eq!(
        mkt.set_network_payment_token(&proof_for(ADMIN), "testnet".to_string(), TOKEN),
        Err(Error::NotInitialized)
    );
    assert_eq!(
        mkt.set_active_network(&proof_for(ADMIN), "testnet".to_string()),
        Err(Error::NotInitialized)
    );
    assert_eq!(
        mkt.set_liquidity_config(&proof_for(ADMIN), None, 0),
        Err(Error::NotInitialized)
    );
    assert_eq!(mkt.get_active_network(), None);
    assert_eq!(mkt.get_network_payment_token(&"testnet".to_string()), None);
    assert_eq!(mkt.get_payment_token(), Err(Error::NotInitialized));
}

#[test]
fn mutators_demand_admin() {
    let mut mkt = configured();
    let ap = proof_for(INTRUDER);
    assert_eq!(
        mkt.set_fee_config(&ap, TREASURY, 100),
        Err(Error::Unauthorized)
    );
    assert_eq!(mkt.set_payment_token(&ap, TOKEN2), Err(Error::Unauthorized));
    assert_eq!(
        mkt.set_network_payment_token(&ap, "testnet".to_string(), TOKEN2),
        Err(Error::Unauthorized)
    );
    assert_eq!(
        mkt.set_active_network(&ap, "mainnet".to_string()),
        Err(Error::Unauthorized)
    );
    assert_eq!(
        mkt.set_liquidity_config(&ap, Some(TREASURY), 100),
        Err(Error::Unauthorized)
    );
}

#[test]
fn network_defaults_to_testnet() {
    let mkt = configured();
    assert_eq!(mkt.get_active_network(), Some("testnet".to_string()));
    // the initial payment token is registered for testnet
    assert_eq!(
        mkt.get_network_payment_token(&"testnet".to_string()),
        Some(TOKEN)
    );
    assert_eq!(mkt.get_network_payment_token(&"mainnet".to_string()), None);
    assert_eq!(mkt.get_network_payment_token(&"devnet".to_string()), None);
    assert_eq!(mkt.get_payment_token(), Ok(TOKEN));
}

#[test]
fn unsupported_network_tags_are_refused() {
    let mut mkt = configured();
    assert_eq!(
        mkt.set_network_payment_token(&proof_for(ADMIN), "devnet".to_string(), TOKEN2),
        Err(Error::UnsupportedNetwork)
    );
    assert_eq!(
        mkt.set_active_network(&proof_for(ADMIN), "Testnet".to_string()),
        Err(Error::UnsupportedNetwork)
    );
    assert_eq!(
        mkt.set_active_network(&proof_for(ADMIN), "".to_string()),
        Err(Error::UnsupportedNetwork)
    );
}

#[test]
fn network_tokens_are_kept_per_network() {
    let mut mkt = configured();
    mkt.set_network_payment_token(&proof_for(ADMIN), "mainnet".to_string(), TOKEN2)
        .unwrap();
    assert_eq!(
        mkt.get_network_payment_token(&"testnet".to_string()),
        Some(TOKEN)
    );
    assert_eq!(
        mkt.get_network_payment_token(&"mainnet".to_string()),
        Some(TOKEN2)
    );
    // switching the active network switches the settlement token
    mkt.set_active_network(&proof_for(ADMIN), "mainnet".to_string())
        .unwrap();
    assert_eq!(mkt.get_active_network(), Some("mainnet".to_string()));
    assert_eq!(mkt.get_payment_token(), Ok(TOKEN2));
}

#[test]
fn payment_token_falls_back_when_network_has_none() {
    let mut mkt = configured();
    // mainnet has no registered token, so the fallback token settles
    mkt.set_active_network(&proof_for(ADMIN), "mainnet".to_string())
        .unwrap();
    assert_eq!(mkt.get_payment_token(), Ok(TOKEN));
    mkt.set_payment_token(&proof_for(ADMIN), TOKEN2).unwrap();
    assert_eq!(mkt.get_payment_token(), Ok(TOKEN2));
}

#[test]
fn fee_config_bounds() {
    let mut mkt = configured();
    assert_eq!(
        mkt.set_fee_config(&proof_for(ADMIN), TREASURY, -1),
        Err(Error::InvalidInput)
    );
    assert_eq!(mkt.set_fee_config(&proof_for(ADMIN), TREASURY, 0), Ok(()));
    assert_eq!(mkt.set_fee_config(&proof_for(ADMIN), TREASURY, 2000), Ok(()));
}

#[test]
fn liquidity_share_bounds() {
    let mut mkt = configured();
    assert_eq!(
        mkt.set_liquidity_config(&proof_for(ADMIN), Some(TREASURY), -1),
        Err(Error::InvalidInput)
    );
    assert_eq!(
        mkt.set_liquidity_config(&proof_for(ADMIN), Some(TREASURY), 10001),
        Err(Error::InvalidInput)
    );
    assert_eq!(
        mkt.set_liquidity_config(&proof_for(ADMIN), Some(TREASURY), 10000),
        Ok(())
    );
    // the range check applies only to a present destination:
    // clearing succeeds whatever share value rides along
    assert_eq!(mkt.set_liquidity_config(&proof_for(ADMIN), None, 10001), Ok(()));
    assert_eq!(mkt.set_liquidity_config(&proof_for(ADMIN), None, -1), Ok(()));
    assert_eq!(mkt.set_liquidity_config(&proof_for(ADMIN), None, 5000), Ok(()));
}
