use terra_capital::auth::{AuthProof, Principal};
use terra_capital::errors::Error;
use terra_capital::registry::TerraTokenization;

const ADMIN: Principal = Principal(1);
const SELLER: Principal = Principal(2);
const BUYER: Principal = Principal(3);
const REG_ADDR: Principal = Principal(10);

fn proof_for(p: Principal) -> AuthProof {
    AuthProof { principal: p }
}

fn fresh() -> TerraTokenization {
    let mut reg = TerraTokenization::new(REG_ADDR);
    reg.init(&proof_for(ADMIN), ADMIN).unwrap();
    reg
}

fn add_asset(reg: &mut TerraTokenization, price: i128, total: i128) -> u64 {
    reg.create_asset(
        &proof_for(SELLER),
        SELLER,
        "farmland".to_string(),
        "north field".to_string(),
        price,
        total,
    )
    .unwrap()
}

#[test]
fn init_is_one_time() {
    let mut reg = TerraTokenization::new(REG_ADDR);
    assert_eq!(reg.init(&proof_for(ADMIN), ADMIN), Ok(()));
    assert_eq!(
        reg.init(&proof_for(ADMIN), ADMIN),
        Err(Error::AlreadyInitialized)
    );
}

#[test]
fn init_needs_admin_authorization() {
    let mut reg = TerraTokenization::new(REG_ADDR);
    assert_eq!(
        reg.init(&proof_for(SELLER), ADMIN),
        Err(Error::Unauthorized)
    );
}

#[test]
fn set_marketplace_is_admin_gated() {
    let mut reg = TerraTokenization::new(REG_ADDR);
    assert_eq!(
        reg.set_marketplace(&proof_for(ADMIN), Principal(11)),
        Err(Error::NotInitialized)
    );
    reg.init(&proof_for(ADMIN), ADMIN).unwrap();
    assert_eq!(
        reg.set_marketplace(&proof_for(SELLER), Principal(11)),
        Err(Error::Unauthorized)
    );
    assert_eq!(reg.get_marketplace(), None);
    reg.set_marketplace(&proof_for(ADMIN), Principal(11)).unwrap();
    assert_eq!(reg.get_marketplace(), Some(Principal(11)));
}

#[test]
fn create_asset_assigns_sequential_ids() {
    let mut reg = fresh();
    assert_eq!(add_asset(&mut reg, 10, 100), 1);
    assert_eq!(add_asset(&mut reg, 20, 200), 2);
    assert_eq!(add_asset(&mut reg, 30, 300), 3);
    let a2 = reg.get_asset(2).unwrap();
    assert_eq!(a2.id, 2);
    assert_eq!(a2.price_per_token, 20);
    assert_eq!(a2.total_tokens, 200);
    assert_eq!(a2.available_tokens, 200);
    assert!(a2.active);
    assert_eq!(a2.seller, SELLER);
    assert_eq!(a2.category, "farmland".to_string());
    assert_eq!(a2.title, "north field".to_string());
}

#[test]
fn create_asset_validates_inputs() {
    let mut reg = fresh();
    let ap = proof_for(SELLER);
    assert_eq!(
        reg.create_asset(&ap, SELLER, "c".to_string(), "t".to_string(), 0, 10),
        Err(Error::InvalidInput)
    );
    assert_eq!(
        reg.create_asset(&ap, SELLER, "c".to_string(), "t".to_string(), -5, 10),
        Err(Error::InvalidInput)
    );
    assert_eq!(
        reg.create_asset(&ap, SELLER, "c".to_string(), "t".to_string(), 10, 0),
        Err(Error::InvalidInput)
    );
    assert_eq!(
        reg.create_asset(&ap, SELLER, "".to_string(), "t".to_string(), 10, 10),
        Err(Error::InvalidInput)
    );
    assert_eq!(
        reg.create_asset(&ap, SELLER, "c".to_string(), "".to_string(), 10, 10),
        Err(Error::InvalidInput)
    );
    let long = "x".repeat(121);
    assert_eq!(
        reg.create_asset(&ap, SELLER, long.clone(), "t".to_string(), 10, 10),
        Err(Error::InvalidInput)
    );
    assert_eq!(
        reg.create_asset(&ap, SELLER, "c".to_string(), long, 10, 10),
        Err(Error::InvalidInput)
    );
    // 120 bytes is the largest accepted length
    let edge = "x".repeat(120);
    assert!(reg
        .create_asset(&ap, SELLER, edge.clone(), edge, 10, 10)
        .is_ok());
    // lengths are measured in bytes: 61 two-byte characters are
    // 122 bytes and rejected, 60 of them are 120 bytes and accepted
    let wide = "\u{e9}".repeat(61);
    assert_eq!(wide.len(), 122);
    assert_eq!(
        reg.create_asset(&ap, SELLER, wide, "t".to_string(), 10, 10),
        Err(Error::InvalidInput)
    );
    let wide_edge = "\u{e9}".repeat(60);
    assert!(reg
        .create_asset(&ap, SELLER, "c".to_string(), wide_edge, 10, 10)
        .is_ok());
    // the seller's own authorization is demanded
    assert_eq!(
        reg.create_asset(
            &proof_for(BUYER),
            SELLER,
            "c".to_string(),
            "t".to_string(),
            10,
            10
        ),
        Err(Error::Unauthorized)
    );
}

#[test]
fn get_asset_not_found() {
    let mut reg = fresh();
    assert_eq!(reg.get_asset(1).unwrap_err(), Error::NotFound);
    add_asset(&mut reg, 10, 100);
    assert!(reg.get_asset(1).is_ok());
    assert_eq!(reg.get_asset(0).unwrap_err(), Error::NotFound);
    assert_eq!(reg.get_asset(2).unwrap_err(), Error::NotFound);
}

#[test]
fn balances_default_to_zero() {
    let mut reg = fresh();
    add_asset(&mut reg, 10, 100);
    assert_eq!(reg.get_buyer_balance(1, BUYER), 0);
    assert_eq!(reg.get_buyer_balance(99, BUYER), 0);
}

#[test]
fn direct_buy_works_without_coordinator() {
    let mut reg = fresh();
    add_asset(&mut reg, 7, 100);
    let total = reg.buy_tokens(&proof_for(BUYER), BUYER, 1, 3).unwrap();
    assert_eq!(total, 21);
    assert_eq!(reg.get_asset(1).unwrap().available_tokens, 97);
    assert_eq!(reg.get_buyer_balance(1, BUYER), 3);
    // same keys accumulate into one balance
    reg.buy_tokens(&proof_for(BUYER), BUYER, 1, 2).unwrap();
    assert_eq!(reg.get_buyer_balance(1, BUYER), 5);
}

#[test]
fn direct_buy_validations() {
    let mut reg = fresh();
    add_asset(&mut reg, 7, 100);
    assert_eq!(
        reg.buy_tokens(&proof_for(SELLER), BUYER, 1, 3),
        Err(Error::Unauthorized)
    );
    assert_eq!(
        reg.buy_tokens(&proof_for(BUYER), BUYER, 1, 0),
        Err(Error::InvalidInput)
    );
    assert_eq!(
        reg.buy_tokens(&proof_for(BUYER), BUYER, 1, -2),
        Err(Error::InvalidInput)
    );
    assert_eq!(
        reg.buy_tokens(&proof_for(BUYER), BUYER, 2, 3),
        Err(Error::NotFound)
    );
    assert_eq!(
        reg.buy_tokens(&proof_for(BUYER), BUYER, 1, 101),
        Err(Error::InsufficientAvailability)
    );
}

#[test]
fn direct_buy_cost_overflow() {
    let mut reg = fresh();
    add_asset(&mut reg, i128::MAX, 10);
    assert_eq!(
        reg.buy_tokens(&proof_for(BUYER), BUYER, 1, 2),
        Err(Error::ArithmeticOverflow)
    );
    // nothing was applied
    assert_eq!(reg.get_asset(1).unwrap().available_tokens, 10);
    assert_eq!(reg.get_buyer_balance(1, BUYER), 0);
}

#[test]
fn set_asset_active_is_seller_gated() {
    let mut reg = fresh();
    add_asset(&mut reg, 10, 100);
    assert_eq!(
        reg.set_asset_active(&proof_for(BUYER), BUYER, 1, false),
        Err(Error::Unauthorized)
    );
    assert_eq!(
        reg.set_asset_active(&proof_for(SELLER), SELLER, 9, false),
        Err(Error::NotFound)
    );
    // a proof for the wrong seller is also refused
    assert_eq!(
        reg.set_asset_active(&proof_for(BUYER), SELLER, 1, false),
        Err(Error::Unauthorized)
    );
    reg.set_asset_active(&proof_for(SELLER), SELLER, 1, false)
        .unwrap();
    assert!(!reg.get_asset(1).unwrap().active);
    reg.set_asset_active(&proof_for(SELLER), SELLER, 1, true)
        .unwrap();
    assert!(reg.get_asset(1).unwrap().active);
}

#[test]
fn list_assets_pages_in_order() {
    let mut reg = fresh();
    for i in 0..7 {
        add_asset(&mut reg, 10 + i, 100);
    }
    let page = reg.list_assets(0, 3);
    let ids: Vec<u64> = page.iter().map(|e| e.0).collect();
    assert_eq!(ids, vec![1, 2, 3]);
    let page = reg.list_assets(3, 10);
    let ids: Vec<u64> = page.iter().map(|e| e.0).collect();
    assert_eq!(ids, vec![3, 4, 5, 6, 7]);
    for (id, asset) in &page {
        assert_eq!(asset.id, *id);
    }
    assert!(reg.list_assets(8, 10).is_empty());
    assert!(reg.list_assets(100, 10).is_empty());
    assert!(reg.list_assets(1, 0).is_empty());
}

#[test]
fn list_assets_caps_at_fifty() {
    let mut reg = fresh();
    for _ in 0..55 {
        add_asset(&mut reg, 10, 100);
    }
    assert_eq!(reg.list_assets(1, 200).len(), 50);
    assert_eq!(reg.list_assets(1, 55).len(), 50);
    assert_eq!(reg.list_assets(50, 200).len(), 6);
}
