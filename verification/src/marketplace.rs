use vstd::prelude::*;
use vstd::arithmetic::div_mod::{
    lemma_div_is_ordered, lemma_div_multiples_vanish, lemma_div_pos_is_pos,
};
use vstd::arithmetic::mul::{
    lemma_mul_inequality, lemma_mul_is_commutative, lemma_mul_nonnegative,
    lemma_mul_strictly_positive,
};

use crate::auth::{AuthProof, Principal, SaleGrant};
use crate::errors::Error;
use crate::registry::TerraTokenization;

verus! {

/// Basis points denominator: fees are expressed in 1/10000 shares.
pub const BPS_DENOMINATOR: i128 = 10_000;

/// Highest platform fee the coordinator accepts, in basis points.
pub const MAX_FEE_BPS: i128 = 2_000;

/// The ephemeral result of a priced purchase; never persisted.
#[derive(Clone, Copy, Debug, PartialEq, Eq, Structural)]
pub struct PurchaseReceipt {
    pub asset_id: u64,
    pub seller: Principal,
    pub buyer: Principal,
    pub quantity: i128,
    pub total_paid: i128,
    pub fee_paid: i128,
    pub seller_amount: i128,
}

/// One payment leg for the external transfer gateway to perform,
/// atomically with the purchase it belongs to.
#[derive(Clone, Copy, Debug, PartialEq, Eq, Structural)]
pub struct Transfer {
    pub from: Principal,
    pub to: Principal,
    pub amount: i128,
}

/// The coordinator's installed configuration.
pub struct MarketConfig {
    pub admin: Principal,
    pub tokenization_contract: Principal,
    pub payment_token: Principal,
    pub treasury: Principal,
    pub fee_bps: i128,
    pub active_network: String,
    pub testnet_token: Option<Principal>,
    pub mainnet_token: Option<Principal>,
    pub liquidity_destination: Option<Principal>,
    pub liquidity_share_bps: i128,
}

/// The network tags the coordinator recognizes.
pub open spec fn supported_network(tag: Seq<char>) -> bool {
    tag == "testnet"@ || tag == "mainnet"@
}

impl MarketConfig {
    /// Every installed configuration keeps its rates in range and only
    /// carries a liquidity share while a destination is configured.
    pub open spec fn wf(self) -> bool {
        &&& 0 <= self.fee_bps <= MAX_FEE_BPS
        &&& 0 <= self.liquidity_share_bps <= BPS_DENOMINATOR
        &&& self.liquidity_destination is None ==> self.liquidity_share_bps == 0
        &&& supported_network(self.active_network@)
    }
}

/// Truncating basis-point share: `floor(amount * bps / 10000)`.
pub open spec fn spec_bps(amount: int, bps: int) -> int {
    amount * bps / (BPS_DENOMINATOR as int)
}

/// A share taken at up to the full denominator never exceeds the
/// amount it is taken from, and never goes negative.
pub proof fn lemma_bps_bounds(amount: int, bps: int)
    requires
        0 <= amount,
        0 <= bps <= BPS_DENOMINATOR as int,
    ensures
        0 <= spec_bps(amount, bps) <= amount,
{
    let d = BPS_DENOMINATOR as int;
    lemma_mul_nonnegative(amount, bps);
    lemma_div_pos_is_pos(amount * bps, d);
    lemma_mul_inequality(bps, d, amount);
    lemma_mul_is_commutative(bps, amount);
    lemma_mul_is_commutative(d, amount);
    lemma_div_is_ordered(amount * bps, d * amount, d);
    lemma_div_multiples_vanish(amount, d);
}

/// The receipt a purchase of `quantity` tokens of asset `a` yields
/// under fee rate `fee_bps`.
pub open spec fn spec_receipt(a: crate::registry::Asset, buyer: Principal, asset_id: u64, quantity: i128, fee_bps: i128) -> PurchaseReceipt {
    let total = a.price_per_token * quantity;
    let fee = spec_bps(total, fee_bps as int);
    PurchaseReceipt {
        asset_id,
        seller: a.seller,
        buyer,
        quantity,
        total_paid: total as i128,
        fee_paid: fee as i128,
        seller_amount: (total - fee) as i128,
    }
}

/// The payment legs a successful purchase issues, in order: the
/// seller's share, then the fee — split between treasury and the
/// liquidity destination when one is configured — with zero-value
/// transfers never issued.
pub open spec fn spec_payment_legs(c: MarketConfig, rc: PurchaseReceipt) -> Seq<Transfer> {
    let seller_legs: Seq<Transfer> = if rc.seller_amount > 0 {
        seq![Transfer { from: rc.buyer, to: rc.seller, amount: rc.seller_amount }]
    } else {
        Seq::empty()
    };
    let fee_legs: Seq<Transfer> = if rc.fee_paid > 0 {
        if c.liquidity_destination is Some {
            let liq = spec_bps(rc.fee_paid as int, c.liquidity_share_bps as int);
            let tre = rc.fee_paid - liq;
            (if tre > 0 {
                seq![Transfer { from: rc.buyer, to: c.treasury, amount: tre as i128 }]
            } else {
                Seq::empty()
            }) + (if liq > 0 {
                seq![Transfer { from: rc.buyer, to: c.liquidity_destination->Some_0, amount: liq as i128 }]
            } else {
                Seq::empty()
            })
        } else {
            seq![Transfer { from: rc.buyer, to: c.treasury, amount: rc.fee_paid }]
        }
    } else {
        Seq::empty()
    };
    seller_legs + fee_legs
}

/// The marketplace coordinator: computes totals and fees, drives the
/// payment legs, and delegates a scoped grant to the registry's
/// restricted sale entry point.
pub struct TerraMarketplace {
    /// The coordinator's own principal, the grantor of every sale
    /// delegation it issues.
    pub address: Principal,
    pub config: Option<MarketConfig>,
}

impl TerraMarketplace {
    pub open spec fn wf(self) -> bool {
        self.config matches Some(c) ==> c.wf()
    }

    /// A freshly deployed coordinator, before one-time initialization.
    pub fn new(address: Principal) -> (r: Self)
        ensures
            r.wf(),
            r.address == address,
            r.config is None,
    {
        TerraMarketplace { address, config: None }
    }

    /// Truncating basis-point share of `amount`, with the checked
    /// multiplication's overflow surfaced.
    pub fn calc_bps(amount: i128, bps: i128) -> (r: Result<i128, Error>)
        requires
            0 <= amount,
            0 <= bps,
        ensures
            r matches Ok(f) ==> amount * bps <= i128::MAX && f == spec_bps(amount as int, bps as int),
            r matches Err(e) ==> amount * bps > i128::MAX && e == Error::ArithmeticOverflow,
    {
        let prod = match amount.checked_mul(bps) {
            Some(p) => p,
            None => { return Err(Error::ArithmeticOverflow); },
        };
        proof {
            lemma_mul_nonnegative(amount as int, bps as int);
            lemma_div_pos_is_pos(prod as int, BPS_DENOMINATOR as int);
            lemma_div_is_ordered(0, prod as int, BPS_DENOMINATOR as int);
            vstd::arithmetic::div_mod::lemma_div_nonincreasing(prod as int, BPS_DENOMINATOR as int);
        }
        let q = ((prod as u128) / (BPS_DENOMINATOR as u128)) as i128;
        Ok(q)
    }

    /// One-time installation of the configuration. The active network
    /// starts at `testnet`, whose payment token is the one given here.
    pub fn init(
        &mut self,
        auth: &AuthProof,
        admin: Principal,
        tokenization_contract: Principal,
        payment_token: Principal,
        treasury: Principal,
        fee_bps: i128,
    ) -> (r: Result<(), Error>)
        requires
            old(self).wf(),
        ensures
            final(self).wf(),
            final(self).address == old(self).address,
            old(self).config is Some ==>
                r == Err::<(), Error>(Error::AlreadyInitialized) && *final(self) == *old(self),
            old(self).config is None && auth.principal != admin ==>
                r == Err::<(), Error>(Error::Unauthorized) && *final(self) == *old(self),
            old(self).config is None && auth.principal == admin && !(0 <= fee_bps <= MAX_FEE_BPS) ==>
                r == Err::<(), Error>(Error::InvalidInput) && *final(self) == *old(self),
            old(self).config is None && auth.principal == admin && 0 <= fee_bps <= MAX_FEE_BPS ==> ({
                &&& r == Ok::<(), Error>(())
                &&& final(self).config is Some
                &&& final(self).config->Some_0.admin == admin
                &&& final(self).config->Some_0.tokenization_contract == tokenization_contract
                &&& final(self).config->Some_0.payment_token == payment_token
                &&& final(self).config->Some_0.treasury == treasury
                &&& final(self).config->Some_0.fee_bps == fee_bps
                &&& final(self).config->Some_0.active_network@ == "testnet"@
                &&& final(self).config->Some_0.testnet_token == Some(payment_token)
                &&& final(self).config->Some_0.mainnet_token is None
                &&& final(self).config->Some_0.liquidity_destination is None
                &&& final(self).config->Some_0.liquidity_share_bps == 0
            }),
    {
        if self.config.is_some() {
            return Err(Error::AlreadyInitialized);
        }
        if auth.principal != admin {
            return Err(Error::Unauthorized);
        }
        if fee_bps < 0 || fee_bps > MAX_FEE_BPS {
            return Err(Error::InvalidInput);
        }
        self.config = Some(MarketConfig {
            admin,
            tokenization_contract,
            payment_token,
            treasury,
            fee_bps,
            active_network: "testnet".to_owned(),
            testnet_token: Some(payment_token),
            mainnet_token: None,
            liquidity_destination: None,
            liquidity_share_bps: 0,
        });
        Ok(())
    }

    /// Replaces the treasury and platform fee rate, admin-gated.
    pub fn set_fee_config(&mut self, auth: &AuthProof, treasury: Principal, fee_bps: i128) -> (r: Result<(), Error>)
        requires
            old(self).wf(),
        ensures
            final(self).wf(),
            old(self).config is None ==>
                r == Err::<(), Error>(Error::NotInitialized) && *final(self) == *old(self),
            old(self).config is Some && auth.principal != old(self).config->Some_0.admin ==>
                r == Err::<(), Error>(Error::Unauthorized) && *final(self) == *old(self),
            old(self).config is Some && auth.principal == old(self).config->Some_0.admin && !(0 <= fee_bps <= MAX_FEE_BPS) ==>
                r == Err::<(), Error>(Error::InvalidInput) && *final(self) == *old(self),
            old(self).config is Some && auth.principal == old(self).config->Some_0.admin && 0 <= fee_bps <= MAX_FEE_BPS ==>
                r == Ok::<(), Error>(())
                && final(self).address == old(self).address
                && final(self).config == Some(MarketConfig { treasury, fee_bps, ..old(self).config->Some_0 }),
    {
        let admin = match &self.config {
            Some(c) => c.admin,
            None => { return Err(Error::NotInitialized); },
        };
        if auth.principal != admin {
            return Err(Error::Unauthorized);
        }
        if fee_bps < 0 || fee_bps > MAX_FEE_BPS {
            return Err(Error::InvalidInput);
        }
        match &mut self.config {
            Some(c) => {
                c.treasury = treasury;
                c.fee_bps = fee_bps;
            },
            None => {},
        }
        Ok(())
    }

    /// Replaces the fallback payment token, admin-gated.
    pub fn set_payment_token(&mut self, auth: &AuthProof, payment_token: Principal) -> (r: Result<(), Error>)
        requires
            old(self).wf(),
        ensures
            final(self).wf(),
            old(self).config is None ==>
                r == Err::<(), Error>(Error::NotInitialized) && *final(self) == *old(self),
            old(self).config is Some && auth.principal != old(self).config->Some_0.admin ==>
                r == Err::<(), Error>(Error::Unauthorized) && *final(self) == *old(self),
            old(self).config is Some && auth.principal == old(self).config->Some_0.admin ==>
                r == Ok::<(), Error>(())
                && final(self).address == old(self).address
                && final(self).config == Some(MarketConfig { payment_token, ..old(self).config->Some_0 }),
    {
        let admin = match &self.config {
            Some(c) => c.admin,
            None => { return Err(Error::NotInitialized); },
        };
        if auth.principal != admin {
            return Err(Error::Unauthorized);
        }
        match &mut self.config {
            Some(c) => {
                c.payment_token = payment_token;
            },
            None => {},
        }
        Ok(())
    }

    /// What storing a network's payment token does to the config.
    pub open spec fn spec_with_network_token(c: MarketConfig, tag: Seq<char>, token: Principal) -> MarketConfig {
        if tag == "testnet"@ {
            MarketConfig { testnet_token: Some(token), ..c }
        } else {
            MarketConfig { mainnet_token: Some(token), ..c }
        }
    }

    /// Registers the payment token one recognized network settles in,
    /// admin-gated; unrecognized tags fail `UnsupportedNetwork`.
    pub fn set_network_payment_token(&mut self, auth: &AuthProof, network: String, payment_token: Principal) -> (r: Result<(), Error>)
        requires
            old(self).wf(),
        ensures
            final(self).wf(),
            old(self).config is None ==>
                r == Err::<(), Error>(Error::NotInitialized) && *final(self) == *old(self),
            old(self).config is Some && auth.principal != old(self).config->Some_0.admin ==>
                r == Err::<(), Error>(Error::Unauthorized) && *final(self) == *old(self),
            old(self).config is Some && auth.principal == old(self).config->Some_0.admin && !supported_network(network@) ==>
                r == Err::<(), Error>(Error::UnsupportedNetwork) && *final(self) == *old(self),
            old(self).config is Some && auth.principal == old(self).config->Some_0.admin && supported_network(network@) ==>
                r == Ok::<(), Error>(())
                && final(self).address == old(self).address
                && final(self).config == Some(Self::spec_with_network_token(old(self).config->Some_0, network@, payment_token)),
    {
        let admin = match &self.config {
            Some(c) => c.admin,
            None => { return Err(Error::NotInitialized); },
        };
        if auth.principal != admin {
            return Err(Error::Unauthorized);
        }
        if is_testnet(&network) {
            match &mut self.config {
                Some(c) => { c.testnet_token = Some(payment_token); },
                None => {},
            }
            Ok(())
        } else if is_mainnet(&network) {
            match &mut self.config {
                Some(c) => { c.mainnet_token = Some(payment_token); },
                None => {},
            }
            Ok(())
        } else {
            Err(Error::UnsupportedNetwork)
        }
    }

    /// Switches which recognized network purchases settle on,
    /// admin-gated.
    pub fn set_active_network(&mut self, auth: &AuthProof, network: String) -> (r: Result<(), Error>)
        requires
            old(self).wf(),
        ensures
            final(self).wf(),
            old(self).config is None ==>
                r == Err::<(), Error>(Error::NotInitialized) && *final(self) == *old(self),
            old(self).config is Some && auth.principal != old(self).config->Some_0.admin ==>
                r == Err::<(), Error>(Error::Unauthorized) && *final(self) == *old(self),
            old(self).config is Some && auth.principal == old(self).config->Some_0.admin && !supported_network(network@) ==>
                r == Err::<(), Error>(Error::UnsupportedNetwork) && *final(self) == *old(self),
            old(self).config is Some && auth.principal == old(self).config->Some_0.admin && supported_network(network@) ==>
                r == Ok::<(), Error>(())
                && final(self).address == old(self).address
                && final(self).config == Some(MarketConfig { active_network: network, ..old(self).config->Some_0 }),
    {
        let admin = match &self.config {
            Some(c) => c.admin,
            None => { return Err(Error::NotInitialized); },
        };
        if auth.principal != admin {
            return Err(Error::Unauthorized);
        }
        if !is_supported_network(&network) {
            return Err(Error::UnsupportedNetwork);
        }
        match &mut self.config {
            Some(c) => { c.active_network = network; },
            None => {},
        }
        Ok(())
    }

    pub fn get_active_network(&self) -> (r: Option<String>)
        ensures
            self.config is None ==> r is None,
            self.config is Some ==> r is Some && r->Some_0@ == self.config->Some_0.active_network@,
    {
        match &self.config {
            Some(c) => Some(c.active_network.clone()),
            None => None,
        }
    }

    /// The payment token registered for `tag`, when the coordinator is
    /// configured and the tag is recognized.
    pub open spec fn spec_network_token(self, tag: Seq<char>) -> Option<Principal> {
        if self.config is None {
            None
        } else if tag == "testnet"@ {
            self.config->Some_0.testnet_token
        } else if tag == "mainnet"@ {
            self.config->Some_0.mainnet_token
        } else {
            None
        }
    }

    pub fn get_network_payment_token(&self, network: &String) -> (r: Option<Principal>)
        ensures
            r == self.spec_network_token(network@),
    {
        match &self.config {
            None => None,
            Some(c) => {
                if is_testnet(network) {
                    c.testnet_token
                } else if is_mainnet(network) {
                    c.mainnet_token
                } else {
                    None
                }
            },
        }
    }

    /// Installs or clears the liquidity split, admin-gated. The share
    /// range is checked only when a destination is given; clearing
    /// always succeeds and forces the share back to zero, so splitting
    /// is only ever active alongside a destination.
    pub fn set_liquidity_config(&mut self, auth: &AuthProof, destination: Option<Principal>, share_bps: i128) -> (r: Result<(), Error>)
        requires
            old(self).wf(),
        ensures
            final(self).wf(),
            old(self).config is None ==>
                r == Err::<(), Error>(Error::NotInitialized) && *final(self) == *old(self),
            old(self).config is Some && auth.principal != old(self).config->Some_0.admin ==>
                r == Err::<(), Error>(Error::Unauthorized) && *final(self) == *old(self),
            old(self).config is Some && auth.principal == old(self).config->Some_0.admin && destination is Some && !(0 <= share_bps <= BPS_DENOMINATOR) ==>
                r == Err::<(), Error>(Error::InvalidInput) && *final(self) == *old(self),
            old(self).config is Some && auth.principal == old(self).config->Some_0.admin && destination is Some && 0 <= share_bps <= BPS_DENOMINATOR ==>
                r == Ok::<(), Error>(())
                && final(self).address == old(self).address
                && final(self).config == Some(MarketConfig {
                        liquidity_destination: destination,
                        liquidity_share_bps: share_bps,
                        ..old(self).config->Some_0
                    }),
            old(self).config is Some && auth.principal == old(self).config->Some_0.admin && destination is None ==>
                r == Ok::<(), Error>(())
                && final(self).address == old(self).address
                && final(self).config == Some(MarketConfig {
                        liquidity_destination: None,
                        liquidity_share_bps: 0,
                        ..old(self).config->Some_0
                    }),
    {
        let admin = match &self.config {
            Some(c) => c.admin,
            None => { return Err(Error::NotInitialized); },
        };
        if auth.principal != admin {
            return Err(Error::Unauthorized);
        }
        match destination {
            Some(d) => {
                if share_bps < 0 || share_bps > BPS_DENOMINATOR {
                    return Err(Error::InvalidInput);
                }
                match &mut self.config {
                    Some(c) => {
                        c.liquidity_destination = Some(d);
                        c.liquidity_share_bps = share_bps;
                    },
                    None => {},
                }
            },
            None => {
                match &mut self.config {
                    Some(c) => {
                        c.liquidity_destination = None;
                        c.liquidity_share_bps = 0;
                    },
                    None => {},
                }
            },
        }
        Ok(())
    }

    /// The token purchases settle in: the active network's registered
    /// token when present, else the fallback payment token.
    pub open spec fn spec_payment_token(self) -> Option<Principal> {
        if self.config is None {
            None
        } else if self.spec_network_token(self.config->Some_0.active_network@) is Some {
            self.spec_network_token(self.config->Some_0.active_network@)
        } else {
            Some(self.config->Some_0.payment_token)
        }
    }

    pub fn get_payment_token(&self) -> (r: Result<Principal, Error>)
        ensures
            r matches Ok(t) ==> self.spec_payment_token() == Some(t),
            r matches Err(e) ==> self.spec_payment_token() is None && e == Error::NotInitialized,
    {
        match &self.config {
            None => Err(Error::NotInitialized),
            Some(c) => {
                match self.get_network_payment_token(&c.active_network) {
                    Some(t) => Ok(t),
                    None => Ok(c.payment_token),
                }
            },
        }
    }

    /// What a priced read of `asset_id` returns against the registry
    /// snapshot `reg`: the validation order of the pure preview path.
    pub open spec fn spec_preview(self, reg: TerraTokenization, buyer: Principal, asset_id: u64, quantity: i128) -> Result<PurchaseReceipt, Error> {
        if self.config is None {
            Err(Error::NotInitialized)
        } else if reg.spec_asset(asset_id) is None {
            Err(Error::NotFound)
        } else if quantity <= 0 {
            Err(Error::InvalidInput)
        } else if !reg.spec_asset(asset_id)->Some_0.active {
            Err(Error::InactiveAsset)
        } else if reg.spec_asset(asset_id)->Some_0.available_tokens < quantity {
            Err(Error::InsufficientAvailability)
        } else if reg.spec_asset(asset_id)->Some_0.price_per_token * quantity > i128::MAX {
            Err(Error::ArithmeticOverflow)
        } else if reg.spec_asset(asset_id)->Some_0.price_per_token * quantity * self.config->Some_0.fee_bps > i128::MAX {
            Err(Error::ArithmeticOverflow)
        } else {
            Ok(spec_receipt(reg.spec_asset(asset_id)->Some_0, buyer, asset_id, quantity, self.config->Some_0.fee_bps))
        }
    }

    /// Pure read: prices a purchase against the current snapshot
    /// without touching any state, so two calls under an unchanged
    /// snapshot return the same receipt.
    pub fn preview_purchase(&self, registry: &TerraTokenization, buyer: Principal, asset_id: u64, quantity: i128) -> (r: Result<PurchaseReceipt, Error>)
        requires
            self.wf(),
            registry.wf(),
        ensures
            r == self.spec_preview(*registry, buyer, asset_id, quantity),
    {
        let cfg = match &self.config {
            Some(c) => c,
            None => { return Err(Error::NotInitialized); },
        };
        let asset = match registry.get_asset(asset_id) {
            Ok(a) => a,
            Err(e) => { return Err(e); },
        };
        if quantity <= 0 {
            return Err(Error::InvalidInput);
        }
        if !asset.active {
            return Err(Error::InactiveAsset);
        }
        if asset.available_tokens < quantity {
            return Err(Error::InsufficientAvailability);
        }
        proof {
            lemma_mul_strictly_positive(asset.price_per_token as int, quantity as int);
        }
        let total = match asset.price_per_token.checked_mul(quantity) {
            Some(t) => t,
            None => { return Err(Error::ArithmeticOverflow); },
        };
        let fee = match Self::calc_bps(total, cfg.fee_bps) {
            Ok(f) => f,
            Err(e) => { return Err(e); },
        };
        proof {
            lemma_bps_bounds(total as int, cfg.fee_bps as int);
        }
        let seller_amount = match total.checked_sub(fee) {
            Some(v) => v,
            None => { return Err(Error::ArithmeticUnderflow); },
        };
        Ok(PurchaseReceipt {
            asset_id,
            seller: asset.seller,
            buyer,
            quantity,
            total_paid: total,
            fee_paid: fee,
            seller_amount,
        })
    }

    /// What the coordinated purchase decides, in the order the checks
    /// run: buyer authorization, pricing against the snapshot, the
    /// liquidity split, then the registry's own gate and mutation.
    pub open spec fn spec_buy_outcome(self, reg: TerraTokenization, auth: AuthProof, buyer: Principal, asset_id: u64, quantity: i128) -> Result<(PurchaseReceipt, Seq<Transfer>), Error> {
        if auth.principal != buyer {
            Err(Error::Unauthorized)
        } else if quantity <= 0 {
            Err(Error::InvalidInput)
        } else if self.config is None {
            Err(Error::NotInitialized)
        } else if reg.spec_asset(asset_id) is None {
            Err(Error::NotFound)
        } else if !reg.spec_asset(asset_id)->Some_0.active {
            Err(Error::InactiveAsset)
        } else if reg.spec_asset(asset_id)->Some_0.available_tokens < quantity {
            Err(Error::InsufficientAvailability)
        } else if reg.spec_asset(asset_id)->Some_0.price_per_token * quantity > i128::MAX {
            Err(Error::ArithmeticOverflow)
        } else if reg.spec_asset(asset_id)->Some_0.price_per_token * quantity * self.config->Some_0.fee_bps > i128::MAX {
            Err(Error::ArithmeticOverflow)
        } else {
            let c = self.config->Some_0;
            let rc = spec_receipt(reg.spec_asset(asset_id)->Some_0, buyer, asset_id, quantity, c.fee_bps);
            if rc.fee_paid > 0 && c.liquidity_destination is Some && rc.fee_paid * c.liquidity_share_bps > i128::MAX {
                Err(Error::ArithmeticOverflow)
            } else if reg.marketplace is None {
                Err(Error::NotInitialized)
            } else if !(self.address == reg.marketplace->Some_0 && c.tokenization_contract == reg.address) {
                Err(Error::Unauthorized)
            } else if reg.spec_balance(asset_id, buyer) + quantity > i128::MAX {
                Err(Error::ArithmeticOverflow)
            } else {
                Ok((rc, spec_payment_legs(c, rc)))
            }
        }
    }

    /// The coordinated purchase: re-derives the preview totals, issues
    /// the payment legs, grants the scoped delegation, and drives the
    /// registry's restricted mutation. Atomic end to end: on any error
    /// the registry is untouched and no payment leg is issued.
    pub fn buy_tokens(&self, registry: &mut TerraTokenization, auth: &AuthProof, buyer: Principal, asset_id: u64, quantity: i128) -> (r: Result<(PurchaseReceipt, Vec<Transfer>), Error>)
        requires
            self.wf(),
            old(registry).wf(),
        ensures
            final(registry).wf(),
            r matches Ok(p) ==> ({
                &&& self.spec_buy_outcome(*old(registry), *auth, buyer, asset_id, quantity) matches Ok(q)
                &&& p.0 == q.0
                &&& p.1@ == q.1
                &&& TerraTokenization::sale_step(*old(registry), *final(registry), asset_id, buyer, quantity)
            }),
            r matches Err(e) ==> ({
                &&& self.spec_buy_outcome(*old(registry), *auth, buyer, asset_id, quantity) == Err::<(PurchaseReceipt, Seq<Transfer>), Error>(e)
                &&& *final(registry) == *old(registry)
            }),
    {
        if auth.principal != buyer {
            return Err(Error::Unauthorized);
        }
        if quantity <= 0 {
            return Err(Error::InvalidInput);
        }
        let cfg = match &self.config {
            Some(c) => c,
            None => { return Err(Error::NotInitialized); },
        };
        let asset = match registry.get_asset(asset_id) {
            Ok(a) => a,
            Err(e) => { return Err(e); },
        };
        if !asset.active {
            return Err(Error::InactiveAsset);
        }
        if asset.available_tokens < quantity {
            return Err(Error::InsufficientAvailability);
        }
        proof {
            lemma_mul_strictly_positive(asset.price_per_token as int, quantity as int);
        }
        let total = match asset.price_per_token.checked_mul(quantity) {
            Some(t) => t,
            None => { return Err(Error::ArithmeticOverflow); },
        };
        let fee = match Self::calc_bps(total, cfg.fee_bps) {
            Ok(f) => f,
            Err(e) => { return Err(e); },
        };
        proof {
            lemma_bps_bounds(total as int, cfg.fee_bps as int);
        }
        let seller_amount = match total.checked_sub(fee) {
            Some(v) => v,
            None => { return Err(Error::ArithmeticUnderflow); },
        };
        let receipt = PurchaseReceipt {
            asset_id,
            seller: asset.seller,
            buyer,
            quantity,
            total_paid: total,
            fee_paid: fee,
            seller_amount,
        };

        let mut payments: Vec<Transfer> = Vec::new();
        if seller_amount > 0 {
            payments.push(Transfer { from: buyer, to: asset.seller, amount: seller_amount });
        }
        if fee > 0 {
            match &cfg.liquidity_destination {
                Some(dest) => {
                    let liquidity_amount = match Self::calc_bps(fee, cfg.liquidity_share_bps) {
                        Ok(v) => v,
                        Err(e) => { return Err(e); },
                    };
                    proof {
                        lemma_bps_bounds(fee as int, cfg.liquidity_share_bps as int);
                    }
                    let treasury_amount = match fee.checked_sub(liquidity_amount) {
                        Some(v) => v,
                        None => { return Err(Error::ArithmeticUnderflow); },
                    };
                    if treasury_amount > 0 {
                        payments.push(Transfer { from: buyer, to: cfg.treasury, amount: treasury_amount });
                    }
                    if liquidity_amount > 0 {
                        payments.push(Transfer { from: buyer, to: *dest, amount: liquidity_amount });
                    }
                },
                None => {
                    payments.push(Transfer { from: buyer, to: cfg.treasury, amount: fee });
                },
            }
        }
        proof {
            let c = self.config->Some_0;
            let a = old(registry).spec_asset(asset_id)->Some_0;
            let rc = spec_receipt(a, buyer, asset_id, quantity, c.fee_bps);
            assert(receipt == rc);
            assert(payments@ =~= spec_payment_legs(c, rc));
        }

        let grant = self.authorize_sale_call(cfg.tokenization_contract, asset.seller, buyer, asset_id, quantity);
        match registry.execute_sale(&grant, asset.seller, buyer, asset_id, quantity) {
            Ok(_) => {},
            Err(e) => { return Err(e); },
        }
        Ok((receipt, payments))
    }

    /// The scoped delegation: this coordinator, as grantor, permits
    /// exactly one downstream sale execution with these arguments on
    /// the configured registry, with no further sub-delegation.
    fn authorize_sale_call(&self, tokenization_contract: Principal, seller: Principal, buyer: Principal, asset_id: u64, quantity: i128) -> (g: SaleGrant)
        ensures
            g == (SaleGrant {
                grantor: self.address,
                target: tokenization_contract,
                seller,
                buyer,
                asset_id,
                quantity,
            }),
    {
        SaleGrant {
            grantor: self.address,
            target: tokenization_contract,
            seller,
            buyer,
            asset_id,
            quantity,
        }
    }
}

/// Whether the coordinator recognizes this network tag.
fn is_supported_network(network: &String) -> (r: bool)
    ensures
        r == supported_network(network@),
{
    is_testnet(network) || is_mainnet(network)
}

/// Whether `tag` reads exactly `testnet`.
fn is_testnet(tag: &String) -> (r: bool)
    ensures
        r == (tag@ == "testnet"@),
{
    let t: String = "testnet".to_owned();
    *tag == t
}

/// Whether `tag` reads exactly `mainnet`.
fn is_mainnet(tag: &String) -> (r: bool)
    ensures
        r == (tag@ == "mainnet"@),
{
    let t: String = "mainnet".to_owned();
    *tag == t
}

} // verus!
