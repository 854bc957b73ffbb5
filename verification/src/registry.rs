use vstd::prelude::*;

use crate::auth::{AuthProof, Principal, SaleGrant};
use crate::errors::Error;

verus! {

/// Longest category or title string the registry accepts, in bytes.
pub const MAX_TEXT_LEN: usize = 120;

/// The UTF-8 byte length of a text value: the unit the length bound is
/// measured in.
pub open spec fn text_byte_len(s: Seq<char>) -> nat {
    vstd::utf8::encode_utf8(s).len()
}

/// A fractional, fungible asset position owned by `seller`.
///
/// `available_tokens` only ever decreases, through successful sales,
/// and always stays within `0 ..= total_tokens`.
#[derive(Debug)]
pub struct Asset {
    pub id: u64,
    pub seller: Principal,
    pub category: String,
    pub title: String,
    pub price_per_token: i128,
    pub total_tokens: i128,
    pub available_tokens: i128,
    pub active: bool,
}

impl Asset {
    /// Field-level invariant of every stored asset.
    pub open spec fn valid(self) -> bool {
        &&& self.price_per_token > 0
        &&& self.total_tokens > 0
        &&& 0 <= self.available_tokens <= self.total_tokens
        &&& 1 <= text_byte_len(self.category@) <= MAX_TEXT_LEN
        &&& 1 <= text_byte_len(self.title@) <= MAX_TEXT_LEN
    }
}

/// One buyer's cumulative holding in one asset.
#[derive(Clone, Copy, Debug, PartialEq, Eq, Structural)]
pub struct BalanceEntry {
    pub asset_id: u64,
    pub buyer: Principal,
    pub amount: i128,
}

/// The cumulative balance recorded for `(asset_id, buyer)` in `s`:
/// the first matching entry's amount, or 0 when none is recorded.
pub open spec fn balance_in(s: Seq<BalanceEntry>, asset_id: u64, buyer: Principal) -> i128
    decreases s.len(),
{
    if s.len() == 0 {
        0
    } else if s[0].asset_id == asset_id && s[0].buyer == buyer {
        s[0].amount
    } else {
        balance_in(s.drop_first(), asset_id, buyer)
    }
}

/// No two entries of `s` share a `(asset_id, buyer)` key.
pub open spec fn balances_unique(s: Seq<BalanceEntry>) -> bool {
    forall|i: int, j: int|
        #![trigger s[i], s[j]]
        0 <= i < j < s.len() ==> !(s[i].asset_id == s[j].asset_id && s[i].buyer == s[j].buyer)
}

/// The asset registry: owns asset and balance state, hands out
/// monotonically increasing asset ids, and guards its restricted sale
/// entry point behind the configured coordinator's delegation.
pub struct TerraTokenization {
    /// The registry's own principal; delegation grants must target it.
    pub address: Principal,
    pub admin: Option<Principal>,
    pub marketplace: Option<Principal>,
    pub next_asset_id: u64,
    pub assets: Vec<Asset>,
    pub balances: Vec<BalanceEntry>,
}

/// Everything a checked sale needs before any state is touched, so the
/// mutation itself cannot fail half-way.
struct SalePlan {
    asset_index: usize,
    balance_index: Option<usize>,
    new_balance: i128,
    total: i128,
}

impl TerraTokenization {
    /// The stored asset under `asset_id`, if any. Ids are assigned
    /// densely from 1, so slot `id - 1` of the vector holds id `id`.
    pub open spec fn spec_asset(self, asset_id: u64) -> Option<Asset> {
        if 1 <= asset_id && asset_id - 1 < self.assets@.len() {
            Some(self.assets@[asset_id - 1])
        } else {
            None
        }
    }

    /// The cumulative quantity `buyer` has purchased of `asset_id`.
    pub open spec fn spec_balance(self, asset_id: u64, buyer: Principal) -> i128 {
        balance_in(self.balances@, asset_id, buyer)
    }

    /// Well-formedness: dense ids, valid assets, one balance entry per
    /// key, and only positive recorded balances.
    pub open spec fn wf(self) -> bool {
        &&& 1 <= self.next_asset_id
        &&& self.assets@.len() == self.next_asset_id - 1
        &&& forall|i: int| 0 <= i < self.assets@.len() ==> (#[trigger] self.assets@[i]).id == i + 1
        &&& forall|i: int| 0 <= i < self.assets@.len() ==> (#[trigger] self.assets@[i]).valid()
        &&& balances_unique(self.balances@)
        &&& forall|i: int| 0 <= i < self.balances@.len() ==> (#[trigger] self.balances@[i]).amount > 0
    }

    /// The shared sale validation, in its canonical order, ending in
    /// the total price `price_per_token * quantity` under checked
    /// multiplication.
    pub open spec fn spec_sale_outcome(self, asset_id: u64, quantity: i128, buyer: Principal) -> Result<i128, Error> {
        if quantity <= 0 {
            Err(Error::InvalidInput)
        } else if self.spec_asset(asset_id) is None {
            Err(Error::NotFound)
        } else if !self.spec_asset(asset_id)->Some_0.active {
            Err(Error::InactiveAsset)
        } else if self.spec_asset(asset_id)->Some_0.available_tokens < quantity {
            Err(Error::InsufficientAvailability)
        } else if self.spec_balance(asset_id, buyer) + quantity > i128::MAX {
            Err(Error::ArithmeticOverflow)
        } else if self.spec_asset(asset_id)->Some_0.price_per_token * quantity > i128::MAX {
            Err(Error::ArithmeticOverflow)
        } else {
            Ok((self.spec_asset(asset_id)->Some_0.price_per_token * quantity) as i128)
        }
    }

    /// How a successful sale rewrites the registry: `quantity` moves
    /// from the asset's availability into the buyer's balance, in one
    /// step, and nothing else changes.
    pub open spec fn sale_step(pre: Self, post: Self, asset_id: u64, buyer: Principal, quantity: i128) -> bool {
        &&& pre.spec_sale_outcome(asset_id, quantity, buyer) is Ok
        &&& post.address == pre.address
        &&& post.admin == pre.admin
        &&& post.marketplace == pre.marketplace
        &&& post.next_asset_id == pre.next_asset_id
        &&& pre.spec_asset(asset_id) is Some
        &&& post.spec_asset(asset_id) == Some(Asset {
                available_tokens: (pre.spec_asset(asset_id)->Some_0.available_tokens - quantity) as i128,
                ..pre.spec_asset(asset_id)->Some_0
            })
        &&& forall|id: u64| id != asset_id ==> #[trigger] post.spec_asset(id) == pre.spec_asset(id)
        &&& post.spec_balance(asset_id, buyer) == pre.spec_balance(asset_id, buyer) + quantity
        &&& forall|id: u64, b: Principal| !(id == asset_id && b == buyer) ==>
                #[trigger] post.spec_balance(id, b) == pre.spec_balance(id, b)
    }

    /// A freshly deployed registry: no admin, no coordinator, no assets.
    pub fn new(address: Principal) -> (r: Self)
        ensures
            r.wf(),
            r.address == address,
            r.admin is None,
            r.marketplace is None,
            r.next_asset_id == 1,
            r.assets@.len() == 0,
            r.balances@.len() == 0,
    {
        TerraTokenization {
            address,
            admin: None,
            marketplace: None,
            next_asset_id: 1,
            assets: Vec::new(),
            balances: Vec::new(),
        }
    }

    /// One-time installation of the admin. Re-invocation fails before
    /// the authorization check, as deployment tooling expects.
    pub fn init(&mut self, auth: &AuthProof, admin: Principal) -> (r: Result<(), Error>)
        requires
            old(self).wf(),
        ensures
            final(self).wf(),
            old(self).admin is Some ==>
                r == Err::<(), Error>(Error::AlreadyInitialized) && *final(self) == *old(self),
            old(self).admin is None && auth.principal != admin ==>
                r == Err::<(), Error>(Error::Unauthorized) && *final(self) == *old(self),
            old(self).admin is None && auth.principal == admin ==>
                r == Ok::<(), Error>(())
                && *final(self) == (TerraTokenization { admin: Some(admin), ..*old(self) }),
    {
        if self.admin.is_some() {
            return Err(Error::AlreadyInitialized);
        }
        if auth.principal != admin {
            return Err(Error::Unauthorized);
        }
        self.admin = Some(admin);
        Ok(())
    }

    /// Registers the coordinator whose delegation alone may drive
    /// `execute_sale`; from then on the direct purchase path is closed.
    pub fn set_marketplace(&mut self, auth: &AuthProof, marketplace: Principal) -> (r: Result<(), Error>)
        requires
            old(self).wf(),
        ensures
            final(self).wf(),
            old(self).admin is None ==>
                r == Err::<(), Error>(Error::NotInitialized) && *final(self) == *old(self),
            old(self).admin is Some && auth.principal != old(self).admin->Some_0 ==>
                r == Err::<(), Error>(Error::Unauthorized) && *final(self) == *old(self),
            old(self).admin is Some && auth.principal == old(self).admin->Some_0 ==>
                r == Ok::<(), Error>(())
                && *final(self) == (TerraTokenization { marketplace: Some(marketplace), ..*old(self) }),
    {
        let admin = match self.admin {
            Some(a) => a,
            None => { return Err(Error::NotInitialized); },
        };
        if auth.principal != admin {
            return Err(Error::Unauthorized);
        }
        self.marketplace = Some(marketplace);
        Ok(())
    }

    pub fn get_marketplace(&self) -> (r: Option<Principal>)
        ensures
            r == self.marketplace,
    {
        self.marketplace
    }

    /// What `create_asset` decides for these inputs.
    pub open spec fn spec_create_outcome(
        self,
        auth: AuthProof,
        seller: Principal,
        category: Seq<char>,
        title: Seq<char>,
        price_per_token: i128,
        total_tokens: i128,
    ) -> Result<u64, Error> {
        if auth.principal != seller {
            Err(Error::Unauthorized)
        } else if price_per_token <= 0 || total_tokens <= 0 {
            Err(Error::InvalidInput)
        } else if text_byte_len(category) == 0 || text_byte_len(category) > MAX_TEXT_LEN {
            Err(Error::InvalidInput)
        } else if text_byte_len(title) == 0 || text_byte_len(title) > MAX_TEXT_LEN {
            Err(Error::InvalidInput)
        } else if self.next_asset_id == u64::MAX {
            Err(Error::ArithmeticOverflow)
        } else {
            Ok(self.next_asset_id)
        }
    }

    /// Stores a new, fully available, active asset under the next
    /// sequential id and advances the id counter once.
    pub fn create_asset(
        &mut self,
        auth: &AuthProof,
        seller: Principal,
        category: String,
        title: String,
        price_per_token: i128,
        total_tokens: i128,
    ) -> (r: Result<u64, Error>)
        requires
            old(self).wf(),
        ensures
            final(self).wf(),
            r == old(self).spec_create_outcome(*auth, seller, category@, title@, price_per_token, total_tokens),
            r is Err ==> *final(self) == *old(self),
            r is Ok ==> r->Ok_0 == old(self).next_asset_id
                && final(self).next_asset_id == old(self).next_asset_id + 1
                && final(self).assets@ == old(self).assets@.push(Asset {
                        id: old(self).next_asset_id,
                        seller,
                        category,
                        title,
                        price_per_token,
                        total_tokens,
                        available_tokens: total_tokens,
                        active: true,
                    })
                && final(self).balances == old(self).balances
                && final(self).admin == old(self).admin
                && final(self).marketplace == old(self).marketplace
                && final(self).address == old(self).address,
    {
        if auth.principal != seller {
            return Err(Error::Unauthorized);
        }
        if price_per_token <= 0 || total_tokens <= 0 {
            return Err(Error::InvalidInput);
        }
        let category_len = category.as_str().as_bytes().len();
        if category_len == 0 || category_len > MAX_TEXT_LEN {
            return Err(Error::InvalidInput);
        }
        let title_len = title.as_str().as_bytes().len();
        if title_len == 0 || title_len > MAX_TEXT_LEN {
            return Err(Error::InvalidInput);
        }
        if self.next_asset_id == u64::MAX {
            return Err(Error::ArithmeticOverflow);
        }
        let id = self.next_asset_id;
        let asset = Asset {
            id,
            seller,
            category,
            title,
            price_per_token,
            total_tokens,
            available_tokens: total_tokens,
            active: true,
        };
        self.assets.push(asset);
        self.next_asset_id = id + 1;
        Ok(id)
    }

    /// A copy of the stored asset, or `NotFound`.
    pub fn get_asset(&self, asset_id: u64) -> (r: Result<Asset, Error>)
        requires
            self.wf(),
        ensures
            r matches Ok(a) ==> self.spec_asset(asset_id) == Some(a),
            r matches Err(e) ==> self.spec_asset(asset_id) is None && e == Error::NotFound,
    {
        match self.asset_index(asset_id) {
            Some(idx) => Ok(clone_asset(&self.assets[idx])),
            None => Err(Error::NotFound),
        }
    }

    pub fn get_buyer_balance(&self, asset_id: u64, buyer: Principal) -> (r: i128)
        ensures
            r == self.spec_balance(asset_id, buyer),
    {
        match self.find_balance(asset_id, buyer) {
            Some(i) => self.balances[i].amount,
            None => 0,
        }
    }

    /// What `set_asset_active` decides for these inputs.
    pub open spec fn spec_set_active_outcome(self, auth: AuthProof, seller: Principal, asset_id: u64) -> Result<(), Error> {
        if auth.principal != seller {
            Err(Error::Unauthorized)
        } else if self.spec_asset(asset_id) is None {
            Err(Error::NotFound)
        } else if self.spec_asset(asset_id)->Some_0.seller != seller {
            Err(Error::Unauthorized)
        } else {
            Ok(())
        }
    }

    /// The owning seller switches the asset on or off; nothing else
    /// about the registry changes.
    pub fn set_asset_active(&mut self, auth: &AuthProof, seller: Principal, asset_id: u64, active: bool) -> (r: Result<(), Error>)
        requires
            old(self).wf(),
        ensures
            final(self).wf(),
            r == old(self).spec_set_active_outcome(*auth, seller, asset_id),
            r is Err ==> *final(self) == *old(self),
            r is Ok ==> final(self).spec_asset(asset_id) == Some(Asset {
                    active,
                    ..old(self).spec_asset(asset_id)->Some_0
                })
                && (forall|id: u64| id != asset_id ==> #[trigger] final(self).spec_asset(id) == old(self).spec_asset(id))
                && final(self).balances == old(self).balances
                && final(self).admin == old(self).admin
                && final(self).marketplace == old(self).marketplace
                && final(self).address == old(self).address
                && final(self).next_asset_id == old(self).next_asset_id,
    {
        if auth.principal != seller {
            return Err(Error::Unauthorized);
        }
        let idx = match self.asset_index(asset_id) {
            Some(i) => i,
            None => { return Err(Error::NotFound); },
        };
        if self.assets[idx].seller != seller {
            return Err(Error::Unauthorized);
        }
        self.assets[idx].active = active;
        Ok(())
    }

    /// What the direct purchase path decides: closed outright once a
    /// coordinator is registered.
    pub open spec fn spec_direct_buy_outcome(self, auth: AuthProof, buyer: Principal, asset_id: u64, quantity: i128) -> Result<i128, Error> {
        if self.marketplace is Some {
            Err(Error::RedirectRequired)
        } else if auth.principal != buyer {
            Err(Error::Unauthorized)
        } else {
            self.spec_sale_outcome(asset_id, quantity, buyer)
        }
    }

    /// The ungated purchase path. It exists as a guard rail: once a
    /// coordinator is configured it always fails `RedirectRequired`,
    /// so fees can never be bypassed.
    pub fn buy_tokens(&mut self, auth: &AuthProof, buyer: Principal, asset_id: u64, quantity: i128) -> (r: Result<i128, Error>)
        requires
            old(self).wf(),
        ensures
            final(self).wf(),
            r == old(self).spec_direct_buy_outcome(*auth, buyer, asset_id, quantity),
            r is Ok ==> Self::sale_step(*old(self), *final(self), asset_id, buyer, quantity),
            r is Err ==> *final(self) == *old(self),
    {
        if self.marketplace.is_some() {
            return Err(Error::RedirectRequired);
        }
        if auth.principal != buyer {
            return Err(Error::Unauthorized);
        }
        self.apply_sale(asset_id, quantity, buyer)
    }

    /// What the restricted entry point decides: only a grant issued by
    /// the registered coordinator, targeting this registry and naming
    /// exactly this call, is accepted; the declared seller must match
    /// the stored asset's seller before any of the sale validation
    /// runs, guarding against a stale caller-side snapshot.
    pub open spec fn spec_execute_outcome(self, grant: SaleGrant, seller: Principal, buyer: Principal, asset_id: u64, quantity: i128) -> Result<i128, Error> {
        if self.marketplace is None {
            Err(Error::NotInitialized)
        } else if !(grant.grantor == self.marketplace->Some_0
                && grant.target == self.address
                && grant.seller == seller
                && grant.buyer == buyer
                && grant.asset_id == asset_id
                && grant.quantity == quantity) {
            Err(Error::Unauthorized)
        } else if self.spec_asset(asset_id) is None {
            Err(Error::NotFound)
        } else if self.spec_asset(asset_id)->Some_0.seller != seller {
            Err(Error::SellerMismatch)
        } else {
            self.spec_sale_outcome(asset_id, quantity, buyer)
        }
    }

    /// The restricted sale-execution entry point driven by the
    /// coordinator. Applies the canonical sale mutation atomically and
    /// returns the total price under checked multiplication.
    pub fn execute_sale(&mut self, grant: &SaleGrant, seller: Principal, buyer: Principal, asset_id: u64, quantity: i128) -> (r: Result<i128, Error>)
        requires
            old(self).wf(),
        ensures
            final(self).wf(),
            r == old(self).spec_execute_outcome(*grant, seller, buyer, asset_id, quantity),
            r is Ok ==> Self::sale_step(*old(self), *final(self), asset_id, buyer, quantity),
            r is Err ==> *final(self) == *old(self),
    {
        let mkt = match self.marketplace {
            Some(m) => m,
            None => { return Err(Error::NotInitialized); },
        };
        if !(grant.grantor == mkt
            && grant.target == self.address
            && grant.seller == seller
            && grant.buyer == buyer
            && grant.asset_id == asset_id
            && grant.quantity == quantity) {
            return Err(Error::Unauthorized);
        }
        let idx = match self.asset_index(asset_id) {
            Some(i) => i,
            None => { return Err(Error::NotFound); },
        };
        if self.assets[idx].seller != seller {
            return Err(Error::SellerMismatch);
        }
        let plan = match self.check_sale(asset_id, quantity, buyer) {
            Ok(p) => p,
            Err(e) => { return Err(e); },
        };
        let total = plan.total;
        self.commit_sale(asset_id, quantity, buyer, plan);
        Ok(total)
    }

    /// Where a bounded listing starts: ids begin at 1.
    pub open spec fn spec_list_start(from_id: u64) -> int {
        if from_id < 1 { 1 } else { from_id as int }
    }

    /// How many entries the listing returns: at most `min(limit, 50)`,
    /// and never past the end of the id range.
    pub open spec fn spec_list_len(self, from_id: u64, limit: u32) -> int {
        let cap: int = if limit > 50 { 50 } else { limit as int };
        let start = Self::spec_list_start(from_id);
        let avail: int = if start < self.next_asset_id { self.next_asset_id - start } else { 0 };
        if cap < avail { cap } else { avail }
    }

    /// The listing is the ordered run of stored assets beginning at
    /// `spec_list_start(from_id)`.
    pub open spec fn list_post(self, from_id: u64, limit: u32, entries: Seq<(u64, Asset)>) -> bool {
        &&& entries.len() == self.spec_list_len(from_id, limit)
        &&& forall|k: int| 0 <= k < entries.len() ==> (#[trigger] entries[k]).0 == Self::spec_list_start(from_id) + k
        &&& forall|k: int| 0 <= k < entries.len() ==> self.spec_asset((#[trigger] entries[k]).0) == Some(entries[k].1)
    }

    /// An ordered page of the id range `[from_id, next_asset_id)`,
    /// capped at `min(limit, 50)` entries.
    pub fn list_assets(&self, from_id: u64, limit: u32) -> (r: Vec<(u64, Asset)>)
        requires
            self.wf(),
        ensures
            self.list_post(from_id, limit, r@),
    {
        let mut out: Vec<(u64, Asset)> = Vec::new();
        let n = self.assets.len();
        let max: u32 = if limit > 50 { 50 } else { limit };
        let mut current: u64 = if from_id < 1 { 1 } else { from_id };
        let mut count: u32 = 0;
        while current < self.next_asset_id && count < max
            invariant
                self.wf(),
                n == self.assets@.len(),
                count <= max,
                max == (if limit > 50 { 50u32 } else { limit }),
                out@.len() == count,
                current == Self::spec_list_start(from_id) + count,
                count > 0 ==> current <= self.next_asset_id,
                forall|k: int| 0 <= k < out@.len() ==> (#[trigger] out@[k]).0 == Self::spec_list_start(from_id) + k,
                forall|k: int| 0 <= k < out@.len() ==> self.spec_asset((#[trigger] out@[k]).0) == Some(out@[k].1),
            decreases self.next_asset_id - current,
        {
            proof {
                assert(current - 1 < n as u64);
            }
            let idx = (current - 1) as usize;
            out.push((current, clone_asset(&self.assets[idx])));
            count += 1;
            current += 1;
        }
        out
    }

    /// The vector slot holding `asset_id`, when the id is in range.
    fn asset_index(&self, asset_id: u64) -> (r: Option<usize>)
        ensures
            match r {
                Some(i) => self.spec_asset(asset_id) == Some(self.assets@[i as int])
                    && i == asset_id - 1
                    && i < self.assets@.len(),
                None => self.spec_asset(asset_id) is None,
            },
    {
        let n = self.assets.len();
        if 1 <= asset_id && asset_id - 1 < n as u64 {
            Some((asset_id - 1) as usize)
        } else {
            None
        }
    }

    /// First balance entry for the key, scanning from the front, with
    /// what that means for the recorded balance.
    fn find_balance(&self, asset_id: u64, buyer: Principal) -> (r: Option<usize>)
        ensures
            match r {
                Some(i) => {
                    &&& i < self.balances@.len()
                    &&& self.balances@[i as int].asset_id == asset_id
                    &&& self.balances@[i as int].buyer == buyer
                    &&& self.spec_balance(asset_id, buyer) == self.balances@[i as int].amount
                },
                None => {
                    &&& self.spec_balance(asset_id, buyer) == 0
                    &&& forall|j: int| 0 <= j < self.balances@.len() ==>
                        !((#[trigger] self.balances@[j]).asset_id == asset_id && self.balances@[j].buyer == buyer)
                },
            },
    {
        let n = self.balances.len();
        let mut i: usize = 0;
        while i < n
            invariant
                i <= n,
                n == self.balances@.len(),
                forall|j: int| 0 <= j < i ==>
                    !((#[trigger] self.balances@[j]).asset_id == asset_id && self.balances@[j].buyer == buyer),
            decreases n - i,
        {
            let e = &self.balances[i];
            if e.asset_id == asset_id && e.buyer == buyer {
                proof {
                    lemma_balance_in_skip(self.balances@, asset_id, buyer, i as int);
                    assert(self.balances@.subrange(i as int, self.balances@.len() as int)[0]
                        == self.balances@[i as int]);
                }
                return Some(i);
            }
            i += 1;
        }
        proof {
            lemma_balance_in_skip(self.balances@, asset_id, buyer, n as int);
            assert(self.balances@.subrange(n as int, self.balances@.len() as int)
                =~= Seq::<BalanceEntry>::empty());
        }
        None
    }

    /// Everything `sale_plan_ok` promises about a plan `check_sale`
    /// hands out.
    spec fn sale_plan_ok(self, asset_id: u64, quantity: i128, buyer: Principal, p: SalePlan) -> bool {
        &&& 1 <= asset_id
        &&& p.asset_index == asset_id - 1
        &&& p.asset_index < self.assets@.len()
        &&& 0 < quantity <= self.assets@[p.asset_index as int].available_tokens
        &&& self.assets@[p.asset_index as int].active
        &&& p.total == self.assets@[p.asset_index as int].price_per_token * quantity
        &&& p.new_balance == self.spec_balance(asset_id, buyer) + quantity
        &&& p.new_balance <= i128::MAX
        &&& match p.balance_index {
                Some(i) => i < self.balances@.len()
                    && self.balances@[i as int].asset_id == asset_id
                    && self.balances@[i as int].buyer == buyer,
                None => forall|j: int| 0 <= j < self.balances@.len() ==>
                    !((#[trigger] self.balances@[j]).asset_id == asset_id && self.balances@[j].buyer == buyer),
            }
    }

    /// Validation half of the canonical sale: no state is touched, and
    /// a plan comes back exactly when the sale outcome is success.
    fn check_sale(&self, asset_id: u64, quantity: i128, buyer: Principal) -> (r: Result<SalePlan, Error>)
        requires
            self.wf(),
        ensures
            r matches Err(e) ==> Err::<i128, Error>(e) == self.spec_sale_outcome(asset_id, quantity, buyer),
            r matches Ok(p) ==> self.spec_sale_outcome(asset_id, quantity, buyer) == Ok::<i128, Error>(p.total)
                && self.sale_plan_ok(asset_id, quantity, buyer, p),
    {
        if quantity <= 0 {
            return Err(Error::InvalidInput);
        }
        let idx = match self.asset_index(asset_id) {
            Some(i) => i,
            None => { return Err(Error::NotFound); },
        };
        if !self.assets[idx].active {
            return Err(Error::InactiveAsset);
        }
        if self.assets[idx].available_tokens < quantity {
            return Err(Error::InsufficientAvailability);
        }
        let found = self.find_balance(asset_id, buyer);
        let prev: i128 = match found {
            Some(i) => self.balances[i].amount,
            None => 0,
        };
        let new_balance = match prev.checked_add(quantity) {
            Some(v) => v,
            None => { return Err(Error::ArithmeticOverflow); },
        };
        let total = match self.assets[idx].price_per_token.checked_mul(quantity) {
            Some(v) => v,
            None => { return Err(Error::ArithmeticOverflow); },
        };
        Ok(SalePlan { asset_index: idx, balance_index: found, new_balance, total })
    }

    /// Mutation half of the canonical sale: decrement availability and
    /// credit the buyer, as one read-modify-write.
    fn commit_sale(&mut self, asset_id: u64, quantity: i128, buyer: Principal, plan: SalePlan)
        requires
            old(self).wf(),
            old(self).sale_plan_ok(asset_id, quantity, buyer, plan),
        ensures
            final(self).wf(),
            Self::sale_step(*old(self), *final(self), asset_id, buyer, quantity),
    {
        let idx = plan.asset_index;
        let new_avail = self.assets[idx].available_tokens - quantity;
        self.assets[idx].available_tokens = new_avail;
        match plan.balance_index {
            Some(i) => {
                proof {
                    lemma_balance_in_nonneg(old(self).balances@, asset_id, buyer);
                }
                self.balances[i].amount = plan.new_balance;
                proof {
                    let s = old(self).balances@;
                    let e = BalanceEntry { asset_id, buyer, amount: plan.new_balance };
                    let s2 = self.balances@;
                    assert(s2 =~= s.update(i as int, e));
                    assert forall|a: int, b: int|
                        #![trigger s2[a], s2[b]]
                        0 <= a < b < s2.len() implies
                        !(s2[a].asset_id == s2[b].asset_id && s2[a].buyer == s2[b].buyer) by {
                        assert(s2[a].asset_id == s[a].asset_id && s2[a].buyer == s[a].buyer);
                        assert(s2[b].asset_id == s[b].asset_id && s2[b].buyer == s[b].buyer);
                    }
                    assert forall|k: int| 0 <= k < s2.len() implies (#[trigger] s2[k]).amount > 0 by {
                        if k != i as int {
                            assert(s2[k] == s[k]);
                        }
                    }
                    assert forall|j: int| 0 <= j < s.len() && j != i implies
                        !((#[trigger] s[j]).asset_id == asset_id && s[j].buyer == buyer) by {
                        if j < i as int {
                            assert(!(s[j].asset_id == s[i as int].asset_id && s[j].buyer == s[i as int].buyer));
                        } else {
                            assert(!(s[i as int].asset_id == s[j].asset_id && s[i as int].buyer == s[j].buyer));
                        }
                    }
                    assert forall|id: u64, b: Principal|
                        #[trigger] balance_in(s2, id, b)
                            == (if id == asset_id && b == buyer { plan.new_balance } else { balance_in(s, id, b) }) by {
                        lemma_balance_in_update(s, i as int, e, id, b);
                    }
                }
            },
            None => {
                let e = BalanceEntry { asset_id, buyer, amount: plan.new_balance };
                self.balances.push(e);
                proof {
                    lemma_balance_in_nonneg(old(self).balances@, asset_id, buyer);
                    let s = old(self).balances@;
                    let s2 = self.balances@;
                    assert(s2 == s.push(BalanceEntry { asset_id, buyer, amount: plan.new_balance }));
                    assert forall|a: int, b: int|
                        #![trigger s2[a], s2[b]]
                        0 <= a < b < s2.len() implies
                        !(s2[a].asset_id == s2[b].asset_id && s2[a].buyer == s2[b].buyer) by {
                        assert(s2[a] == s[a]);
                        if b < s.len() {
                            assert(s2[b] == s[b]);
                        } else {
                            assert(!(s[a].asset_id == asset_id && s[a].buyer == buyer));
                        }
                    }
                    assert forall|k: int| 0 <= k < s2.len() implies (#[trigger] s2[k]).amount > 0 by {
                        if k < s.len() {
                            assert(s2[k] == s[k]);
                        }
                    }
                    assert forall|id: u64, b: Principal|
                        #[trigger] balance_in(s2, id, b)
                            == (if id == asset_id && b == buyer { plan.new_balance } else { balance_in(s, id, b) }) by {
                        lemma_balance_in_push(s, BalanceEntry { asset_id, buyer, amount: plan.new_balance }, id, b);
                    }
                }
            },
        }
        proof {
            let pre = *old(self);
            let post = *self;
            assert(post.assets@ =~= pre.assets@.update(idx as int, Asset {
                available_tokens: (pre.assets@[idx as int].available_tokens - quantity) as i128,
                ..pre.assets@[idx as int]
            }));
            assert forall|k: int| 0 <= k < post.assets@.len() implies (#[trigger] post.assets@[k]).id == k + 1 by {
                if k != idx as int {
                    assert(post.assets@[k] == pre.assets@[k]);
                }
            }
            assert forall|k: int| 0 <= k < post.assets@.len() implies (#[trigger] post.assets@[k]).valid() by {
                if k != idx as int {
                    assert(post.assets@[k] == pre.assets@[k]);
                }
            }
            assert forall|id: u64| id != asset_id implies #[trigger] post.spec_asset(id) == pre.spec_asset(id) by {
                if 1 <= id && id - 1 < post.assets@.len() {
                    assert(post.assets@[id - 1] == pre.assets@[id - 1]);
                }
            }
            assert(post.spec_asset(asset_id) == Some(Asset {
                available_tokens: (pre.spec_asset(asset_id)->Some_0.available_tokens - quantity) as i128,
                ..pre.spec_asset(asset_id)->Some_0
            }));
            assert(pre.spec_sale_outcome(asset_id, quantity, buyer) is Ok);
            assert(post.spec_balance(asset_id, buyer) == pre.spec_balance(asset_id, buyer) + quantity);
            assert(post.wf());
        }
    }

    /// The shared mutation behind both purchase paths: validate, then
    /// apply, atomically.
    fn apply_sale(&mut self, asset_id: u64, quantity: i128, buyer: Principal) -> (r: Result<i128, Error>)
        requires
            old(self).wf(),
        ensures
            final(self).wf(),
            r == old(self).spec_sale_outcome(asset_id, quantity, buyer),
            r is Ok ==> Self::sale_step(*old(self), *final(self), asset_id, buyer, quantity),
            r is Err ==> *final(self) == *old(self),
    {
        let plan = match self.check_sale(asset_id, quantity, buyer) {
            Ok(p) => p,
            Err(e) => { return Err(e); },
        };
        let total = plan.total;
        self.commit_sale(asset_id, quantity, buyer, plan);
        Ok(total)
    }
}

/// A field-for-field copy; the string fields are cloned deeply.
fn clone_asset(a: &Asset) -> (r: Asset)
    ensures
        r == *a,
{
    Asset {
        id: a.id,
        seller: a.seller,
        category: a.category.clone(),
        title: a.title.clone(),
        price_per_token: a.price_per_token,
        total_tokens: a.total_tokens,
        available_tokens: a.available_tokens,
        active: a.active,
    }
}

/// Entries before `i` never match the key, so the recorded balance is
/// decided by the tail from `i` on.
proof fn lemma_balance_in_skip(s: Seq<BalanceEntry>, asset_id: u64, buyer: Principal, i: int)
    requires
        0 <= i <= s.len(),
        forall|j: int| 0 <= j < i ==>
            !((#[trigger] s[j]).asset_id == asset_id && s[j].buyer == buyer),
    ensures
        balance_in(s, asset_id, buyer) == balance_in(s.subrange(i, s.len() as int), asset_id, buyer),
    decreases i,
{
    if i == 0 {
        assert(s.subrange(0, s.len() as int) =~= s);
    } else {
        let s1 = s.drop_first();
        assert forall|j: int| 0 <= j < i - 1 implies
            !((#[trigger] s1[j]).asset_id == asset_id && s1[j].buyer == buyer) by {
            assert(s1[j] == s[j + 1]);
        }
        lemma_balance_in_skip(s1, asset_id, buyer, i - 1);
        assert(s1.subrange(i - 1, s1.len() as int) =~= s.subrange(i, s.len() as int));
    }
}

/// Overwriting the unique entry for a key rewrites that key's balance
/// and no other.
proof fn lemma_balance_in_update(s: Seq<BalanceEntry>, i: int, e: BalanceEntry, qid: u64, qb: Principal)
    requires
        0 <= i < s.len(),
        e.asset_id == s[i].asset_id,
        e.buyer == s[i].buyer,
        forall|j: int| 0 <= j < s.len() && j != i ==>
            !((#[trigger] s[j]).asset_id == s[i].asset_id && s[j].buyer == s[i].buyer),
    ensures
        balance_in(s.update(i, e), qid, qb)
            == if qid == s[i].asset_id && qb == s[i].buyer { e.amount } else { balance_in(s, qid, qb) },
    decreases i,
{
    let t = s.update(i, e);
    if i == 0 {
        assert(t[0] == e);
        if !(qid == s[0].asset_id && qb == s[0].buyer) {
            assert(t.drop_first() =~= s.drop_first());
        }
    } else {
        assert(t[0] == s[0]);
        if qid == s[0].asset_id && qb == s[0].buyer {
            assert(!(s[0].asset_id == s[i].asset_id && s[0].buyer == s[i].buyer));
        } else {
            let s1 = s.drop_first();
            assert(t.drop_first() =~= s1.update(i - 1, e));
            assert(s1[i - 1] == s[i]);
            assert forall|j: int| 0 <= j < s1.len() && j != i - 1 implies
                !((#[trigger] s1[j]).asset_id == s1[i - 1].asset_id && s1[j].buyer == s1[i - 1].buyer) by {
                assert(s1[j] == s[j + 1]);
            }
            lemma_balance_in_update(s1, i - 1, e, qid, qb);
        }
    }
}

/// A recorded balance is never negative when every entry is positive.
proof fn lemma_balance_in_nonneg(s: Seq<BalanceEntry>, asset_id: u64, buyer: Principal)
    requires
        forall|i: int| 0 <= i < s.len() ==> (#[trigger] s[i]).amount > 0,
    ensures
        balance_in(s, asset_id, buyer) >= 0,
    decreases s.len(),
{
    if s.len() > 0 && !(s[0].asset_id == asset_id && s[0].buyer == buyer) {
        let s1 = s.drop_first();
        assert forall|i: int| 0 <= i < s1.len() implies (#[trigger] s1[i]).amount > 0 by {
            assert(s1[i] == s[i + 1]);
        }
        lemma_balance_in_nonneg(s1, asset_id, buyer);
    }
}

/// Appending an entry for a key with no prior entry records that key's
/// balance and disturbs no other.
proof fn lemma_balance_in_push(s: Seq<BalanceEntry>, e: BalanceEntry, qid: u64, qb: Principal)
    requires
        forall|j: int| 0 <= j < s.len() ==>
            !((#[trigger] s[j]).asset_id == e.asset_id && s[j].buyer == e.buyer),
    ensures
        balance_in(s.push(e), qid, qb)
            == if qid == e.asset_id && qb == e.buyer { e.amount } else { balance_in(s, qid, qb) },
    decreases s.len(),
{
    let t = s.push(e);
    assert(t.len() == s.len() + 1);
    if s.len() == 0 {
        assert(t[0] == e);
        if qid == e.asset_id && qb == e.buyer {
            assert(balance_in(t, qid, qb) == e.amount);
        } else {
            assert(t.drop_first() =~= Seq::<BalanceEntry>::empty());
            assert(balance_in(t.drop_first(), qid, qb) == 0);
            assert(balance_in(s, qid, qb) == 0);
        }
    } else {
        assert(t[0] == s[0]);
        let s1 = s.drop_first();
        assert(t.drop_first() =~= s1.push(e));
        assert forall|j: int| 0 <= j < s1.len() implies
            !((#[trigger] s1[j]).asset_id == e.asset_id && s1[j].buyer == e.buyer) by {
            assert(s1[j] == s[j + 1]);
        }
        lemma_balance_in_push(s1, e, qid, qb);
        if s[0].asset_id == qid && s[0].buyer == qb {
            assert(!(s[0].asset_id == e.asset_id && s[0].buyer == e.buyer));
            assert(balance_in(t, qid, qb) == s[0].amount);
            assert(balance_in(s, qid, qb) == s[0].amount);
        } else {
            assert(balance_in(t, qid, qb) == balance_in(t.drop_first(), qid, qb));
            assert(balance_in(s, qid, qb) == balance_in(s1, qid, qb));
        }
    }
}

} // verus!
