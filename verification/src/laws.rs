use vstd::prelude::*;

use crate::auth::Principal;
use crate::errors::Error;
use crate::marketplace::{spec_bps, PurchaseReceipt, TerraMarketplace, lemma_bps_bounds};
use crate::registry::TerraTokenization;

verus! {

/// A run of `n` consecutive successful sales of one asset: state
/// `states[i]` steps to `states[i + 1]` by selling `sales[i].1` tokens
/// to buyer `sales[i].0`.
pub open spec fn sales_chain(states: Seq<TerraTokenization>, asset_id: u64, sales: Seq<(Principal, i128)>) -> bool {
    &&& states.len() == sales.len() + 1
    &&& forall|i: int| 0 <= i < sales.len() ==>
            TerraTokenization::sale_step(states[i], #[trigger] states[i + 1], asset_id, sales[i].0, sales[i].1)
}

/// The total quantity a run of sales moves.
pub open spec fn sum_quantities(sales: Seq<(Principal, i128)>) -> int
    decreases sales.len(),
{
    if sales.len() == 0 {
        0
    } else {
        sum_quantities(sales.drop_last()) + sales.last().1
    }
}

/// The quantity one buyer receives over a run of sales.
pub open spec fn sum_quantities_for(sales: Seq<(Principal, i128)>, buyer: Principal) -> int
    decreases sales.len(),
{
    if sales.len() == 0 {
        0
    } else {
        sum_quantities_for(sales.drop_last(), buyer)
            + if sales.last().0 == buyer { sales.last().1 as int } else { 0 }
    }
}

/// After a run of successful sales of one asset, its availability is
/// the availability before the run minus the quantities sold, and
/// never negative; for a fresh asset, whose availability starts at its
/// total supply, that is `total_tokens` minus the quantities sold. The
/// asset's identity, seller, price, total supply and active flag are
/// untouched.
pub proof fn lemma_available_after_sales(states: Seq<TerraTokenization>, asset_id: u64, sales: Seq<(Principal, i128)>)
    requires
        sales_chain(states, asset_id, sales),
        states[0].spec_asset(asset_id) is Some,
        states[0].spec_asset(asset_id)->Some_0.available_tokens >= 0,
    ensures
        states.last().spec_asset(asset_id) is Some,
        states.last().spec_asset(asset_id)->Some_0.available_tokens
            == states[0].spec_asset(asset_id)->Some_0.available_tokens - sum_quantities(sales),
        states.last().spec_asset(asset_id)->Some_0.available_tokens >= 0,
        states[0].spec_asset(asset_id)->Some_0.available_tokens
                == states[0].spec_asset(asset_id)->Some_0.total_tokens ==>
            states.last().spec_asset(asset_id)->Some_0.available_tokens
                == states[0].spec_asset(asset_id)->Some_0.total_tokens - sum_quantities(sales),
        states.last().spec_asset(asset_id)->Some_0.total_tokens
            == states[0].spec_asset(asset_id)->Some_0.total_tokens,
        states.last().spec_asset(asset_id)->Some_0.seller
            == states[0].spec_asset(asset_id)->Some_0.seller,
        states.last().spec_asset(asset_id)->Some_0.price_per_token
            == states[0].spec_asset(asset_id)->Some_0.price_per_token,
        states.last().spec_asset(asset_id)->Some_0.active
            == states[0].spec_asset(asset_id)->Some_0.active,
    decreases sales.len(),
{
    if sales.len() == 0 {
        assert(states.last() == states[0]);
    } else {
        let n = sales.len() as int;
        let prefix_states = states.drop_last();
        let prefix_sales = sales.drop_last();
        assert forall|i: int| 0 <= i < prefix_sales.len() implies
            TerraTokenization::sale_step(prefix_states[i], #[trigger] prefix_states[i + 1], asset_id, prefix_sales[i].0, prefix_sales[i].1) by {
            assert(prefix_states[i] == states[i]);
            assert(prefix_states[i + 1] == states[i + 1]);
            assert(prefix_sales[i] == sales[i]);
            assert(TerraTokenization::sale_step(states[i], states[i + 1], asset_id, sales[i].0, sales[i].1));
        }
        lemma_available_after_sales(prefix_states, asset_id, prefix_sales);
        assert(prefix_states.last() == states[n - 1]);
        assert(TerraTokenization::sale_step(states[n - 1], states[(n - 1) + 1], asset_id, sales[n - 1].0, sales[n - 1].1));
        assert(states.last() == states[n]);
    }
}

/// A buyer's recorded balance after a run of successful sales is the
/// balance before plus exactly that buyer's purchased quantities, so
/// it never decreases.
pub proof fn lemma_balance_after_sales(states: Seq<TerraTokenization>, asset_id: u64, sales: Seq<(Principal, i128)>, buyer: Principal)
    requires
        sales_chain(states, asset_id, sales),
    ensures
        states.last().spec_balance(asset_id, buyer)
            == states[0].spec_balance(asset_id, buyer) + sum_quantities_for(sales, buyer),
        sum_quantities_for(sales, buyer) >= 0,
        states.last().spec_balance(asset_id, buyer) >= states[0].spec_balance(asset_id, buyer),
    decreases sales.len(),
{
    if sales.len() == 0 {
        assert(states.last() == states[0]);
    } else {
        let n = sales.len() as int;
        let prefix_states = states.drop_last();
        let prefix_sales = sales.drop_last();
        assert forall|i: int| 0 <= i < prefix_sales.len() implies
            TerraTokenization::sale_step(prefix_states[i], #[trigger] prefix_states[i + 1], asset_id, prefix_sales[i].0, prefix_sales[i].1) by {
            assert(prefix_states[i] == states[i]);
            assert(prefix_states[i + 1] == states[i + 1]);
            assert(prefix_sales[i] == sales[i]);
            assert(TerraTokenization::sale_step(states[i], states[i + 1], asset_id, sales[i].0, sales[i].1));
        }
        lemma_balance_after_sales(prefix_states, asset_id, prefix_sales, buyer);
        assert(prefix_states.last() == states[n - 1]);
        assert(TerraTokenization::sale_step(states[n - 1], states[(n - 1) + 1], asset_id, sales[n - 1].0, sales[n - 1].1));
        assert(states.last() == states[n]);
    }
}

/// A sale of more than the available tokens of an otherwise saleable
/// asset is decided as `InsufficientAvailability`; paired with the
/// purchase paths' contracts, which leave the registry untouched on
/// every error, the overdraw that would drive availability negative
/// changes nothing.
pub proof fn lemma_overdraw_rejected(reg: TerraTokenization, asset_id: u64, quantity: i128, buyer: Principal)
    requires
        reg.spec_asset(asset_id) is Some,
        reg.spec_asset(asset_id)->Some_0.active,
        quantity > reg.spec_asset(asset_id)->Some_0.available_tokens,
        quantity > 0,
    ensures
        reg.spec_sale_outcome(asset_id, quantity, buyer) == Err::<i128, Error>(Error::InsufficientAvailability),
{
}

/// Every successful pricing conserves value: the seller's amount and
/// the platform fee sum exactly to the total paid, and the fee is the
/// truncated basis-point share of the total.
pub proof fn lemma_preview_receipt_conservation(m: TerraMarketplace, reg: TerraTokenization, buyer: Principal, asset_id: u64, quantity: i128, rc: PurchaseReceipt)
    requires
        m.wf(),
        reg.wf(),
        m.spec_preview(reg, buyer, asset_id, quantity) == Ok::<PurchaseReceipt, Error>(rc),
    ensures
        rc.seller_amount + rc.fee_paid == rc.total_paid,
        rc.fee_paid == spec_bps(rc.total_paid as int, m.config->Some_0.fee_bps as int),
        0 <= rc.fee_paid <= rc.total_paid,
        rc.total_paid == reg.spec_asset(asset_id)->Some_0.price_per_token * quantity,
{
    let a = reg.spec_asset(asset_id)->Some_0;
    let total = a.price_per_token * quantity;
    let fee_bps = m.config->Some_0.fee_bps;
    assert(a.valid());
    lemma_bps_bounds(total, fee_bps as int);
}

/// The same conservation holds of the receipt a coordinated purchase
/// returns: it is priced by the very same rule.
pub proof fn lemma_buy_receipt_conservation(m: TerraMarketplace, reg: TerraTokenization, auth: crate::auth::AuthProof, buyer: Principal, asset_id: u64, quantity: i128, rc: PurchaseReceipt, legs: Seq<crate::marketplace::Transfer>)
    requires
        m.wf(),
        reg.wf(),
        m.spec_buy_outcome(reg, auth, buyer, asset_id, quantity)
            == Ok::<(PurchaseReceipt, Seq<crate::marketplace::Transfer>), Error>((rc, legs)),
    ensures
        rc.seller_amount + rc.fee_paid == rc.total_paid,
        rc.fee_paid == spec_bps(rc.total_paid as int, m.config->Some_0.fee_bps as int),
        0 <= rc.fee_paid <= rc.total_paid,
        m.spec_preview(reg, buyer, asset_id, quantity) == Ok::<PurchaseReceipt, Error>(rc),
{
    let a = reg.spec_asset(asset_id)->Some_0;
    let total = a.price_per_token * quantity;
    let fee_bps = m.config->Some_0.fee_bps;
    assert(a.valid());
    lemma_bps_bounds(total, fee_bps as int);
}

} // verus!
