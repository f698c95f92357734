//! The execution side of a detected arbitrage: sizing the paired order,
//! and reconciling the two legs' fills once the venue answers.
//!
//! Order submission itself is network I/O and lives outside the library;
//! these functions decide what to submit and what the fills mean.

use vstd::prelude::*;

use crate::config::PRICE_SCALE;
use crate::store::{spec_has_arb, spec_profit_millis, spec_trade_size, MarketState};

verus! {

/// The side of an instrument a leg buys.
#[derive(Clone, Copy, PartialEq, Eq, Structural, Debug)]
pub enum Side {
    Yes,
    No,
}

/// A paired immediate-or-cancel buy, ready to submit: both legs share one
/// size, and each leg's limit is the best ask that raised the signal.
pub struct TradePlan {
    pub yes_token: String,
    pub no_token: String,
    pub yes_price: u64,
    pub no_price: u64,
    pub size: u64,
    pub profit_millis: u64,
}

/// Evaluate a freshly updated record and, where it shows the arbitrage
/// signal, size the paired trade. Returns a plan exactly when the signal
/// holds; evaluation and sizing are the same whether or not orders are then
/// actually submitted.
pub fn plan_trade(state: &MarketState, threshold: u64, min_size: u64, max_size: u64) -> (r: Option<
    TradePlan,
>)
    requires
        threshold <= PRICE_SCALE,
        min_size <= max_size,
    ensures
        (r is Some) == spec_has_arb(state.yes_price, state.no_price, threshold),
        r matches Some(p) ==> {
            &&& p.yes_token@ == state.yes_token@
            &&& p.no_token@ == state.no_token@
            &&& p.yes_price == state.yes_price
            &&& p.no_price == state.no_price
            &&& p.size == spec_trade_size(state.yes_size, state.no_size, min_size, max_size)
            &&& p.profit_millis == spec_profit_millis(state.yes_price, state.no_price)
        },
{
    if !state.has_arb(threshold) {
        return None;
    }
    let profit = state.profit_millis();
    let size = state.trade_size(min_size, max_size);
    Some(
        TradePlan {
            yes_token: state.yes_token.clone(),
            no_token: state.no_token.clone(),
            yes_price: state.yes_price,
            no_price: state.no_price,
            size,
            profit_millis: profit as u64,
        },
    )
}

/// One leg's fill as the order client reports it: scaled filled size,
/// scaled total cost, and the venue's order identifier.
pub struct LegFill {
    pub filled_size: u64,
    pub fill_cost: u64,
    pub order_id: String,
}

/// The side that ended up over-filled, when the two legs' filled sizes
/// differ by more than the tolerance.
pub open spec fn spec_overfilled(yes_size: u64, no_size: u64, tolerance: u64) -> Option<Side> {
    let diff = if yes_size >= no_size {
        yes_size - no_size
    } else {
        no_size - yes_size
    };
    if diff > tolerance {
        if yes_size > no_size {
            Some(Side::Yes)
        } else {
            Some(Side::No)
        }
    } else {
        None
    }
}

/// What two successful legs amount to.
pub struct Reconciliation {
    /// Sum of both legs' fill costs, scaled.
    pub total_cost: u128,
    /// The smaller of the two filled sizes: the quantity actually paired.
    pub matched_size: u64,
    /// Matched size less total cost, scaled; negative when the fills cost
    /// more than the paired quantity pays out.
    pub realized_profit: i128,
    /// How far apart the two filled sizes are, scaled.
    pub mismatch: u64,
    /// The over-filled side, when the mismatch exceeds the tolerance: an
    /// unmatched exposure that is reported, never auto-corrected.
    pub overfilled: Option<Side>,
}

/// Reconcile two successful legs: total cost, paired quantity, realized
/// profit, and the unmatched-exposure condition.
pub fn reconcile_fills(yes: &LegFill, no: &LegFill, tolerance: u64) -> (r: Reconciliation)
    ensures
        r.total_cost == yes.fill_cost + no.fill_cost,
        r.matched_size == if yes.filled_size <= no.filled_size {
            yes.filled_size
        } else {
            no.filled_size
        },
        r.realized_profit == r.matched_size - r.total_cost,
        r.mismatch == if yes.filled_size >= no.filled_size {
            yes.filled_size - no.filled_size
        } else {
            no.filled_size - yes.filled_size
        },
        r.overfilled == spec_overfilled(yes.filled_size, no.filled_size, tolerance),
{
    let total_cost: u128 = (yes.fill_cost as u128) + (no.fill_cost as u128);
    let matched_size: u64 = if yes.filled_size <= no.filled_size {
        yes.filled_size
    } else {
        no.filled_size
    };
    let realized_profit: i128 = (matched_size as i128) - (total_cost as i128);
    let mismatch: u64 = if yes.filled_size >= no.filled_size {
        yes.filled_size - no.filled_size
    } else {
        no.filled_size - yes.filled_size
    };
    let overfilled: Option<Side> = if mismatch > tolerance {
        if yes.filled_size > no.filled_size {
            Some(Side::Yes)
        } else {
            Some(Side::No)
        }
    } else {
        None
    };
    Reconciliation { total_cost, matched_size, realized_profit, mismatch, overfilled }
}

/// A fill as forwarded to the external position ledger.
pub struct FillRecord {
    pub market_id: String,
    pub description: String,
    pub venue: String,
    pub side: Side,
    pub filled_size: u64,
    pub price: u64,
    pub fee: u64,
    pub order_id: String,
}

/// The two ledger records for a completed paired trade: the instrument's
/// question text stands as its identifier, the venue charges no fee on
/// these fills, and each leg carries its own order id and limit price.
pub fn make_fill_records(state: &MarketState, yes: &LegFill, no: &LegFill) -> (r: (
    FillRecord,
    FillRecord,
))
    ensures
        r.0.market_id@ == state.question@ && r.1.market_id@ == state.question@,
        r.0.description@ == state.question@ && r.1.description@ == state.question@,
        r.0.venue@ == "polymarket"@ && r.1.venue@ == "polymarket"@,
        r.0.side == Side::Yes && r.1.side == Side::No,
        r.0.filled_size == yes.filled_size && r.1.filled_size == no.filled_size,
        r.0.price == state.yes_price && r.1.price == state.no_price,
        r.0.fee == 0 && r.1.fee == 0,
        r.0.order_id@ == yes.order_id@ && r.1.order_id@ == no.order_id@,
{
    let first = FillRecord {
        market_id: state.question.clone(),
        description: state.question.clone(),
        venue: String::from_str("polymarket"),
        side: Side::Yes,
        filled_size: yes.filled_size,
        price: state.yes_price,
        fee: 0,
        order_id: yes.order_id.clone(),
    };
    let second = FillRecord {
        market_id: state.question.clone(),
        description: state.question.clone(),
        venue: String::from_str("polymarket"),
        side: Side::No,
        filled_size: no.filled_size,
        price: state.no_price,
        fee: 0,
        order_id: no.order_id.clone(),
    };
    (first, second)
}

} // verus!
