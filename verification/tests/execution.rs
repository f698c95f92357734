//! Execution-engine behaviour: the arbitrage predicate, sizing, planning,
//! reconciliation, and the feed-connection decisions.

use arb_bot::config::{
    ARB_THRESHOLD_MILLIS, HEARTBEAT_SECS, MAX_TRADE_SIZE_MILLIS, MIN_TRADE_SIZE_MILLIS,
    STALENESS_SECS, UNMATCHED_TOLERANCE_MILLIS,
};
use arb_bot::engine::{make_fill_records, plan_trade, reconcile_fills, LegFill, Side, TradePlan};
use arb_bot::feed::{should_connect, FeedAction, FeedEvent, FeedMonitor};
use arb_bot::store::MarketState;

fn state(yes_price: u64, no_price: u64, yes_size: u64, no_size: u64) -> MarketState {
    MarketState {
        asset: "btc".to_string(),
        question: "btc up or down".to_string(),
        yes_token: "y1".to_string(),
        no_token: "n1".to_string(),
        yes_price,
        no_price,
        yes_size,
        no_size,
        last_update: 100,
    }
}

#[test]
fn has_arb_needs_both_prices_and_a_low_sum() {
    // 0.28 + 0.66 = 0.94 < 0.995
    assert!(state(280, 660, 40000, 60000).has_arb(ARB_THRESHOLD_MILLIS));
    // An unpriced side never signals, however low the sum.
    assert!(!state(0, 660, 0, 60000).has_arb(ARB_THRESHOLD_MILLIS));
    assert!(!state(280, 0, 40000, 0).has_arb(ARB_THRESHOLD_MILLIS));
    // The threshold is strict.
    assert!(!state(500, 495, 1, 1).has_arb(ARB_THRESHOLD_MILLIS));
    assert!(state(500, 494, 1, 1).has_arb(ARB_THRESHOLD_MILLIS));
}

#[test]
fn scenario_twenty_eight_plus_sixty_six_cents() {
    // yes 0.28 size 40, no 0.66 size 60: sum 0.94 < 0.995.
    let s = state(280, 660, 40000, 60000);
    assert!(s.has_arb(ARB_THRESHOLD_MILLIS));
    // Profit 0.06 per contract: 60 thousandths, i.e. 6.0 cents.
    assert_eq!(s.profit_millis(), 60);
    // min(40, 60) clamped to [1, 50] is 40.
    assert_eq!(s.trade_size(MIN_TRADE_SIZE_MILLIS, MAX_TRADE_SIZE_MILLIS), 40000);
}

#[test]
fn scenario_fifty_fifty_never_signals() {
    let s = state(500, 500, 40000, 60000);
    assert!(!s.has_arb(ARB_THRESHOLD_MILLIS));
    assert!(!s.has_arb(999));
    assert!(!s.has_arb(1000));
    assert_eq!(s.profit_millis(), 0);
}

#[test]
fn trade_size_always_lands_in_the_configured_range() {
    // Liquidity below the minimum still trades the minimum.
    assert_eq!(
        state(280, 660, 200, 300).trade_size(MIN_TRADE_SIZE_MILLIS, MAX_TRADE_SIZE_MILLIS),
        MIN_TRADE_SIZE_MILLIS
    );
    // Liquidity above the maximum is capped.
    assert_eq!(
        state(280, 660, 90000, 120000).trade_size(MIN_TRADE_SIZE_MILLIS, MAX_TRADE_SIZE_MILLIS),
        MAX_TRADE_SIZE_MILLIS
    );
    // No liquidity at all still trades the minimum.
    assert_eq!(
        state(280, 660, 0, 0).trade_size(MIN_TRADE_SIZE_MILLIS, MAX_TRADE_SIZE_MILLIS),
        MIN_TRADE_SIZE_MILLIS
    );
    // In-range liquidity passes through: the smaller side.
    assert_eq!(
        state(280, 660, 40000, 60000).trade_size(MIN_TRADE_SIZE_MILLIS, MAX_TRADE_SIZE_MILLIS),
        40000
    );
}

#[test]
fn plan_trade_only_on_signal() {
    let p: TradePlan = plan_trade(
        &state(280, 660, 40000, 60000),
        ARB_THRESHOLD_MILLIS,
        MIN_TRADE_SIZE_MILLIS,
        MAX_TRADE_SIZE_MILLIS,
    )
    .expect("signal holds");
    assert_eq!(p.yes_token, "y1");
    assert_eq!(p.no_token, "n1");
    assert_eq!(p.yes_price, 280);
    assert_eq!(p.no_price, 660);
    assert_eq!(p.size, 40000);
    assert_eq!(p.profit_millis, 60);

    assert!(plan_trade(
        &state(500, 500, 40000, 60000),
        ARB_THRESHOLD_MILLIS,
        MIN_TRADE_SIZE_MILLIS,
        MAX_TRADE_SIZE_MILLIS,
    )
    .is_none());
}

#[test]
fn scenario_unmatched_exposure_flags_the_overfilled_side() {
    // Legs fill 40 and 38 with tolerance 0.5: the yes side is over-filled.
    let yes = LegFill { filled_size: 40000, fill_cost: 11200, order_id: "oy".to_string() };
    let no = LegFill { filled_size: 38000, fill_cost: 25080, order_id: "on".to_string() };
    let r = reconcile_fills(&yes, &no, UNMATCHED_TOLERANCE_MILLIS);
    assert_eq!(r.mismatch, 2000);
    assert_eq!(r.overfilled, Some(Side::Yes));
    assert_eq!(r.matched_size, 38000);
    assert_eq!(r.total_cost, 36280);
    assert_eq!(r.realized_profit, 38000 - 36280);
}

#[test]
fn reconcile_within_tolerance_raises_no_flag() {
    let yes = LegFill { filled_size: 40000, fill_cost: 11200, order_id: "oy".to_string() };
    let no = LegFill { filled_size: 39600, fill_cost: 26136, order_id: "on".to_string() };
    let r = reconcile_fills(&yes, &no, UNMATCHED_TOLERANCE_MILLIS);
    assert_eq!(r.mismatch, 400);
    assert_eq!(r.overfilled, None);

    // The flag names the no side when it is the larger.
    let small_yes = LegFill { filled_size: 1000, fill_cost: 280, order_id: "oy".to_string() };
    let big_no = LegFill { filled_size: 9000, fill_cost: 5940, order_id: "on".to_string() };
    let r2 = reconcile_fills(&small_yes, &big_no, UNMATCHED_TOLERANCE_MILLIS);
    assert_eq!(r2.overfilled, Some(Side::No));
    // A losing pair of fills shows a negative realized profit.
    assert_eq!(r2.realized_profit, 1000 - 6220);
}

#[test]
fn fill_records_for_the_ledger() {
    let s = state(280, 660, 40000, 60000);
    let yes = LegFill { filled_size: 40000, fill_cost: 11200, order_id: "oy".to_string() };
    let no = LegFill { filled_size: 38000, fill_cost: 25080, order_id: "on".to_string() };
    let (fy, f_no) = make_fill_records(&s, &yes, &no);
    assert_eq!(fy.market_id, "btc up or down");
    assert_eq!(fy.description, "btc up or down");
    assert_eq!(fy.venue, "polymarket");
    assert_eq!(fy.side, Side::Yes);
    assert_eq!(fy.filled_size, 40000);
    assert_eq!(fy.price, 280);
    assert_eq!(fy.fee, 0);
    assert_eq!(fy.order_id, "oy");
    assert_eq!(f_no.side, Side::No);
    assert_eq!(f_no.price, 660);
    assert_eq!(f_no.filled_size, 38000);
    assert_eq!(f_no.order_id, "on");
}

#[test]
fn feed_monitor_decides_and_tracks_traffic() {
    let mut m = FeedMonitor::new(1000);
    assert_eq!(m.on_event(&FeedEvent::Data, 1010), FeedAction::ProcessData);
    assert_eq!(m.last_message, 1010);
    assert_eq!(m.on_event(&FeedEvent::ServerPing, 1020), FeedAction::ReplyPong);
    assert_eq!(m.last_message, 1020);
    assert_eq!(m.on_event(&FeedEvent::ServerPong, 1015), FeedAction::Ignore);
    assert_eq!(m.last_message, 1020); // never goes backwards
    assert_eq!(m.on_event(&FeedEvent::Other, 1030), FeedAction::Ignore);
    assert_eq!(m.last_message, 1020); // unknown frames are not traffic
    assert_eq!(m.on_event(&FeedEvent::Close, 1040), FeedAction::Disconnect);
    assert_eq!(m.on_event(&FeedEvent::ReadError, 1040), FeedAction::Disconnect);
    assert_eq!(m.on_event(&FeedEvent::StreamEnd, 1040), FeedAction::Disconnect);
    assert_eq!(m.last_message, 1020);
}

#[test]
fn staleness_is_strict() {
    let m = FeedMonitor::new(1000);
    assert!(!m.is_stale(1000 + STALENESS_SECS, STALENESS_SECS));
    assert!(m.is_stale(1001 + STALENESS_SECS, STALENESS_SECS));
    assert!(!m.is_stale(999, STALENESS_SECS));
    assert!(HEARTBEAT_SECS < STALENESS_SECS);
}

#[test]
fn connect_only_with_tokens_to_watch() {
    assert!(!should_connect(&Vec::new()));
    assert!(should_connect(&vec!["y1".to_string()]));
}
