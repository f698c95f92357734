//! Discovery-side behaviour: slugs, intervals, catalog filtering.

use arb_bot::config::MARKET_INTERVAL_SECS;
use arb_bot::market::{to_active, UpDownMarket};
use arb_bot::schedule::{
    expiry_deadline, interval_end, interval_start, make_slug, preload_deadline, u64_to_dec,
    wait_secs,
};

fn catalog_entry(tokens: Option<&str>) -> UpDownMarket {
    UpDownMarket {
        id: 7,
        question: "Bitcoin Up or Down - June 1, 3:45PM ET".to_string(),
        slug: "btc-updown-15m-1766100600".to_string(),
        clob_token_ids: tokens.map(|t| t.to_string()),
        active: Some(true),
        closed: Some(false),
        accepting_orders: Some(true),
        end_date: None,
        start_date: None,
        outcomes: None,
    }
}

#[test]
fn test_slug_generation() {
    let timestamp = 1766100600u64;
    let slug = format!("btc-updown-15m-{}", timestamp);
    assert_eq!(slug, "btc-updown-15m-1766100600");
}

#[test]
fn test_interval_calculation() {
    let now = 1766100550u64; // 50 seconds before interval end
    let current_interval_start = (now / MARKET_INTERVAL_SECS) * MARKET_INTERVAL_SECS;
    assert_eq!(current_interval_start, 1766099700);
}

#[test]
fn slug_built_by_library() {
    assert_eq!(
        make_slug("btc", 1766100600).as_str(),
        "btc-updown-15m-1766100600"
    );
    assert_eq!(make_slug("xrp", 0).as_str(), "xrp-updown-15m-0");
}

#[test]
fn decimal_rendering() {
    assert_eq!(u64_to_dec(0).as_str(), "0");
    assert_eq!(u64_to_dec(9).as_str(), "9");
    assert_eq!(u64_to_dec(10).as_str(), "10");
    assert_eq!(u64_to_dec(1766100600).as_str(), "1766100600");
    assert_eq!(u64_to_dec(u64::MAX).as_str(), "18446744073709551615");
}

#[test]
fn interval_end_rounds_up_to_window_close() {
    // 1766100550 sits in the window closing at 1766100600.
    assert_eq!(interval_end(1766100550, 0), 1766100600);
    assert_eq!(interval_end(1766100550, 1), 1766101500);
    // An exact boundary belongs to the window closing one full length later.
    assert_eq!(interval_end(1766100600, 0), 1766101500);
    assert_eq!(interval_start(1766100550), 1766099700);
}

#[test]
fn deadlines() {
    assert_eq!(preload_deadline(1766100600), 1766100540);
    assert_eq!(preload_deadline(30), 0);
    assert_eq!(expiry_deadline(1766100600), 1766100605);
    assert_eq!(wait_secs(1766100550, 1766100600), 50);
    assert_eq!(wait_secs(1766100650, 1766100600), 0);
}

#[test]
fn token_ids_parsed_from_json() {
    let m = catalog_entry(Some("[\"yes-token-1\", \"no-token-2\"]"));
    let (yes, no) = m.get_token_ids().expect("two ids");
    assert_eq!(yes, "yes-token-1");
    assert_eq!(no, "no-token-2");
}

#[test]
fn token_ids_missing_or_malformed() {
    assert!(catalog_entry(None).get_token_ids().is_none());
    assert!(catalog_entry(Some("not json")).get_token_ids().is_none());
    assert!(catalog_entry(Some("[\"only-one\"]")).get_token_ids().is_none());
    assert!(catalog_entry(Some("[1, 2]")).get_token_ids().is_none());
}

#[test]
fn token_ids_take_first_two() {
    let m = catalog_entry(Some("[\"a\", \"b\", \"c\"]"));
    let (yes, no) = m.get_token_ids().expect("at least two ids");
    assert_eq!(yes, "a");
    assert_eq!(no, "b");
}

#[test]
fn is_active_requires_all_three_flags() {
    let mut m = catalog_entry(None);
    assert!(m.is_active());
    m.closed = None;
    assert!(!m.is_active());
    m.closed = Some(true);
    assert!(!m.is_active());
    m.closed = Some(false);
    m.active = Some(false);
    assert!(!m.is_active());
    m.active = Some(true);
    m.accepting_orders = None;
    assert!(!m.is_active());
}

#[test]
fn asset_from_slug() {
    let m = catalog_entry(None);
    assert_eq!(m.get_asset(), Some("btc"));
    let mut bare = catalog_entry(None);
    bare.slug = "nodash".to_string();
    assert_eq!(bare.get_asset(), Some("nodash"));
}

#[test]
fn discovery_filter_accepts_tradeable_two_token_entry() {
    let m = catalog_entry(Some("[\"yt\", \"nt\"]"));
    let asset = "btc".to_string();
    let slug = "btc-updown-15m-1766100600".to_string();
    let a = to_active(&m, &asset, &slug, 1766100600).expect("tradeable");
    assert_eq!(a.asset, "btc");
    assert_eq!(a.slug, "btc-updown-15m-1766100600");
    assert_eq!(a.question, m.question);
    assert_eq!(a.yes_token, "yt");
    assert_eq!(a.no_token, "nt");
    assert_eq!(a.end_timestamp, 1766100600);
}

#[test]
fn discovery_filter_drops_bad_entries() {
    let asset = "btc".to_string();
    let slug = "btc-updown-15m-1766100600".to_string();

    // Not tradeable.
    let mut m = catalog_entry(Some("[\"yt\", \"nt\"]"));
    m.closed = Some(true);
    assert!(to_active(&m, &asset, &slug, 1766100600).is_none());

    // Token list absent, short, or long: never inserted.
    assert!(to_active(&catalog_entry(None), &asset, &slug, 1766100600).is_none());
    assert!(to_active(&catalog_entry(Some("[\"one\"]")), &asset, &slug, 1766100600).is_none());
    assert!(
        to_active(&catalog_entry(Some("[\"a\", \"b\", \"c\"]")), &asset, &slug, 1766100600)
            .is_none()
    );
}
