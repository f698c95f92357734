//! Tunable constants of the engine. Prices and sizes are fixed-point
//! integers in thousandths of a unit.

use vstd::prelude::*;

verus! {

/// Fixed-point scale: one whole unit (a price of 1.00) in scaled form.
pub const PRICE_SCALE: u64 = 1000;

/// Length of one market window in seconds (15 minutes).
pub const MARKET_INTERVAL_SECS: u64 = 900;

/// Sum of the two sides' prices must be strictly below this (scaled) for an
/// arbitrage signal; 995 means 0.995.
pub const ARB_THRESHOLD_MILLIS: u64 = 995;

/// Smallest per-leg trade size (scaled); 1000 means 1.0 units.
pub const MIN_TRADE_SIZE_MILLIS: u64 = 1000;

/// Largest per-leg trade size (scaled); 50000 means 50.0 units.
pub const MAX_TRADE_SIZE_MILLIS: u64 = 50000;

/// Two legs whose filled sizes differ by more than this (scaled) leave an
/// unmatched exposure; 500 means 0.5 units.
pub const UNMATCHED_TOLERANCE_MILLIS: u64 = 500;

/// Lead time before a window closes at which the next window is discovered.
pub const PRELOAD_BUFFER_SECS: u64 = 60;

/// Grace period after a window closes before its records are retired.
pub const EXPIRY_GRACE_SECS: u64 = 5;

/// Delay before retrying a failed discovery round.
pub const RETRY_DELAY_SECS: u64 = 10;

/// Delay before reconnecting a dropped feed connection.
pub const RECONNECT_DELAY_SECS: u64 = 5;

/// Interval between outbound feed keep-alive pings.
pub const HEARTBEAT_SECS: u64 = 30;

/// A connection with no traffic for longer than this is considered stale.
pub const STALENESS_SECS: u64 = 120;

} // verus!
