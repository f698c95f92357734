//! Window-boundary scheduling: deriving the identifier of the instrument
//! whose window closes next, and the preload and expiry deadlines that drive
//! the discovery loop.

use vstd::prelude::*;

use crate::config::{EXPIRY_GRACE_SECS, MARKET_INTERVAL_SECS, PRELOAD_BUFFER_SECS};

verus! {

/// The character for one decimal digit.
pub open spec fn digit_char(d: nat) -> char {
    if d == 0 {
        '0'
    } else if d == 1 {
        '1'
    } else if d == 2 {
        '2'
    } else if d == 3 {
        '3'
    } else if d == 4 {
        '4'
    } else if d == 5 {
        '5'
    } else if d == 6 {
        '6'
    } else if d == 7 {
        '7'
    } else if d == 8 {
        '8'
    } else {
        '9'
    }
}

/// The decimal rendering of `n`, most significant digit first, no leading
/// zeros (a lone zero for 0).
pub open spec fn spec_dec_digits(n: nat) -> Seq<char>
    decreases n,
{
    if n < 10 {
        seq![digit_char(n)]
    } else {
        spec_dec_digits(n / 10).push(digit_char(n % 10))
    }
}

/// The one-character string for a digit.
fn digit_str(d: u64) -> (r: &'static str)
    requires
        d < 10,
    ensures
        r@ == seq![digit_char(d as nat)],
{
    let r: &'static str = if d == 0 {
        "0"
    } else if d == 1 {
        "1"
    } else if d == 2 {
        "2"
    } else if d == 3 {
        "3"
    } else if d == 4 {
        "4"
    } else if d == 5 {
        "5"
    } else if d == 6 {
        "6"
    } else if d == 7 {
        "7"
    } else if d == 8 {
        "8"
    } else {
        "9"
    };
    proof {
        reveal_strlit("0");
        reveal_strlit("1");
        reveal_strlit("2");
        reveal_strlit("3");
        reveal_strlit("4");
        reveal_strlit("5");
        reveal_strlit("6");
        reveal_strlit("7");
        reveal_strlit("8");
        reveal_strlit("9");
        assert(r@ =~= seq![digit_char(d as nat)]);
    }
    r
}

/// Render `n` in decimal.
pub fn u64_to_dec(n: u64) -> (r: String)
    ensures
        r@ == spec_dec_digits(n as nat),
    decreases n,
{
    if n < 10 {
        String::from_str(digit_str(n))
    } else {
        let prefix = u64_to_dec(n / 10);
        let r = prefix.concat(digit_str(n % 10));
        proof {
            assert(r@ =~= spec_dec_digits(n as nat));
        }
        r
    }
}

/// The catalog identifier of the instrument for `asset` whose window closes
/// at `end_timestamp`: the asset symbol, the fixed market family tag, and
/// the close time in decimal.
pub fn make_slug(asset: &str, end_timestamp: u64) -> (r: String)
    ensures
        r@ == asset@ + "-updown-15m-"@ + spec_dec_digits(end_timestamp as nat),
{
    let mut s = asset.to_owned();
    s.append("-updown-15m-");
    let digits = u64_to_dec(end_timestamp);
    s.append(digits.as_str());
    s
}

/// Close time of the window `lookahead` windows after the one now open: the
/// next multiple of the window length after `now`, plus `lookahead` whole
/// windows.
pub open spec fn spec_interval_end(now: u64, lookahead: u64) -> int {
    ((now / MARKET_INTERVAL_SECS) + 1 + lookahead) * MARKET_INTERVAL_SECS
}

/// Close time of the window `lookahead` windows after the current one.
pub fn interval_end(now: u64, lookahead: u64) -> (r: u64)
    requires
        spec_interval_end(now, lookahead) <= u64::MAX,
    ensures
        r == spec_interval_end(now, lookahead),
{
    ((now / MARKET_INTERVAL_SECS) + 1 + lookahead) * MARKET_INTERVAL_SECS
}

/// Start of the window containing `now`: `now` rounded down to a multiple
/// of the window length.
pub fn interval_start(now: u64) -> (r: u64)
    ensures
        r == (now / MARKET_INTERVAL_SECS) * MARKET_INTERVAL_SECS,
        r <= now,
{
    (now / MARKET_INTERVAL_SECS) * MARKET_INTERVAL_SECS
}

/// When to discover the next window's instruments: the preload buffer ahead
/// of the current window's close, never before time zero.
pub fn preload_deadline(interval_close: u64) -> (r: u64)
    ensures
        r == if interval_close >= PRELOAD_BUFFER_SECS {
            interval_close - PRELOAD_BUFFER_SECS
        } else {
            0
        },
{
    if interval_close >= PRELOAD_BUFFER_SECS {
        interval_close - PRELOAD_BUFFER_SECS
    } else {
        0
    }
}

/// When to retire the closed window's records: a small grace after its close.
pub fn expiry_deadline(interval_close: u64) -> (r: u64)
    requires
        interval_close + EXPIRY_GRACE_SECS <= u64::MAX,
    ensures
        r == interval_close + EXPIRY_GRACE_SECS,
{
    interval_close + EXPIRY_GRACE_SECS
}

/// How long to sleep until `deadline`: nothing when it has already passed.
pub fn wait_secs(now: u64, deadline: u64) -> (r: u64)
    ensures
        r == if deadline > now {
            deadline - now
        } else {
            0
        },
{
    if deadline > now {
        deadline - now
    } else {
        0
    }
}

} // verus!
