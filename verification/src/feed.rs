//! Feed-side logic: choosing the best ask from a book snapshot, applying it
//! to the store, and the connection-health decisions (keep-alive replies,
//! staleness, disconnects).

use vstd::prelude::*;

use crate::price::{parse_scaled, spec_scaled_value};
use crate::store::{spec_update_outcome, MarketState, MarketStore};

verus! {

/// One ask or bid level as the feed reports it: decimal strings.
pub struct PriceLevel {
    pub price: String,
    pub size: String,
}

/// One order-book snapshot from the feed, named by its outcome-token id.
pub struct BookSnapshot {
    pub asset_id: String,
    pub bids: Vec<PriceLevel>,
    pub asks: Vec<PriceLevel>,
}

/// The scaled (price, size) a level offers, or `None` where either string
/// fails to parse or is not strictly positive.
pub open spec fn spec_level_value(l: PriceLevel) -> Option<(u64, u64)> {
    match (spec_scaled_value(l.price@), spec_scaled_value(l.size@)) {
        (Some(p), Some(s)) => if p > 0 && s > 0 {
            Some((p, s))
        } else {
            None
        },
        _ => None,
    }
}

/// The valid level with the lowest price, scanning left to right and keeping
/// the earliest on ties; `None` when no level is valid.
pub open spec fn spec_best_ask(ls: Seq<PriceLevel>) -> Option<(u64, u64)>
    decreases ls.len(),
{
    if ls.len() == 0 {
        None
    } else {
        match (spec_best_ask(ls.drop_last()), spec_level_value(ls.last())) {
            (None, v) => v,
            (Some(b), None) => Some(b),
            (Some(b), Some(v)) => if v.0 < b.0 {
                Some(v)
            } else {
                Some(b)
            },
        }
    }
}

/// The best ask of a snapshot's ask levels: the minimum positive price among
/// levels with positive size, with that level's size; earliest level on ties.
pub fn best_ask(levels: &Vec<PriceLevel>) -> (r: Option<(u64, u64)>)
    ensures
        r == spec_best_ask(levels@),
{
    let n = levels.len();
    let mut best: Option<(u64, u64)> = None;
    let mut i: usize = 0;
    while i < n
        invariant
            i <= n,
            n == levels@.len(),
            best == spec_best_ask(levels@.take(i as int)),
        decreases n - i,
    {
        proof {
            assert(levels@.take(i + 1).drop_last() =~= levels@.take(i as int));
            assert(levels@.take(i + 1).last() == levels@[i as int]);
        }
        let p = parse_scaled(levels[i].price.as_str());
        let s = parse_scaled(levels[i].size.as_str());
        let lv: Option<(u64, u64)> = match (p, s) {
            (Some(pv), Some(sv)) => if pv > 0 && sv > 0 {
                Some((pv, sv))
            } else {
                None
            },
            _ => None,
        };
        best = match (best, lv) {
            (None, v) => v,
            (Some(b), None) => Some(b),
            (Some(b), Some(v)) => if v.0 < b.0 {
                Some(v)
            } else {
                Some(b)
            },
        };
        i += 1;
    }
    proof {
        assert(levels@.take(n as int) =~= levels@);
    }
    best
}

/// Apply a book snapshot to the store: compute the best ask and, where one
/// exists, update the side owning the snapshot's token id. A snapshot with
/// no valid level, or for an untracked token, changes nothing. Returns a
/// detached record snapshot exactly when the update raises the arbitrage
/// signal.
pub fn apply_book(
    store: &mut MarketStore,
    book: &BookSnapshot,
    now: u64,
    threshold: u64,
) -> (r: Option<MarketState>)
    requires
        old(store).wf(),
    ensures
        final(store).wf(),
        match spec_best_ask(book.asks@) {
            None => *final(store) == *old(store) && r is None,
            Some(ps) => spec_update_outcome(
                old(store).records@,
                book.asset_id@,
                ps.0,
                ps.1,
                now,
                threshold,
                final(store).records@,
                r,
            ),
        },
{
    match best_ask(&book.asks) {
        None => None,
        Some((price, size)) => store.update_side(&book.asset_id, price, size, now, threshold),
    }
}

/// An observation on the feed connection, in the order the socket reports
/// them.
#[derive(Clone, Copy, PartialEq, Eq, Structural, Debug)]
pub enum FeedEvent {
    /// A data message arrived.
    Data,
    /// The server sent a keep-alive ping.
    ServerPing,
    /// The server answered a keep-alive with a pong.
    ServerPong,
    /// Some other well-formed frame arrived.
    Other,
    /// The server closed the connection.
    Close,
    /// Reading the socket failed.
    ReadError,
    /// The stream ended.
    StreamEnd,
}

/// What the connection loop must do with an event.
#[derive(Clone, Copy, PartialEq, Eq, Structural, Debug)]
pub enum FeedAction {
    /// Parse the message and apply its book snapshots.
    ProcessData,
    /// Answer the server's ping with a pong.
    ReplyPong,
    /// Nothing.
    Ignore,
    /// Leave the connection loop; the supervisor reconnects after a delay.
    Disconnect,
}

/// The action each event demands.
pub open spec fn spec_feed_action(e: FeedEvent) -> FeedAction {
    match e {
        FeedEvent::Data => FeedAction::ProcessData,
        FeedEvent::ServerPing => FeedAction::ReplyPong,
        FeedEvent::ServerPong => FeedAction::Ignore,
        FeedEvent::Other => FeedAction::Ignore,
        FeedEvent::Close => FeedAction::Disconnect,
        FeedEvent::ReadError => FeedAction::Disconnect,
        FeedEvent::StreamEnd => FeedAction::Disconnect,
    }
}

/// Whether the event counts as traffic for staleness tracking.
pub open spec fn spec_refreshes(e: FeedEvent) -> bool {
    e is Data || e is ServerPing || e is ServerPong
}

/// Staleness tracking for one feed connection: the time the last message of
/// any kind was seen.
pub struct FeedMonitor {
    pub last_message: u64,
}

impl FeedMonitor {
    /// A monitor for a connection opened at `now`.
    pub fn new(now: u64) -> (r: FeedMonitor)
        ensures
            r.last_message == now,
    {
        FeedMonitor { last_message: now }
    }

    /// Decide what to do with an observed event, counting data messages and
    /// keep-alives as traffic. The last-message time only advances.
    pub fn on_event(&mut self, event: &FeedEvent, now: u64) -> (a: FeedAction)
        ensures
            a == spec_feed_action(*event),
            final(self).last_message == if spec_refreshes(*event) && now > old(
                self,
            ).last_message {
                now
            } else {
                old(self).last_message
            },
    {
        match event {
            FeedEvent::Data | FeedEvent::ServerPing | FeedEvent::ServerPong => {
                if now > self.last_message {
                    self.last_message = now;
                }
            },
            _ => {},
        }
        match event {
            FeedEvent::Data => FeedAction::ProcessData,
            FeedEvent::ServerPing => FeedAction::ReplyPong,
            FeedEvent::ServerPong => FeedAction::Ignore,
            FeedEvent::Other => FeedAction::Ignore,
            FeedEvent::Close => FeedAction::Disconnect,
            FeedEvent::ReadError => FeedAction::Disconnect,
            FeedEvent::StreamEnd => FeedAction::Disconnect,
        }
    }

    /// Whether the connection has gone quiet for longer than `staleness`
    /// seconds and must be proactively reconnected.
    pub fn is_stale(&self, now: u64, staleness: u64) -> (r: bool)
        ensures
            r == (now > self.last_message + staleness),
    {
        now > self.last_message && now - self.last_message > staleness
    }
}

/// A connection is only worth opening when there are tokens to subscribe to;
/// with an empty set the loop waits and retries instead.
pub fn should_connect(tokens: &Vec<String>) -> (r: bool)
    ensures
        r == (tokens@.len() > 0),
{
    tokens.len() > 0
}

} // verus!
