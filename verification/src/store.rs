//! The shared market-state store: one mutable record per tracked instrument,
//! reachable through either of its outcome-token ids, plus the arbitrage
//! predicates evaluated on a record.

use vstd::prelude::*;

use crate::config::PRICE_SCALE;
use crate::market::ActiveUpDownMarket;

verus! {

/// Whether `t` is one of the record's two outcome-token ids.
pub open spec fn spec_owns_token(m: MarketState, t: Seq<char>) -> bool {
    m.yes_token@ == t || m.no_token@ == t
}

/// Two records share no outcome-token id.
pub open spec fn spec_disjoint(a: MarketState, b: MarketState) -> bool {
    &&& a.yes_token@ != b.yes_token@
    &&& a.yes_token@ != b.no_token@
    &&& a.no_token@ != b.yes_token@
    &&& a.no_token@ != b.no_token@
}

/// Every pair of records holds disjoint token ids, so a token id reaches at
/// most one record.
pub open spec fn spec_records_wf(s: Seq<MarketState>) -> bool {
    forall|i: int, j: int|
        0 <= i < j < s.len() ==> spec_disjoint(#[trigger] s[i], #[trigger] s[j])
}

/// Index of the first record owning `t`; `s.len()` when none does.
pub open spec fn spec_first_owner(s: Seq<MarketState>, t: Seq<char>) -> int
    decreases s.len(),
{
    if s.len() == 0 {
        0
    } else if spec_owns_token(s[0], t) {
        0
    } else {
        1 + spec_first_owner(s.drop_first(), t)
    }
}

/// The first-owner index is the unique position with no owner before it and
/// an owner at it (or the length when no record owns `t`).
proof fn lemma_first_owner_char(s: Seq<MarketState>, t: Seq<char>, i: int)
    requires
        0 <= i <= s.len(),
        forall|j: int| 0 <= j < i ==> !spec_owns_token(#[trigger] s[j], t),
        i < s.len() ==> spec_owns_token(s[i], t),
    ensures
        spec_first_owner(s, t) == i,
    decreases s.len(),
{
    if s.len() == 0 {
    } else if i == 0 {
    } else {
        assert(!spec_owns_token(s[0], t));
        let rest = s.drop_first();
        assert forall|j: int| 0 <= j < i - 1 implies !spec_owns_token(#[trigger] rest[j], t) by {
            assert(rest[j] == s[j + 1]);
        }
        if i - 1 < rest.len() {
            assert(rest[i - 1] == s[i]);
        }
        lemma_first_owner_char(rest, t, i - 1);
    }
}

/// The record as a side update for token `t` leaves it: the side whose token
/// is `t` takes the new price and size, the other side and the identity
/// fields stay, and the update timestamp only advances.
pub open spec fn spec_apply_update(
    m: MarketState,
    t: Seq<char>,
    price: u64,
    size: u64,
    now: u64,
) -> MarketState {
    let lu = if now >= m.last_update {
        now
    } else {
        m.last_update
    };
    if m.yes_token@ == t {
        MarketState {
            asset: m.asset,
            question: m.question,
            yes_token: m.yes_token,
            no_token: m.no_token,
            yes_price: price,
            no_price: m.no_price,
            yes_size: size,
            no_size: m.no_size,
            last_update: lu,
        }
    } else {
        MarketState {
            asset: m.asset,
            question: m.question,
            yes_token: m.yes_token,
            no_token: m.no_token,
            yes_price: m.yes_price,
            no_price: price,
            yes_size: m.yes_size,
            no_size: size,
            last_update: lu,
        }
    }
}

/// What a side update for token `t` does to the records `s` and what it
/// returns: with no owner of `t` nothing changes and nothing is returned;
/// otherwise the first owner alone is rewritten by `spec_apply_update`, and
/// the rewritten record is returned exactly when it then shows the
/// arbitrage signal against `threshold`.
pub open spec fn spec_update_outcome(
    s: Seq<MarketState>,
    t: Seq<char>,
    price: u64,
    size: u64,
    now: u64,
    threshold: u64,
    s2: Seq<MarketState>,
    r: Option<MarketState>,
) -> bool {
    let k = spec_first_owner(s, t);
    if k == s.len() {
        s2 == s && r is None
    } else {
        let m = spec_apply_update(s[k], t, price, size, now);
        &&& s2 == s.update(k, m)
        &&& r == if spec_has_arb(m.yes_price, m.no_price, threshold) {
            Some(m)
        } else {
            None::<MarketState>
        }
    }
}

/// Whether record `m` belongs to one of the expired instruments: either of
/// its token ids equals either token id of some instrument in `ex`.
pub open spec fn spec_in_expired(m: MarketState, ex: Seq<ActiveUpDownMarket>) -> bool {
    exists|k: int| 0 <= k < ex.len() && spec_token_match(m, #[trigger] ex[k])
}

/// Whether record `m` shares a token id with instrument `a`.
pub open spec fn spec_token_match(m: MarketState, a: ActiveUpDownMarket) -> bool {
    ||| m.yes_token@ == a.yes_token@
    ||| m.yes_token@ == a.no_token@
    ||| m.no_token@ == a.yes_token@
    ||| m.no_token@ == a.no_token@
}

/// The records that survive retiring the instruments in `ex`: exactly those
/// sharing no token id with any of them, in their original order.
pub open spec fn spec_retired(s: Seq<MarketState>, ex: Seq<ActiveUpDownMarket>) -> Seq<MarketState>
    decreases s.len(),
{
    if s.len() == 0 {
        s
    } else {
        let prefix = spec_retired(s.drop_last(), ex);
        if spec_in_expired(s.last(), ex) {
            prefix
        } else {
            prefix.push(s.last())
        }
    }
}

/// Live best-ask state of one instrument. Prices and sizes are scaled
/// integers in thousandths of a unit; zero means "no price seen yet".
pub struct MarketState {
    pub asset: String,
    pub question: String,
    pub yes_token: String,
    pub no_token: String,
    pub yes_price: u64,
    pub no_price: u64,
    pub yes_size: u64,
    pub no_size: u64,
    pub last_update: u64,
}

/// The arbitrage signal: both sides priced strictly above zero and the two
/// prices summing strictly below the threshold.
pub open spec fn spec_has_arb(yes_price: u64, no_price: u64, threshold: u64) -> bool {
    0 < yes_price && 0 < no_price && yes_price + no_price < threshold
}

/// Expected profit per contract in scaled units: the guaranteed payout of one
/// unit less the cost of buying both sides; zero while either side is unpriced.
pub open spec fn spec_profit_millis(yes_price: u64, no_price: u64) -> int {
    if yes_price == 0 || no_price == 0 {
        0
    } else {
        PRICE_SCALE - (yes_price + no_price)
    }
}

/// Per-leg trade size: the smaller side's available size, clamped to the
/// configured bounds.
pub open spec fn spec_trade_size(yes_size: u64, no_size: u64, min_size: u64, max_size: u64) -> u64 {
    let available = if yes_size <= no_size {
        yes_size
    } else {
        no_size
    };
    if available > max_size {
        max_size
    } else if available < min_size {
        min_size
    } else {
        available
    }
}

impl MarketState {
    /// A fresh record for a newly discovered instrument: no prices yet.
    pub fn new(market: &ActiveUpDownMarket, now: u64) -> (r: MarketState)
        ensures
            r.asset@ == market.asset@,
            r.question@ == market.question@,
            r.yes_token@ == market.yes_token@,
            r.no_token@ == market.no_token@,
            r.yes_price == 0 && r.no_price == 0 && r.yes_size == 0 && r.no_size == 0,
            r.last_update == now,
    {
        MarketState {
            asset: market.asset.clone(),
            question: market.question.clone(),
            yes_token: market.yes_token.clone(),
            no_token: market.no_token.clone(),
            yes_price: 0,
            no_price: 0,
            yes_size: 0,
            no_size: 0,
            last_update: now,
        }
    }

    /// A detached copy, safe to hand to the execution engine after the
    /// store's exclusivity is released.
    pub fn snapshot(&self) -> (r: MarketState)
        ensures
            r == *self,
    {
        MarketState {
            asset: self.asset.clone(),
            question: self.question.clone(),
            yes_token: self.yes_token.clone(),
            no_token: self.no_token.clone(),
            yes_price: self.yes_price,
            no_price: self.no_price,
            yes_size: self.yes_size,
            no_size: self.no_size,
            last_update: self.last_update,
        }
    }

    /// Whether this record currently shows the pricing inefficiency: both
    /// sides priced, and their sum strictly below `threshold`. Holds for
    /// every pair of prices, priced or not.
    pub fn has_arb(&self, threshold: u64) -> (r: bool)
        ensures
            r == spec_has_arb(self.yes_price, self.no_price, threshold),
    {
        self.yes_price > 0 && self.no_price > 0 && (self.yes_price as u128) + (
        self.no_price as u128) < (threshold as u128)
    }

    /// Expected profit per contract in scaled units. Prices live in [0, 1],
    /// that is [0, `PRICE_SCALE`] scaled, so the result fits comfortably.
    pub fn profit_millis(&self) -> (r: i64)
        requires
            self.yes_price <= PRICE_SCALE,
            self.no_price <= PRICE_SCALE,
        ensures
            r == spec_profit_millis(self.yes_price, self.no_price),
    {
        if self.yes_price == 0 || self.no_price == 0 {
            0
        } else {
            PRICE_SCALE as i64 - (self.yes_price + self.no_price) as i64
        }
    }

    /// Per-leg trade size from available liquidity, always within the
    /// configured bounds even when liquidity is below the minimum.
    pub fn trade_size(&self, min_size: u64, max_size: u64) -> (r: u64)
        requires
            min_size <= max_size,
        ensures
            r == spec_trade_size(self.yes_size, self.no_size, min_size, max_size),
            min_size <= r <= max_size,
    {
        let available = if self.yes_size <= self.no_size {
            self.yes_size
        } else {
            self.no_size
        };
        if available > max_size {
            max_size
        } else if available < min_size {
            min_size
        } else {
            available
        }
    }
}

/// Every record that survives retirement was a record before it.
proof fn lemma_retired_subset(s: Seq<MarketState>, ex: Seq<ActiveUpDownMarket>)
    ensures
        forall|x: MarketState| #[trigger] spec_retired(s, ex).contains(x) ==> s.contains(x),
    decreases s.len(),
{
    if s.len() == 0 {
    } else {
        let prefix = s.drop_last();
        lemma_retired_subset(prefix, ex);
        assert forall|x: MarketState| #[trigger] spec_retired(s, ex).contains(x) implies s.contains(
            x,
        ) by {
            let r = spec_retired(s, ex);
            let i = choose|i: int| 0 <= i < r.len() && r[i] == x;
            if spec_in_expired(s.last(), ex) || i < spec_retired(prefix, ex).len() {
                assert(spec_retired(prefix, ex).contains(x));
                let j = choose|j: int| 0 <= j < prefix.len() && prefix[j] == x;
                assert(s[j] == x);
            } else {
                assert(x == s.last());
                assert(s[s.len() - 1] == x);
            }
        }
    }
}

/// Retirement keeps the store's token ids pairwise disjoint.
proof fn lemma_retired_wf(s: Seq<MarketState>, ex: Seq<ActiveUpDownMarket>)
    requires
        spec_records_wf(s),
    ensures
        spec_records_wf(spec_retired(s, ex)),
    decreases s.len(),
{
    if s.len() == 0 {
    } else {
        let prefix = s.drop_last();
        assert(spec_records_wf(prefix)) by {
            assert forall|i: int, j: int| 0 <= i < j < prefix.len() implies spec_disjoint(
                #[trigger] prefix[i],
                #[trigger] prefix[j],
            ) by {
                assert(prefix[i] == s[i] && prefix[j] == s[j]);
            }
        }
        lemma_retired_wf(prefix, ex);
        lemma_retired_subset(prefix, ex);
        let rp = spec_retired(prefix, ex);
        if !spec_in_expired(s.last(), ex) {
            let r = rp.push(s.last());
            assert forall|i: int, j: int| 0 <= i < j < r.len() implies spec_disjoint(
                #[trigger] r[i],
                #[trigger] r[j],
            ) by {
                if j < rp.len() {
                    assert(r[i] == rp[i] && r[j] == rp[j]);
                } else {
                    assert(r[j] == s.last());
                    assert(rp.contains(rp[i]));
                    assert(prefix.contains(r[i]));
                    let k = choose|k: int| 0 <= k < prefix.len() && prefix[k] == r[i];
                    assert(s[k] == r[i]);
                    assert(spec_disjoint(s[k], s[s.len() - 1]));
                }
            }
        }
    }
}

/// Retiring the same instrument set twice removes nothing the second time.
///
/// Law: retirement is idempotent — it removes exactly the records whose
/// token ids belong to the expired instrument set, so a repeated call finds
/// none left to remove.
pub proof fn lemma_retire_idempotent(s: Seq<MarketState>, ex: Seq<ActiveUpDownMarket>)
    ensures
        spec_retired(spec_retired(s, ex), ex) == spec_retired(s, ex),
    decreases s.len(),
{
    if s.len() == 0 {
        assert(spec_retired(s, ex).len() == 0);
    } else {
        let prefix = s.drop_last();
        lemma_retire_idempotent(prefix, ex);
        let rp = spec_retired(prefix, ex);
        if spec_in_expired(s.last(), ex) {
        } else {
            let r = rp.push(s.last());
            assert(r.drop_last() =~= rp);
            assert(r.last() == s.last());
            assert(spec_retired(r, ex) == spec_retired(rp, ex).push(s.last()));
        }
    }
}

/// Law: retirement removes exactly the matching records — every surviving
/// record is clear of the expired token ids, and every record clear of them
/// survives.
pub proof fn lemma_retired_membership(s: Seq<MarketState>, ex: Seq<ActiveUpDownMarket>)
    ensures
        forall|i: int|
            0 <= i < spec_retired(s, ex).len() ==> !spec_in_expired(
                #[trigger] spec_retired(s, ex)[i],
                ex,
            ),
        forall|i: int|
            0 <= i < s.len() && !spec_in_expired(#[trigger] s[i], ex) ==> spec_retired(
                s,
                ex,
            ).contains(s[i]),
    decreases s.len(),
{
    if s.len() == 0 {
    } else {
        let prefix = s.drop_last();
        lemma_retired_membership(prefix, ex);
        let rp = spec_retired(prefix, ex);
        let r = spec_retired(s, ex);
        assert forall|i: int| 0 <= i < r.len() implies !spec_in_expired(#[trigger] r[i], ex) by {
            if i < rp.len() {
                assert(r[i] == rp[i]);
            }
        }
        assert forall|i: int|
            0 <= i < s.len() && !spec_in_expired(#[trigger] s[i], ex) implies r.contains(s[i]) by {
            if i < s.len() - 1 {
                assert(prefix[i] == s[i]);
                assert(rp.contains(s[i]));
                let k = choose|k: int| 0 <= k < rp.len() && rp[k] == s[i];
                assert(r[k] == s[i]);
            } else {
                assert(s[i] == s.last());
                assert(r.last() == s.last());
            }
        }
    }
}

/// The mutually exclusive market-state store. The caller serialises access
/// (one writer at a time); each operation is an in-memory read or write that
/// never spans a network call.
pub struct MarketStore {
    pub records: Vec<MarketState>,
}

impl MarketStore {
    /// All records hold pairwise disjoint token ids, so a token id reaches
    /// at most one record.
    pub open spec fn wf(&self) -> bool {
        spec_records_wf(self.records@)
    }

    /// Whether some record owns the token id `t`.
    pub open spec fn spec_contains_token(&self, t: Seq<char>) -> bool {
        exists|i: int|
            0 <= i < self.records@.len() && spec_owns_token(#[trigger] self.records@[i], t)
    }

    /// An empty store.
    pub fn new() -> (r: MarketStore)
        ensures
            r.records@.len() == 0,
            r.wf(),
    {
        MarketStore { records: Vec::new() }
    }

    /// Whether some record owns the token id `token`.
    pub fn contains_token(&self, token: &String) -> (r: bool)
        ensures
            r == self.spec_contains_token(token@),
    {
        let n = self.records.len();
        let mut i: usize = 0;
        while i < n
            invariant
                i <= n,
                n == self.records@.len(),
                forall|j: int| 0 <= j < i ==> !spec_owns_token(#[trigger] self.records@[j], token@),
            decreases n - i,
        {
            if self.records[i].yes_token == *token || self.records[i].no_token == *token {
                return true;
            }
            i += 1;
        }
        false
    }

    /// Insert a fresh record for a newly discovered instrument, unless one
    /// of its outcome-token ids is already present; then nothing changes.
    pub fn insert_if_absent(&mut self, market: &ActiveUpDownMarket, now: u64)
        requires
            old(self).wf(),
        ensures
            final(self).wf(),
            old(self).spec_contains_token(market.yes_token@) || old(self).spec_contains_token(
                market.no_token@,
            ) ==> final(self).records@ == old(self).records@,
            !(old(self).spec_contains_token(market.yes_token@) || old(self).spec_contains_token(
                market.no_token@,
            )) ==> {
                let r = final(self).records@;
                &&& r.len() == old(self).records@.len() + 1
                &&& r.drop_last() == old(self).records@
                &&& r.last().asset@ == market.asset@
                &&& r.last().question@ == market.question@
                &&& r.last().yes_token@ == market.yes_token@
                &&& r.last().no_token@ == market.no_token@
                &&& r.last().yes_price == 0 && r.last().no_price == 0
                &&& r.last().yes_size == 0 && r.last().no_size == 0
                &&& r.last().last_update == now
            },
    {
        if self.contains_token(&market.yes_token) || self.contains_token(&market.no_token) {
            return ;
        }
        let ghost s = self.records@;
        let fresh = MarketState::new(market, now);
        self.records.push(fresh);
        proof {
            assert(self.records@.drop_last() =~= s);
            assert forall|i: int, j: int| 0 <= i < j < self.records@.len() implies spec_disjoint(
                #[trigger] self.records@[i],
                #[trigger] self.records@[j],
            ) by {
                if j < s.len() {
                    assert(self.records@[i] == s[i] && self.records@[j] == s[j]);
                } else {
                    assert(self.records@[i] == s[i]);
                    assert(!spec_owns_token(s[i], market.yes_token@));
                    assert(!spec_owns_token(s[i], market.no_token@));
                }
            }
        }
    }

    /// Retire every record whose token ids belong to the expired instrument
    /// set, leaving all others untouched and in order.
    pub fn retire(&mut self, expired: &Vec<ActiveUpDownMarket>)
        requires
            old(self).wf(),
        ensures
            final(self).wf(),
            final(self).records@ == spec_retired(old(self).records@, expired@),
    {
        let ghost s = self.records@;
        let n = self.records.len();
        let mut kept: Vec<MarketState> = Vec::new();
        let mut i: usize = 0;
        while i < n
            invariant
                i <= n,
                n == self.records@.len(),
                self.records@ == s,
                kept@ == spec_retired(s.take(i as int), expired@),
            decreases n - i,
        {
            let keep = !matches_expired(&self.records[i], expired);
            proof {
                assert(s.take(i + 1).drop_last() =~= s.take(i as int));
                assert(s.take(i + 1).last() == s[i as int]);
            }
            if keep {
                kept.push(self.records[i].snapshot());
            }
            i += 1;
        }
        proof {
            assert(s.take(n as int) =~= s);
            lemma_retired_wf(s, expired@);
        }
        self.records = kept;
    }

    /// All tracked outcome-token ids, two per record, records in order with
    /// the affirmative token first.
    pub fn tracked_tokens(&self) -> (r: Vec<String>)
        ensures
            r@.len() == 2 * self.records@.len(),
            forall|i: int|
                0 <= i < self.records@.len() ==> r@[2 * i]@ == (
                #[trigger] self.records@[i]).yes_token@ && r@[2 * i + 1]@
                    == self.records@[i].no_token@,
    {
        let n = self.records.len();
        let mut r: Vec<String> = Vec::new();
        let mut i: usize = 0;
        while i < n
            invariant
                i <= n,
                n == self.records@.len(),
                r@.len() == 2 * i,
                forall|j: int|
                    0 <= j < i ==> r@[2 * j]@ == (#[trigger] self.records@[j]).yes_token@ && r@[2
                        * j + 1]@ == self.records@[j].no_token@,
            decreases n - i,
        {
            r.push(self.records[i].yes_token.clone());
            r.push(self.records[i].no_token.clone());
            i += 1;
        }
        r
    }

    /// Apply a best-ask update for the side owning `token`. The first (and,
    /// by well-formedness, only) record owning it takes the new price and
    /// size on that side alone; an untracked token changes nothing. Returns
    /// a detached snapshot of the updated record exactly when the update
    /// leaves it showing the arbitrage signal.
    pub fn update_side(
        &mut self,
        token: &String,
        price: u64,
        size: u64,
        now: u64,
        threshold: u64,
    ) -> (r: Option<MarketState>)
        requires
            old(self).wf(),
        ensures
            final(self).wf(),
            spec_update_outcome(
                old(self).records@,
                token@,
                price,
                size,
                now,
                threshold,
                final(self).records@,
                r,
            ),
    {
        let ghost s = self.records@;
        let n = self.records.len();
        let mut i: usize = 0;
        while i < n
            invariant
                i <= n,
                n == self.records@.len(),
                self.records@ == s,
                old(self).records@ == s,
                spec_records_wf(s),
                forall|j: int| 0 <= j < i ==> !spec_owns_token(#[trigger] s[j], token@),
            decreases n - i,
        {
            let is_yes = self.records[i].yes_token == *token;
            let is_no = self.records[i].no_token == *token;
            if is_yes || is_no {
                proof {
                    lemma_first_owner_char(s, token@, i as int);
                }
                let rec = &mut self.records[i];
                if is_yes {
                    rec.yes_price = price;
                    rec.yes_size = size;
                } else {
                    rec.no_price = price;
                    rec.no_size = size;
                }
                if now >= rec.last_update {
                    rec.last_update = now;
                }
                proof {
                    assert(self.records@[i as int] == spec_apply_update(
                        s[i as int],
                        token@,
                        price,
                        size,
                        now,
                    ));
                    assert forall|a: int, b: int|
                        0 <= a < b < self.records@.len() implies spec_disjoint(
                        #[trigger] self.records@[a],
                        #[trigger] self.records@[b],
                    ) by {
                        assert(self.records@[a].yes_token == s[a].yes_token);
                        assert(self.records@[a].no_token == s[a].no_token);
                        assert(self.records@[b].yes_token == s[b].yes_token);
                        assert(self.records@[b].no_token == s[b].no_token);
                        assert(spec_disjoint(s[a], s[b]));
                    }
                }
                if self.records[i].has_arb(threshold) {
                    return Some(self.records[i].snapshot());
                } else {
                    return None;
                }
            }
            i += 1;
        }
        proof {
            lemma_first_owner_char(s, token@, n as int);
        }
        None
    }
}

/// Whether the record shares a token id with any instrument in `expired`.
fn matches_expired(m: &MarketState, expired: &Vec<ActiveUpDownMarket>) -> (r: bool)
    ensures
        r == spec_in_expired(*m, expired@),
{
    let n = expired.len();
    let mut i: usize = 0;
    while i < n
        invariant
            i <= n,
            n == expired@.len(),
            forall|k: int| 0 <= k < i ==> !spec_token_match(*m, #[trigger] expired@[k]),
        decreases n - i,
    {
        let a = &expired[i];
        if m.yes_token == a.yes_token || m.yes_token == a.no_token || m.no_token == a.yes_token
            || m.no_token == a.no_token {
            return true;
        }
        i += 1;
    }
    false
}

} // verus!
