//! Instrument metadata as the venue's catalog reports it, and the filter
//! that turns a raw catalog entry into a tracked instrument.

use vstd::prelude::*;

use crate::price::{lemma_first_char_at, spec_first_char};

verus! {

/// A market as the venue's catalog describes it. Fields that the catalog may
/// omit are optional; a missing flag counts against tradeability.
pub struct UpDownMarket {
    pub id: u64,
    pub question: String,
    pub slug: String,
    /// JSON-encoded string array holding the two outcome-token ids.
    pub clob_token_ids: Option<String>,
    pub active: Option<bool>,
    pub closed: Option<bool>,
    pub accepting_orders: Option<bool>,
    pub end_date: Option<String>,
    pub start_date: Option<String>,
    pub outcomes: Option<Vec<String>>,
}

/// A discovered, tradeable instrument: both outcome tokens known, window
/// close time fixed.
pub struct ActiveUpDownMarket {
    pub slug: String,
    pub asset: String,
    pub question: String,
    pub yes_token: String,
    pub no_token: String,
    pub end_timestamp: u64,
}

/// What `serde_json::from_str::<Vec<String>>` yields on the given text:
/// the parsed string array, or `None` where the text is not one.
pub uninterp spec fn json_string_array(s: Seq<char>) -> Option<Seq<Seq<char>>>;

/// Relies on `serde_json::from_str::<Vec<String>>`: parses a JSON array of
/// strings; the result is a function of the input text alone.
#[verifier::external_body]
fn parse_string_array(s: &str) -> (r: Option<Vec<String>>)
    ensures
        match r {
            Some(v) => json_string_array(s@) == Some(v.deep_view()),
            None => json_string_array(s@) is None,
        },
{
    serde_json::from_str::<Vec<String>>(s).ok()
}

/// A market is tradeable only when the catalog marks it active, not closed,
/// and accepting orders; a missing flag is read pessimistically.
pub open spec fn spec_is_active(m: &UpDownMarket) -> bool {
    m.active == Some(true) && m.closed == Some(false) && m.accepting_orders == Some(true)
}

impl UpDownMarket {
    /// Extract the affirmative and negative outcome-token ids, in the order
    /// the catalog lists them. `None` when the field is missing, does not
    /// parse as a string array, or holds fewer than two ids.
    pub fn get_token_ids(&self) -> (r: Option<(String, String)>)
        ensures
            match self.clob_token_ids {
                None => r is None,
                Some(raw) => match json_string_array(raw@) {
                    None => r is None,
                    Some(toks) => if toks.len() >= 2 {
                        r matches Some(pair) && pair.0@ == toks[0] && pair.1@ == toks[1]
                    } else {
                        r is None
                    },
                },
            },
    {
        match &self.clob_token_ids {
            None => None,
            Some(raw) => match parse_string_array(raw.as_str()) {
                None => None,
                Some(tokens) => {
                    if tokens.len() >= 2 {
                        let yes = tokens[0].clone();
                        let no = tokens[1].clone();
                        Some((yes, no))
                    } else {
                        None
                    }
                },
            },
        }
    }

    /// Whether the market is currently tradeable.
    pub fn is_active(&self) -> (r: bool)
        ensures
            r == spec_is_active(self),
    {
        let act = match self.active {
            Some(b) => b,
            None => false,
        };
        let closed = match self.closed {
            Some(b) => b,
            None => true,
        };
        let acc = match self.accepting_orders {
            Some(b) => b,
            None => false,
        };
        act && !closed && acc
    }

    /// The asset symbol: the slug up to its first dash, or the whole slug
    /// when it has none. Always present.
    pub fn get_asset(&self) -> (r: Option<&str>)
        ensures
            r matches Some(p) && p@ == self.slug@.take(spec_first_char(self.slug@, '-')),
    {
        let s = self.slug.as_str();
        let n = s.unicode_len();
        let mut j: usize = 0;
        while j < n
            invariant
                j <= n,
                n == s@.len(),
                s@ == self.slug@,
                forall|t: int| 0 <= t < j ==> #[trigger] s@[t] != '-',
            decreases n - j,
        {
            if s.get_char(j) == '-' {
                proof {
                    lemma_first_char_at(s@, '-', j as int);
                }
                return Some(s.substring_char(0, j));
            }
            j += 1;
        }
        proof {
            lemma_first_char_at(s@, '-', n as int);
        }
        Some(s.substring_char(0, n))
    }
}

/// Whether the catalog entry exposes exactly two outcome-token ids.
pub open spec fn spec_two_tokens(m: &UpDownMarket) -> bool {
    &&& m.clob_token_ids is Some
    &&& json_string_array(m.clob_token_ids->Some_0@) is Some
    &&& json_string_array(m.clob_token_ids->Some_0@)->Some_0.len() == 2
}

/// The two outcome-token ids of an entry with exactly two.
pub open spec fn spec_tokens_of(m: &UpDownMarket) -> Seq<Seq<char>> {
    json_string_array(m.clob_token_ids->Some_0@)->Some_0
}

/// The discovery filter: a catalog entry becomes a tracked instrument
/// exactly when it is tradeable (active, not closed, accepting orders) and
/// exposes exactly two outcome-token ids; anything else is dropped.
pub fn to_active(
    market: &UpDownMarket,
    asset: &String,
    slug: &String,
    end_timestamp: u64,
) -> (r: Option<ActiveUpDownMarket>)
    ensures
        (r is Some) == (spec_is_active(market) && spec_two_tokens(market)),
        r matches Some(a) ==> {
            &&& a.slug@ == slug@
            &&& a.asset@ == asset@
            &&& a.question@ == market.question@
            &&& a.end_timestamp == end_timestamp
            &&& a.yes_token@ == spec_tokens_of(market)[0]
            &&& a.no_token@ == spec_tokens_of(market)[1]
        },
{
    if !market.is_active() {
        return None;
    }
    match &market.clob_token_ids {
        None => None,
        Some(raw) => match parse_string_array(raw.as_str()) {
            None => None,
            Some(tokens) => {
                if tokens.len() == 2 {
                    proof {
                        assert(tokens.deep_view()[0] == tokens@[0]@);
                        assert(tokens.deep_view()[1] == tokens@[1]@);
                    }
                    Some(
                        ActiveUpDownMarket {
                            slug: slug.clone(),
                            asset: asset.clone(),
                            question: market.question.clone(),
                            yes_token: tokens[0].clone(),
                            no_token: tokens[1].clone(),
                            end_timestamp,
                        },
                    )
                } else {
                    None
                }
            },
        },
    }
}

} // verus!
