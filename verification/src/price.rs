//! Fixed-point reading of the venue's decimal price and size strings.
//!
//! A value such as `"0.28"` becomes the scaled integer 280: thousandths of a
//! unit. The accepted grammar is one or more digits, optionally followed by
//! a dot and one to three fractional digits.

use vstd::prelude::*;

use crate::config::PRICE_SCALE;

verus! {

/// Whether `c` is a decimal digit.
pub open spec fn is_digit(c: char) -> bool {
    48 <= c as u32 <= 57
}

/// Numeric value of a digit character.
pub open spec fn digit_val(c: char) -> int {
    c as u32 - 48
}

/// Whether every character of `s` is a decimal digit.
pub open spec fn all_digits(s: Seq<char>) -> bool {
    forall|i: int| 0 <= i < s.len() ==> is_digit(#[trigger] s[i])
}

/// The integer a digit string denotes, most significant digit first.
pub open spec fn digits_val(s: Seq<char>) -> int
    decreases s.len(),
{
    if s.len() == 0 {
        0
    } else {
        digits_val(s.drop_last()) * 10 + digit_val(s.last())
    }
}

/// Ten to the `n`th power.
pub open spec fn spec_pow10(n: nat) -> int
    decreases n,
{
    if n == 0 {
        1
    } else {
        10 * spec_pow10((n - 1) as nat)
    }
}

/// Index of the first occurrence of `c` in `s`; `s.len()` when there is none.
pub open spec fn spec_first_char(s: Seq<char>, c: char) -> int
    decreases s.len(),
{
    if s.len() == 0 {
        0
    } else if s[0] == c {
        0
    } else {
        1 + spec_first_char(s.drop_first(), c)
    }
}

/// Index of the first dot in `s`; `s.len()` when there is none.
pub open spec fn spec_first_dot(s: Seq<char>) -> int {
    spec_first_char(s, '.')
}

/// The scaled (thousandths) value the string denotes, or `None` where the
/// string is not of the form `digits` or `digits.digits` with one to three
/// fractional digits, or where the value exceeds `u64::MAX`.
pub open spec fn spec_scaled_value(s: Seq<char>) -> Option<u64> {
    let d = spec_first_dot(s);
    if d == s.len() {
        if s.len() > 0 && all_digits(s) {
            check_range(digits_val(s) * PRICE_SCALE)
        } else {
            None
        }
    } else {
        let ip = s.take(d);
        let fp = s.skip(d + 1);
        if ip.len() > 0 && all_digits(ip) && 1 <= fp.len() <= 3 && all_digits(fp) {
            check_range(
                digits_val(ip) * PRICE_SCALE + digits_val(fp) * spec_pow10((3 - fp.len()) as nat),
            )
        } else {
            None
        }
    }
}

/// `v` as a `u64` where it fits, `None` where it does not.
pub open spec fn check_range(v: int) -> Option<u64> {
    if v <= u64::MAX {
        Some(v as u64)
    } else {
        None
    }
}

/// The first-occurrence index is the unique position with no `c` before it
/// and a `c` at it (or the length when `s` has no `c`).
pub proof fn lemma_first_char_at(s: Seq<char>, c: char, i: int)
    requires
        0 <= i <= s.len(),
        forall|j: int| 0 <= j < i ==> #[trigger] s[j] != c,
        i < s.len() ==> s[i] == c,
    ensures
        spec_first_char(s, c) == i,
    decreases s.len(),
{
    if s.len() == 0 {
    } else if i == 0 {
    } else {
        let rest = s.drop_first();
        assert forall|j: int| 0 <= j < i - 1 implies #[trigger] rest[j] != c by {
            assert(rest[j] == s[j + 1]);
        }
        if i - 1 < rest.len() {
            assert(rest[i - 1] == s[i]);
        }
        lemma_first_char_at(rest, c, i - 1);
    }
}

/// A digit string denotes a value in `[0, 10^len)`.
proof fn lemma_digits_val_bound(s: Seq<char>)
    requires
        all_digits(s),
    ensures
        0 <= digits_val(s) < spec_pow10(s.len()),
    decreases s.len(),
{
    if s.len() == 0 {
    } else {
        let p = s.drop_last();
        assert(all_digits(p)) by {
            assert(forall|i: int| 0 <= i < p.len() ==> p[i] == s[i] && is_digit(#[trigger] s[i]));
        }
        lemma_digits_val_bound(p);
        assert(is_digit(s.last()));
    }
}

/// Reading more digits never shrinks the value.
proof fn lemma_digits_val_monotone(s: Seq<char>, i: int)
    requires
        all_digits(s),
        0 <= i <= s.len(),
    ensures
        digits_val(s.take(i)) <= digits_val(s),
    decreases s.len(),
{
    if i == s.len() {
        assert(s.take(i) =~= s);
    } else {
        let p = s.drop_last();
        assert(all_digits(p)) by {
            assert(forall|j: int| 0 <= j < p.len() ==> p[j] == s[j] && is_digit(#[trigger] s[j]));
        }
        assert(s.take(i) =~= p.take(i));
        lemma_digits_val_monotone(p, i);
        lemma_digits_val_bound(p);
        assert(is_digit(s.last()));
    }
}

/// One more digit multiplies the prefix value by ten and adds the digit.
proof fn lemma_digits_val_step(s: Seq<char>, i: int)
    requires
        0 <= i < s.len(),
    ensures
        digits_val(s.take(i + 1)) == digits_val(s.take(i)) * 10 + digit_val(s[i]),
{
    assert(s.take(i + 1).drop_last() =~= s.take(i));
    assert(s.take(i + 1).last() == s[i]);
}

/// Index of the first dot in `s`, or its length when it has none.
fn find_dot(s: &str) -> (d: usize)
    ensures
        d == spec_first_dot(s@),
        d <= s@.len(),
{
    let n = s.unicode_len();
    let mut j: usize = 0;
    while j < n
        invariant
            j <= n,
            n == s@.len(),
            forall|t: int| 0 <= t < j ==> #[trigger] s@[t] != '.',
        decreases n - j,
    {
        if s.get_char(j) == '.' {
            proof {
                lemma_first_char_at(s@, '.', j as int);
            }
            return j;
        }
        j += 1;
    }
    proof {
        lemma_first_char_at(s@, '.', n as int);
    }
    n
}

/// Read the characters of `s` in `[start, end)` as a digit string.
fn parse_digits(s: &str, start: usize, end: usize) -> (r: Option<u64>)
    requires
        start <= end <= s@.len(),
    ensures
        ({
            let part = s@.subrange(start as int, end as int);
            match r {
                Some(v) => all_digits(part) && v == digits_val(part),
                None => !all_digits(part) || digits_val(part) > u64::MAX,
            }
        }),
{
    let ghost part = s@.subrange(start as int, end as int);
    let mut acc: u64 = 0;
    let mut i: usize = start;
    while i < end
        invariant
            start <= i <= end <= s@.len(),
            part == s@.subrange(start as int, end as int),
            all_digits(part.take(i - start)),
            acc == digits_val(part.take(i - start)),
        decreases end - i,
    {
        let c = s.get_char(i);
        let u = c as u32;
        proof {
            assert(part[i - start] == s@[i as int]);
        }
        if u < 48 || u > 57 {
            return None;
        }
        let dv = (u - 48) as u64;
        let cand: u128 = (acc as u128) * 10 + (dv as u128);
        proof {
            lemma_digits_val_step(part, i - start);
            assert forall|t: int| 0 <= t < i - start + 1 implies is_digit(
                #[trigger] part.take(i - start + 1)[t],
            ) by {
                if t < i - start {
                    assert(part.take(i - start + 1)[t] == part.take(i - start)[t]);
                    assert(is_digit(part.take(i - start)[t]));
                } else {
                    assert(part.take(i - start + 1)[t] == part[i - start]);
                }
            }
            assert(all_digits(part.take(i - start + 1)));
        }
        if cand > u64::MAX as u128 {
            proof {
                if all_digits(part) {
                    lemma_digits_val_monotone(part, i - start + 1);
                }
            }
            return None;
        }
        acc = cand as u64;
        i += 1;
    }
    proof {
        assert(part.take(end - start) =~= part);
    }
    Some(acc)
}

/// Parse a decimal string into thousandths of a unit: `"0.28"` becomes 280,
/// `"40"` becomes 40000. `None` where the string is not one or more digits
/// optionally followed by a dot and one to three fractional digits, or where
/// the scaled value overflows.
pub fn parse_scaled(s: &str) -> (r: Option<u64>)
    ensures
        r == spec_scaled_value(s@),
{
    let n = s.unicode_len();
    let d = find_dot(s);
    if d == n {
        if n == 0 {
            return None;
        }
        proof {
            assert(s@.subrange(0, n as int) =~= s@);
        }
        match parse_digits(s, 0, n) {
            None => {
                proof {
                    if all_digits(s@) {
                        assert(digits_val(s@) * PRICE_SCALE >= digits_val(s@)) by {
                            lemma_digits_val_bound(s@);
                        }
                    }
                }
                None
            },
            Some(v) => {
                let val: u128 = (v as u128) * 1000;
                if val > u64::MAX as u128 {
                    None
                } else {
                    Some(val as u64)
                }
            },
        }
    } else {
        let flen = n - d - 1;
        let ghost ip = s@.take(d as int);
        let ghost fp = s@.skip(d + 1);
        proof {
            assert(ip =~= s@.subrange(0, d as int));
            assert(fp =~= s@.subrange(d + 1, n as int));
        }
        if d == 0 || flen == 0 || flen > 3 {
            return None;
        }
        let iv = match parse_digits(s, 0, d) {
            None => {
                proof {
                    if all_digits(ip) && all_digits(fp) {
                        lemma_digits_val_bound(fp);
                        assert(digits_val(ip) * PRICE_SCALE >= digits_val(ip)) by {
                            lemma_digits_val_bound(ip);
                        }
                        assert(digits_val(fp) * spec_pow10((3 - fp.len()) as nat) >= 0) by {
                            reveal_with_fuel(spec_pow10, 4);
                        }
                    }
                }
                return None;
            },
            Some(v) => v,
        };
        let fv = match parse_digits(s, d + 1, n) {
            None => {
                proof {
                    if all_digits(fp) {
                        lemma_digits_val_bound(fp);
                        assert(spec_pow10(fp.len()) <= 1000) by {
                            reveal_with_fuel(spec_pow10, 4);
                        }
                    }
                }
                return None;
            },
            Some(v) => v,
        };
        let pow: u64 = if flen == 1 {
            100
        } else if flen == 2 {
            10
        } else {
            1
        };
        proof {
            assert(pow == spec_pow10((3 - fp.len()) as nat)) by {
                reveal_with_fuel(spec_pow10, 4);
            }
        }
        proof {
            assert((fv as u128) * (pow as u128) <= (u64::MAX as u128) * 100) by (nonlinear_arith)
                requires
                    fv <= u64::MAX,
                    pow <= 100,
            ;
        }
        let val: u128 = (iv as u128) * 1000 + (fv as u128) * (pow as u128);
        if val > u64::MAX as u128 {
            None
        } else {
            Some(val as u64)
        }
    }
}

} // verus!
