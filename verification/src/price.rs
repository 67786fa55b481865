//! Fixed-point prices and the decimal text they are read from.
//!
//! A price is a whole number of ticks, ten thousand to the currency unit.
//! Decimal text is an optional sign, digits, and optionally a point and more
//! digits, with at least one digit in all. Fractional digits past the fourth
//! are dropped. Text of any other form, or whose value no `i64` holds, reads
//! as 0.

use crate::text::{first_index_of, lemma_first_index_of, to_chars};
use vstd::prelude::*;

verus! {

/// Ticks in one currency unit.
pub const TICKS_PER_UNIT: i64 = 10_000;

/// Largest whole part whose ticks can still fit below `2^63`.
const WHOLE_LIMIT: u64 = 922_337_203_685_477;

/// `2^63`, the magnitude of the most negative `i64`.
const MAGNITUDE_LIMIT: u64 = 0x8000_0000_0000_0000;

/// Whether `c` is one of the decimal digits `0` to `9`.
pub open spec fn is_digit(c: char) -> bool {
    '0' as int <= c as int <= '9' as int
}

/// The number that a decimal digit stands for.
pub open spec fn digit_value(c: char) -> int {
    c as int - '0' as int
}

/// Whether `s` holds decimal digits only.
pub open spec fn all_digits(s: Seq<char>) -> bool {
    forall|i: int| 0 <= i < s.len() ==> is_digit(#[trigger] s[i])
}

/// The number that a run of decimal digits writes.
pub open spec fn digits_value(s: Seq<char>) -> int
    decreases s.len(),
{
    if s.len() == 0 {
        0
    } else {
        digits_value(s.drop_last()) * 10 + digit_value(s.last())
    }
}

/// The `i`-th fractional digit, 0 where the text has none.
pub open spec fn fraction_digit(frac: Seq<char>, i: int) -> int {
    if 0 <= i < frac.len() {
        digit_value(frac[i])
    } else {
        0
    }
}

/// Ticks written by the first four fractional digits.
pub open spec fn fraction_ticks(frac: Seq<char>) -> int {
    fraction_digit(frac, 0) * 1000 + fraction_digit(frac, 1) * 100 + fraction_digit(frac, 2) * 10
        + fraction_digit(frac, 3)
}

/// Ticks of unsigned decimal text, `None` where the text is malformed.
pub open spec fn magnitude_of(body: Seq<char>) -> Option<int> {
    let dot = first_index_of(body, '.');
    let whole = body.subrange(0, dot);
    let frac = if dot < body.len() {
        body.subrange(dot + 1, body.len() as int)
    } else {
        Seq::empty()
    };
    if all_digits(whole) && all_digits(frac) && whole.len() + frac.len() > 0 {
        Some(digits_value(whole) * TICKS_PER_UNIT + fraction_ticks(frac))
    } else {
        None
    }
}

/// Ticks of signed decimal text, `None` where the text is malformed.
pub open spec fn decimal_of(s: Seq<char>) -> Option<int> {
    if s.len() > 0 && s[0] == '-' {
        match magnitude_of(s.subrange(1, s.len() as int)) {
            Some(m) => Some(-m),
            None => None,
        }
    } else if s.len() > 0 && s[0] == '+' {
        magnitude_of(s.subrange(1, s.len() as int))
    } else {
        magnitude_of(s)
    }
}

/// The price that a text field stands for: its decimal value in ticks, and 0
/// for text that is malformed or out of range.
pub open spec fn ticks_of_text(s: Seq<char>) -> int {
    match decimal_of(s) {
        Some(v) => if i64::MIN <= v <= i64::MAX {
            v
        } else {
            0
        },
        None => 0,
    }
}

/// `x` held to the range of `i64`.
pub open spec fn clip(x: int) -> int {
    if x < i64::MIN {
        i64::MIN as int
    } else if x > i64::MAX {
        i64::MAX as int
    } else {
        x
    }
}

/// `x` as an `i64`, held to its range.
pub fn clip_to_i64(x: i128) -> (c: i64)
    ensures
        c == clip(x as int),
{
    if x < i64::MIN as i128 {
        i64::MIN
    } else if x > i64::MAX as i128 {
        i64::MAX
    } else {
        x as i64
    }
}

/// `a` divided by a positive `b`, rounded down.
pub fn floor_div(a: i128, b: i128) -> (q: i128)
    requires
        b > 0,
    ensures
        q == (a as int) / (b as int),
{
    let quotient: i128 = a / b;
    let remainder: i128 = a % b;
    assert(a == quotient * b + remainder && -b < remainder < b) by (nonlinear_arith)
        requires
            b >= 1,
            a >= 0 ==> quotient == (a as int) / (b as int) && remainder == (a as int) % (
            b as int),
            a < 0 ==> quotient == -((-(a as int)) / (b as int)) && remainder == -((-(a as int))
                % (b as int)),
    ;
    if remainder < 0 {
        assert((a as int) / (b as int) == quotient - 1) by (nonlinear_arith)
            requires
                a == quotient * b + remainder,
                -b < remainder < 0,
                b >= 1,
        ;
        assert(quotient - 1 >= i128::MIN) by (nonlinear_arith)
            requires
                a == quotient * b + remainder,
                -b < remainder < 0,
                b >= 1,
                a >= i128::MIN,
        ;
        quotient - 1
    } else {
        assert((a as int) / (b as int) == quotient) by (nonlinear_arith)
            requires
                a == quotient * b + remainder,
                0 <= remainder < b,
                b >= 1,
        ;
        quotient
    }
}

/// A run of digits writes a number that is at least the number its first
/// `k` digits write.
pub proof fn lemma_digits_value_prefix(s: Seq<char>, k: int)
    requires
        all_digits(s),
        0 <= k <= s.len(),
    ensures
        0 <= digits_value(s.take(k)) <= digits_value(s),
    decreases s.len(),
{
    if s.len() > 0 && k == s.len() {
        assert(s.take(k) =~= s);
        lemma_digits_value_prefix(s.drop_last(), k - 1);
    } else if s.len() > 0 {
        let front = s.drop_last();
        assert(front.take(k) =~= s.take(k));
        lemma_digits_value_prefix(front, k);
    }
}

/// The value of `c` as a decimal digit.
pub fn digit_of(c: char) -> (d: Option<u64>)
    ensures
        d is Some == is_digit(c),
        d matches Some(v) ==> v == digit_value(c),
{
    let code: u32 = c as u32;
    if 48 <= code && code <= 57 {
        Some((code - 48) as u64)
    } else {
        None
    }
}

/// Whether `chars[from..to]` holds digits only.
fn digits_only(chars: &Vec<char>, from: usize, to: usize) -> (ok: bool)
    requires
        from <= to <= chars.len(),
    ensures
        ok == all_digits(chars@.subrange(from as int, to as int)),
{
    let ghost run = chars@.subrange(from as int, to as int);
    let mut i: usize = from;
    while i < to
        invariant
            from <= i <= to <= chars.len(),
            run == chars@.subrange(from as int, to as int),
            forall|j: int| 0 <= j < i - from ==> is_digit(#[trigger] run[j]),
        decreases to - i,
    {
        if digit_of(chars[i]).is_none() {
            assert(!is_digit(run[i - from]));
            return false;
        }
        i += 1;
    }
    true
}

/// The `k`-th digit of the run that starts at `from`, 0 past the end.
fn fraction_digit_at(chars: &Vec<char>, from: usize, k: usize) -> (d: u64)
    requires
        from <= chars.len(),
        k < 4,
        all_digits(chars@.subrange(from as int, chars.len() as int)),
    ensures
        d == fraction_digit(chars@.subrange(from as int, chars.len() as int), k as int),
        d <= 9,
{
    if k < chars.len() - from {
        match digit_of(chars[from + k]) {
            Some(d) => d,
            None => 0,
        }
    } else {
        0
    }
}

/// Reads unsigned decimal text from `chars[from..]`: its ticks where the
/// text is well formed and they do not exceed `2^63`.
fn parse_magnitude(chars: &Vec<char>, from: usize) -> (m: Option<u64>)
    requires
        from <= chars.len(),
    ensures
        match magnitude_of(chars@.subrange(from as int, chars.len() as int)) {
            Some(v) => 0 <= v && m == if v <= MAGNITUDE_LIMIT {
                Some(v as u64)
            } else {
                None
            },
            None => m is None,
        },
{
    let n: usize = chars.len();
    let ghost body = chars@.subrange(from as int, n as int);
    let mut dot: usize = from;
    while dot < n && chars[dot] != '.'
        invariant
            from <= dot <= n == chars.len(),
            forall|j: int| from <= j < dot ==> chars[j] != '.',
        decreases n - dot,
    {
        dot += 1;
    }
    let ghost whole = body.subrange(0, dot - from);
    let ghost frac = if dot < n {
        body.subrange(dot - from + 1, body.len() as int)
    } else {
        Seq::empty()
    };
    let frac_from: usize = if dot < n {
        dot + 1
    } else {
        n
    };
    proof {
        lemma_first_index_of(body, '.', dot - from);
        assert(whole =~= chars@.subrange(from as int, dot as int));
        assert(frac =~= chars@.subrange(frac_from as int, n as int));
    }
    if !digits_only(chars, from, dot) || !digits_only(chars, frac_from, n) {
        return None;
    }
    if dot - from + (n - frac_from) == 0 {
        return None;
    }
    let ghost value = digits_value(whole) * TICKS_PER_UNIT + fraction_ticks(frac);
    proof {
        lemma_digits_value_prefix(whole, 0);
    }
    let mut acc: u64 = 0;
    let mut i: usize = from;
    while i < dot
        invariant
            from <= i <= dot <= n == chars.len(),
            whole == chars@.subrange(from as int, dot as int),
            all_digits(whole),
            acc == digits_value(whole.take(i - from)),
            acc <= WHOLE_LIMIT,
            value == digits_value(whole) * TICKS_PER_UNIT + fraction_ticks(frac),
            fraction_ticks(frac) >= 0,
            magnitude_of(chars@.subrange(from as int, n as int)) == Some(value),
        decreases dot - i,
    {
        let d: u64 = match digit_of(chars[i]) {
            Some(d) => d,
            None => 0,
        };
        proof {
            let next = whole.take(i - from + 1);
            assert(next.drop_last() =~= whole.take(i - from));
            lemma_digits_value_prefix(whole, i - from + 1);
        }
        if acc * 10 + d > WHOLE_LIMIT {
            return None;
        }
        acc = acc * 10 + d;
        i += 1;
    }
    assert(whole.take(dot - from) =~= whole);
    let d0: u64 = fraction_digit_at(chars, frac_from, 0);
    let d1: u64 = fraction_digit_at(chars, frac_from, 1);
    let d2: u64 = fraction_digit_at(chars, frac_from, 2);
    let d3: u64 = fraction_digit_at(chars, frac_from, 3);
    let total: u64 = acc * 10_000 + (d0 * 1000 + d1 * 100 + d2 * 10 + d3);
    if total <= MAGNITUDE_LIMIT {
        Some(total)
    } else {
        None
    }
}

/// Reads a price from a text field: the decimal value in ticks, and 0 where
/// the text is malformed or its value is out of range.
pub fn parse_ticks(text: &str) -> (ticks: i64)
    ensures
        ticks == ticks_of_text(text@),
{
    let chars = to_chars(text);
    let n: usize = chars.len();
    let negative: bool = n > 0 && chars[0] == '-';
    let signed: bool = negative || (n > 0 && chars[0] == '+');
    let from: usize = if signed {
        1
    } else {
        0
    };
    assert(chars@.subrange(0, n as int) =~= chars@);
    match parse_magnitude(&chars, from) {
        Some(m) => {
            if negative {
                if m == MAGNITUDE_LIMIT {
                    i64::MIN
                } else {
                    -(m as i64)
                }
            } else if m < MAGNITUDE_LIMIT {
                m as i64
            } else {
                0
            }
        },
        None => 0,
    }
}

} // verus!
