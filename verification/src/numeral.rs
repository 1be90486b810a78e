//! The library's grammar of numeric strings.
//!
//! Attribute values of the number kind carry their decimal value as a
//! string, preserving precision until a boundary explicitly parses it. A
//! numeric string is an optional sign, then digits with at most one decimal
//! point and at least one digit, then an optional exponent part: `e` or
//! `E`, an optional sign, and digits. The grammar bounds the magnitude so
//! that the value stays finite when a boundary parses it into a 64-bit
//! binary value: the integer part holds at most [`MAX_MAGNITUDE`] digits,
//! and a non-negative exponent, read from at most three digits, must keep
//! integer digits plus exponent within [`MAX_MAGNITUDE`]. The bound is
//! conservative: a few extreme finite spellings (very long runs of leading
//! zeros, exponents written with more than three digits) are rejected along
//! with the infinite ones, and so are the non-numeric spellings of infinity
//! and of the not-a-number value.

use vstd::prelude::*;

verus! {

/// The largest decimal magnitude the grammar admits.
pub const MAX_MAGNITUDE: usize = 308;

/// `c` is a decimal digit.
pub open spec fn is_digit(c: char) -> bool {
    '0' <= c && c <= '9'
}

/// `c` opens an exponent part.
pub open spec fn is_exp_marker(c: char) -> bool {
    c == 'e' || c == 'E'
}

/// The characters after the optional leading sign.
pub open spec fn numeral_body(s: Seq<char>) -> Seq<char> {
    if s.len() > 0 && (s[0] == '-' || s[0] == '+') {
        s.drop_first()
    } else {
        s
    }
}

/// Digits with at most one decimal point and at least one digit.
pub open spec fn is_plain_decimal(t: Seq<char>) -> bool {
    &&& t.len() > 0
    &&& forall|i: int| 0 <= i < t.len() ==> is_digit(#[trigger] t[i]) || t[i] == '.'
    &&& forall|i: int, j: int|
        0 <= i < t.len() && 0 <= j < t.len() && #[trigger] t[i] == '.' && #[trigger] t[j] == '.'
            ==> i == j
    &&& exists|i: int| 0 <= i < t.len() && is_digit(#[trigger] t[i])
}

/// A mantissa: an optional sign and a plain decimal.
pub open spec fn is_mantissa(t: Seq<char>) -> bool {
    is_plain_decimal(numeral_body(t))
}

/// How many characters stand before the first decimal point: the length
/// of the integer part when `t` is a plain decimal.
pub open spec fn integer_digits(t: Seq<char>) -> int
    decreases t.len(),
{
    if t.len() == 0 {
        0
    } else if t[0] == '.' {
        0
    } else {
        1 + integer_digits(t.drop_first())
    }
}

/// The number a digit sequence denotes.
pub open spec fn digits_value(t: Seq<char>) -> int
    decreases t.len(),
{
    if t.len() == 0 {
        0
    } else {
        digits_value(t.drop_last()) * 10 + (t.last() as int - '0' as int)
    }
}

/// A non-empty digit sequence.
pub open spec fn is_digit_seq(t: Seq<char>) -> bool {
    t.len() > 0 && forall|i: int| 0 <= i < t.len() ==> is_digit(#[trigger] t[i])
}

/// `e` is a valid exponent part for a mantissa with `ip` integer digits.
/// A negative exponent only shrinks the value, so only the mantissa's own
/// bound remains; a non-negative exponent is read from at most three
/// digits and must keep the combined magnitude within the bound.
pub open spec fn exponent_ok(e: Seq<char>, ip: int) -> bool {
    if e.len() > 0 && e[0] == '-' {
        is_digit_seq(e.drop_first()) && ip <= MAX_MAGNITUDE
    } else {
        let d = if e.len() > 0 && e[0] == '+' {
            e.drop_first()
        } else {
            e
        };
        &&& is_digit_seq(d)
        &&& d.len() <= 3
        &&& ip + digits_value(d) <= MAX_MAGNITUDE
    }
}

/// The characters before the marker at `k` form a bounded mantissa and
/// those after it a valid exponent for it.
pub open spec fn split_number_ok(s: Seq<char>, k: int) -> bool {
    &&& 0 <= k < s.len()
    &&& is_exp_marker(s[k])
    &&& is_mantissa(s.subrange(0, k))
    &&& exponent_ok(
        s.subrange(k + 1, s.len() as int),
        integer_digits(numeral_body(s.subrange(0, k))),
    )
}

/// A numeric string: a bounded mantissa alone, or a mantissa and an
/// exponent split at the exponent marker.
pub open spec fn is_number_string(s: Seq<char>) -> bool {
    if forall|j: int| 0 <= j < s.len() ==> !is_exp_marker(#[trigger] s[j]) {
        is_mantissa(s) && integer_digits(numeral_body(s)) <= MAX_MAGNITUDE
    } else {
        exists|k: int| split_number_ok(s, k)
    }
}

/// When `t` has no point before `d`, and a point at `d` if anywhere, its
/// integer part is exactly `d` characters long.
proof fn lemma_integer_digits(t: Seq<char>, d: int)
    requires
        0 <= d <= t.len(),
        forall|j: int| 0 <= j < d ==> #[trigger] t[j] != '.',
        d < t.len() ==> t[d] == '.',
    ensures
        integer_digits(t) == d,
    decreases d,
{
    if d > 0 {
        lemma_integer_digits(t.drop_first(), d - 1);
    }
}

/// Small digit sequences denote small numbers.
proof fn lemma_digits_value_bounds(t: Seq<char>)
    requires
        forall|i: int| 0 <= i < t.len() ==> is_digit(#[trigger] t[i]),
    ensures
        0 <= digits_value(t),
        t.len() <= 1 ==> digits_value(t) <= 9,
        t.len() <= 2 ==> digits_value(t) <= 99,
        t.len() <= 3 ==> digits_value(t) <= 999,
    decreases t.len(),
{
    if t.len() > 0 {
        lemma_digits_value_bounds(t.drop_last());
    }
}

/// Once the first marker's split is invalid, no split is valid: any later
/// marker would leave the first one inside the mantissa.
proof fn lemma_no_valid_split(s: Seq<char>, f: int)
    requires
        0 <= f < s.len(),
        is_exp_marker(s[f]),
        forall|j: int| 0 <= j < f ==> !is_exp_marker(#[trigger] s[j]),
        !split_number_ok(s, f),
    ensures
        forall|k: int| !split_number_ok(s, k),
{
    assert forall|k: int| !split_number_ok(s, k) by {
        if 0 <= k < s.len() && is_exp_marker(s[k]) && k != f {
            assert(k > f);
            let m = s.subrange(0, k);
            let body = numeral_body(m);
            if m.len() > 0 && (m[0] == '-' || m[0] == '+') {
                assert(f >= 1);
                assert(body[f - 1] == s[f]);
                assert(!(is_digit(body[f - 1]) || body[f - 1] == '.'));
            } else {
                assert(body[f] == s[f]);
                assert(!(is_digit(body[f]) || body[f] == '.'));
            }
        }
    }
}

/// Decide whether the characters of `s` between `lo` and `hi` form a
/// mantissa, and how long its integer part is.
#[verifier::loop_isolation(false)]
fn check_mantissa(s: &str, lo: usize, hi: usize) -> (r: (bool, usize))
    requires
        lo <= hi <= s@.len(),
    ensures
        r.0 == is_mantissa(s@.subrange(lo as int, hi as int)),
        r.0 ==> r.1 == integer_digits(numeral_body(s@.subrange(lo as int, hi as int))),
{
    let ghost m = s@.subrange(lo as int, hi as int);
    let start: usize = if lo < hi {
        let c0 = s.get_char(lo);
        proof {
            assert(m[0] == s@[lo as int]);
        }
        if c0 == '-' || c0 == '+' {
            lo + 1
        } else {
            lo
        }
    } else {
        lo
    };
    let ghost t = numeral_body(m);
    proof {
        assert(t =~= s@.subrange(start as int, hi as int));
    }
    if start == hi {
        return (false, 0);
    }
    let mut i: usize = start;
    let mut seen_dot = false;
    let mut seen_digit = false;
    let mut dot_at: usize = hi;
    while i < hi
        invariant
            start <= i <= hi,
            t == numeral_body(m),
            t =~= s@.subrange(start as int, hi as int),
            t.len() == hi - start,
            t.len() > 0,
            forall|k: int| 0 <= k < i - start ==> is_digit(#[trigger] t[k]) || t[k] == '.',
            seen_dot ==> start <= dot_at < i && t[dot_at - start] == '.',
            seen_dot ==> forall|k: int|
                0 <= k < i - start && #[trigger] t[k] == '.' ==> k == dot_at - start,
            !seen_dot ==> forall|k: int| 0 <= k < i - start ==> #[trigger] t[k] != '.',
            seen_digit <==> exists|k: int| 0 <= k < i - start && is_digit(#[trigger] t[k]),
        decreases hi - i,
    {
        let c = s.get_char(i);
        proof {
            assert(t[i - start] == s@[i as int]);
        }
        if c == '.' {
            if seen_dot {
                return (false, 0);
            }
            seen_dot = true;
            dot_at = i;
        } else if '0' <= c && c <= '9' {
            seen_digit = true;
        } else {
            return (false, 0);
        }
        i += 1;
    }
    if !seen_digit {
        return (false, 0);
    }
    let ip = if seen_dot {
        dot_at - start
    } else {
        hi - start
    };
    proof {
        lemma_integer_digits(t, ip as int);
    }
    (true, ip)
}

/// Decide whether the characters of `s` between `lo` and `hi` form a valid
/// exponent part for a mantissa with `ip` integer digits.
#[verifier::loop_isolation(false)]
fn check_exponent(s: &str, lo: usize, hi: usize, ip: usize) -> (b: bool)
    requires
        lo <= hi <= s@.len(),
    ensures
        b == exponent_ok(s@.subrange(lo as int, hi as int), ip as int),
{
    let ghost e = s@.subrange(lo as int, hi as int);
    if lo == hi {
        return false;
    }
    let c0 = s.get_char(lo);
    proof {
        assert(e[0] == s@[lo as int]);
    }
    if c0 == '-' {
        let ghost d = e.drop_first();
        proof {
            assert(d =~= s@.subrange(lo + 1, hi as int));
        }
        if lo + 1 == hi {
            return false;
        }
        let mut i: usize = lo + 1;
        while i < hi
            invariant
                lo + 1 <= i <= hi,
                d =~= s@.subrange(lo + 1, hi as int),
                d.len() == hi - lo - 1,
                forall|k: int| 0 <= k < i - lo - 1 ==> is_digit(#[trigger] d[k]),
            decreases hi - i,
        {
            let c = s.get_char(i);
            proof {
                assert(d[i - lo - 1] == s@[i as int]);
            }
            if !('0' <= c && c <= '9') {
                return false;
            }
            i += 1;
        }
        ip <= MAX_MAGNITUDE
    } else {
        let dstart: usize = if c0 == '+' {
            lo + 1
        } else {
            lo
        };
        let ghost d = e.subrange(dstart - lo, e.len() as int);
        proof {
            assert(d =~= s@.subrange(dstart as int, hi as int));
            if c0 == '+' {
                assert(d =~= e.drop_first());
            } else {
                assert(d =~= e);
            }
        }
        if dstart == hi {
            return false;
        }
        if hi - dstart > 3 {
            return false;
        }
        if ip > MAX_MAGNITUDE {
            proof {
                if is_digit_seq(d) {
                    lemma_digits_value_bounds(d);
                }
            }
            return false;
        }
        let mut val: usize = 0;
        let mut i: usize = dstart;
        while i < hi
            invariant
                dstart <= i <= hi,
                hi - dstart <= 3,
                d =~= s@.subrange(dstart as int, hi as int),
                d.len() == hi - dstart,
                forall|k: int| 0 <= k < i - dstart ==> is_digit(#[trigger] d[k]),
                val == digits_value(d.subrange(0, i - dstart)),
                val <= 999,
            decreases hi - i,
        {
            let c = s.get_char(i);
            proof {
                assert(d[i - dstart] == s@[i as int]);
                lemma_digits_value_bounds(d.subrange(0, i - dstart));
            }
            if !('0' <= c && c <= '9') {
                return false;
            }
            let digit = (c as u32 - '0' as u32) as usize;
            proof {
                assert(d.subrange(0, i + 1 - dstart).drop_last() =~= d.subrange(0, i - dstart));
                assert(d.subrange(0, i + 1 - dstart).last() == d[i - dstart]);
            }
            val = val * 10 + digit;
            i += 1;
        }
        proof {
            assert(d.subrange(0, d.len() as int) =~= d);
        }
        ip + val <= MAX_MAGNITUDE
    }
}

/// Decide whether `s` is a numeric string of the library's grammar.
#[verifier::loop_isolation(false)]
pub fn check_number_string(s: &str) -> (b: bool)
    ensures
        b == is_number_string(s@),
{
    let n = s.unicode_len();
    let mut marker: usize = n;
    let mut i: usize = 0;
    while i < n
        invariant
            0 <= i <= n,
            n == s@.len(),
            marker <= n,
            marker == n ==> forall|j: int| 0 <= j < i ==> !is_exp_marker(#[trigger] s@[j]),
            marker < n ==> marker < i && is_exp_marker(s@[marker as int]) && (forall|j: int|
                0 <= j < marker ==> !is_exp_marker(#[trigger] s@[j])),
        decreases n - i,
    {
        if marker == n {
            let c = s.get_char(i);
            if c == 'e' || c == 'E' {
                marker = i;
            }
        }
        i += 1;
    }
    if marker == n {
        let (ok, ip) = check_mantissa(s, 0, n);
        proof {
            assert(s@.subrange(0, n as int) =~= s@);
        }
        ok && ip <= MAX_MAGNITUDE
    } else {
        let (ok, ip) = check_mantissa(s, 0, marker);
        if !ok {
            proof {
                lemma_no_valid_split(s@, marker as int);
            }
            return false;
        }
        let eok = check_exponent(s, marker + 1, n, ip);
        proof {
            if eok {
                assert(split_number_ok(s@, marker as int));
            } else {
                lemma_no_valid_split(s@, marker as int);
            }
        }
        eok
    }
}

} // verus!
