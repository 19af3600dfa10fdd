//! Integers read from the text that serde_json writes for a number.
//!
//! serde_json writes an integer as optional `-` and decimal digits, and any
//! other number with a fraction or an exponent, so the integers are exactly
//! the texts that [`int_literal`] accepts.
use vstd::prelude::*;

verus! {

pub open spec fn is_digit(c: char) -> bool {
    '0' <= c && c <= '9'
}

pub open spec fn all_digits(s: Seq<char>) -> bool {
    s.len() > 0 && forall|i: int| 0 <= i < s.len() ==> is_digit(#[trigger] s[i])
}

pub open spec fn digit_value(c: char) -> int {
    (c as u32) as int - ('0' as u32) as int
}

/// The value of a run of decimal digits.
pub open spec fn digits_value(s: Seq<char>) -> int
    decreases s.len(),
{
    if s.len() == 0 {
        0
    } else {
        digits_value(s.drop_last()) * 10 + digit_value(s.last())
    }
}

/// The integer that `t` writes, if it is an integer literal.
pub open spec fn int_literal(t: Seq<char>) -> Option<int> {
    if all_digits(t) {
        Some(digits_value(t))
    } else if t.len() > 1 && t[0] == '-' && all_digits(t.drop_first()) {
        Some(-digits_value(t.drop_first()))
    } else {
        None
    }
}

/// The integer that `t` writes, when it is an integer literal within `i64`.
pub open spec fn i64_literal(t: Seq<char>) -> Option<i64> {
    match int_literal(t) {
        Some(n) => if i64::MIN <= n <= i64::MAX {
            Some(n as i64)
        } else {
            None
        },
        None => None,
    }
}

proof fn lemma_digits_grow(s: Seq<char>, k: int)
    requires
        0 <= k <= s.len(),
        forall|i: int| 0 <= i < s.len() ==> is_digit(#[trigger] s[i]),
    ensures
        digits_value(s.take(k)) <= digits_value(s),
        0 <= digits_value(s.take(k)),
    decreases s.len() - k,
{
    if k < s.len() {
        lemma_digits_grow(s, k + 1);
        assert(s.take(k + 1).drop_last() =~= s.take(k));
        assert(is_digit(s[k]));
    } else {
        assert(s.take(k) =~= s);
        lemma_digits_nonneg(s);
    }
}

proof fn lemma_digits_nonneg(s: Seq<char>)
    requires
        forall|i: int| 0 <= i < s.len() ==> is_digit(#[trigger] s[i]),
    ensures
        0 <= digits_value(s),
    decreases s.len(),
{
    if s.len() > 0 {
        assert(is_digit(s[s.len() - 1]));
        lemma_digits_nonneg(s.drop_last());
    }
}

/// Reads `t` as an integer literal that fits in `i64`.
pub fn parse_i64(t: &str) -> (r: Option<i64>)
    ensures
        r == i64_literal(t@),
{
    let n = t.unicode_len();
    let negative = n > 1 && t.get_char(0) == '-';
    let start: usize = if negative { 1 } else { 0 };
    if n == start {
        return None;
    }
    let ghost ds = t@.subrange(start as int, n as int);
    assert(negative ==> ds =~= t@.drop_first());
    assert(!negative ==> ds =~= t@);
    let limit: u64 = 9223372036854775808;
    let mut mag: u64 = 0;
    let mut i: usize = start;
    while i < n
        invariant
            start <= i <= n,
            n == t@.len(),
            ds == t@.subrange(start as int, n as int),
            forall|j: int| 0 <= j < i - start ==> is_digit(#[trigger] ds[j]),
            mag as int == digits_value(ds.take(i - start)),
            mag <= limit,
            limit == 9223372036854775808u64,
            negative ==> start == 1 && t@[0] == '-' && ds == t@.drop_first(),
            !negative ==> start == 0 && ds == t@ && !(n > 1 && t@[0] == '-'),
        decreases n - i,
    {
        let c = t.get_char(i);
        if !('0' <= c && c <= '9') {
            proof {
                assert(ds[i - start] == c);
                assert(!is_digit(ds[i - start]));
                if negative {
                    assert(!is_digit(t@[0]));
                }
            }
            return None;
        }
        let d = (c as u32 - '0' as u32) as u64;
        assert(ds.take(i - start + 1).drop_last() =~= ds.take(i - start));
        if mag > (limit - d) / 10 {
            proof {
                assert(mag as int * 10 + d > limit) by (nonlinear_arith)
                    requires
                        mag > (limit - d) / 10,
                        d <= 9,
                        limit == 9223372036854775808u64,
                ;
                if all_digits(ds) {
                    lemma_digits_grow(ds, i - start + 1);
                }
                if negative {
                    assert(!is_digit(t@[0]));
                }
            }
            return None;
        }
        assert(mag as int * 10 + d <= limit) by (nonlinear_arith)
            requires
                mag <= (limit - d) / 10,
                d <= 9,
        ;
        mag = mag * 10 + d;
        i = i + 1;
    }
    assert(ds.take(n - start) =~= ds);
    if negative {
        Some((0 - (mag as i128)) as i64)
    } else if mag <= 9223372036854775807 {
        Some(mag as i64)
    } else {
        None
    }
}

} // verus!
