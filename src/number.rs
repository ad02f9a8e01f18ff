//! Decimal integers in the syntax that Rust's `FromStr` for integers accepts:
//! an optional `+` (or `-`, for a signed type), then one or more ASCII digits,
//! with nothing around them.
use vstd::prelude::*;

verus! {

pub open spec fn is_digit(c: char) -> bool {
    '0' <= c && c <= '9'
}

pub open spec fn digit_value(c: char) -> int {
    (c as u32) as int - ('0' as u32) as int
}

/// The number that a run of decimal digits denotes.
pub open spec fn digits_value(s: Seq<char>) -> int
    decreases s.len(),
{
    if s.len() == 0 {
        0
    } else {
        digits_value(s.drop_last()) * 10 + digit_value(s.last())
    }
}

pub open spec fn all_digits(s: Seq<char>) -> bool {
    s.len() > 0 && forall|i: int| 0 <= i < s.len() ==> is_digit(#[trigger] s[i])
}

/// The integer that `s` spells, if it is one; a `-` sign only where `signed`.
pub open spec fn decimal_value(s: Seq<char>, signed: bool) -> Option<int> {
    if s.len() > 0 && s[0] == '+' {
        if all_digits(s.drop_first()) {
            Some(digits_value(s.drop_first()))
        } else {
            None
        }
    } else if signed && s.len() > 0 && s[0] == '-' {
        if all_digits(s.drop_first()) {
            Some(-digits_value(s.drop_first()))
        } else {
            None
        }
    } else if all_digits(s) {
        Some(digits_value(s))
    } else {
        None
    }
}

/// The integer that `s` spells, if it is one and lies within `lo ..= hi`.
pub open spec fn parse_int(s: Seq<char>, signed: bool, lo: int, hi: int) -> Option<int> {
    match decimal_value(s, signed) {
        Some(v) => if lo <= v && v <= hi { Some(v) } else { None },
        None => None,
    }
}

/// The decimal text of `v`, without leading zeros, with `-` before a negative value.
pub open spec fn decimal_text(v: int) -> Seq<char>
    decreases (if v < 0 { -v } else { v }),
{
    if v < 0 {
        seq!['-'] + digits_text(-v)
    } else {
        digits_text(v)
    }
}

pub open spec fn digits_text(v: int) -> Seq<char>
    decreases v,
{
    if v <= 9 {
        seq![char_of_digit(v)]
    } else {
        digits_text(v / 10).push(char_of_digit(v % 10))
    }
}

pub open spec fn char_of_digit(d: int) -> char {
    if d == 0 { '0' } else if d == 1 { '1' } else if d == 2 { '2' } else if d == 3 { '3' }
    else if d == 4 { '4' } else if d == 5 { '5' } else if d == 6 { '6' } else if d == 7 { '7' }
    else if d == 8 { '8' } else { '9' }
}

proof fn lemma_char_of_digit(d: int)
    requires
        0 <= d <= 9,
    ensures
        is_digit(char_of_digit(d)),
        digit_value(char_of_digit(d)) == d,
{
    assert(('0' as u32) == 48u32);
    assert(('9' as u32) == 57u32);
    assert(('5' as u32) == 53u32);
    assert(('1' as u32) == 49u32 && ('2' as u32) == 50u32 && ('3' as u32) == 51u32 && ('4' as u32) == 52u32);
    assert(('6' as u32) == 54u32 && ('7' as u32) == 55u32 && ('8' as u32) == 56u32);
}

proof fn lemma_digits_text(v: int)
    requires
        v >= 0,
    ensures
        all_digits(digits_text(v)),
        digits_value(digits_text(v)) == v,
    decreases v,
{
    if v <= 9 {
        lemma_char_of_digit(v);
        let t = digits_text(v);
        assert(t.drop_last() =~= Seq::<char>::empty());
        assert(digits_value(t.drop_last()) == 0);
        assert(t.last() == char_of_digit(v));
        assert(digits_value(t) == digits_value(t.drop_last()) * 10 + digit_value(t.last()));
    } else {
        lemma_char_of_digit(v % 10);
        lemma_digits_text(v / 10);
        let t = digits_text(v);
        let h = digits_text(v / 10);
        assert(t.drop_last() =~= h);
        assert forall|i: int| 0 <= i < t.len() implies is_digit(#[trigger] t[i]) by {
            if i < h.len() {
                assert(t[i] == h[i]);
            }
        }
        assert(t.last() == char_of_digit(v % 10));
        assert(digits_value(t) == digits_value(h) * 10 + digit_value(t.last()));
        assert(v == (v / 10) * 10 + v % 10);
    }
}

/// The decimal text of an integer reads back as that integer.
pub proof fn lemma_decimal_round_trip(v: int, signed: bool)
    requires
        signed || v >= 0,
    ensures
        decimal_value(decimal_text(v), signed) == Some(v),
        decimal_text(v).len() > 0,
        forall|i: int| 0 <= i < decimal_text(v).len() ==> #[trigger] decimal_text(v)[i] != ',',
{
    if v < 0 {
        lemma_digits_text(-v);
        let t = decimal_text(v);
        assert(t.drop_first() =~= digits_text(-v));
        assert forall|i: int| 0 <= i < t.len() implies #[trigger] t[i] != ',' by {
            if i > 0 {
                assert(t[i] == digits_text(-v)[i - 1]);
                assert(is_digit(digits_text(-v)[i - 1]));
            }
        }
    } else {
        lemma_digits_text(v);
        let t = decimal_text(v);
        assert(is_digit(t[0]));
        assert forall|i: int| 0 <= i < t.len() implies #[trigger] t[i] != ',' by {
            assert(is_digit(t[i]));
        }
    }
}

proof fn lemma_digits_nonneg(s: Seq<char>)
    requires
        forall|i: int| 0 <= i < s.len() ==> is_digit(#[trigger] s[i]),
    ensures
        digits_value(s) >= 0,
    decreases s.len(),
{
    if s.len() > 0 {
        let t = s.drop_last();
        assert forall|i: int| 0 <= i < t.len() implies is_digit(#[trigger] t[i]) by { assert(t[i] == s[i]); }
        lemma_digits_nonneg(t);
        assert(is_digit(s[s.len() - 1]));
    }
}

/// A prefix of a run of digits denotes no more than the whole run.
proof fn lemma_digits_prefix_le(s: Seq<char>, k: int)
    requires
        forall|i: int| 0 <= i < s.len() ==> is_digit(#[trigger] s[i]),
        0 <= k <= s.len(),
    ensures
        digits_value(s.subrange(0, k)) <= digits_value(s),
    decreases s.len(),
{
    if k == s.len() {
        assert(s.subrange(0, k) =~= s);
    } else {
        let t = s.drop_last();
        assert forall|i: int| 0 <= i < t.len() implies is_digit(#[trigger] t[i]) by { assert(t[i] == s[i]); }
        lemma_digits_prefix_le(t, k);
        lemma_digits_nonneg(t);
        assert(t.subrange(0, k) =~= s.subrange(0, k));
        assert(is_digit(s[s.len() - 1]));
    }
}

/// The digits of `s` from `start` on, with `neg` telling whether a `-` came
/// before them, if their value is at most `max_neg` (after a `-`) or
/// `max_pos` (otherwise).
pub fn parse_decimal(s: &str, signed: bool, max_pos: u128, max_neg: u128) -> (r: Option<(bool, u128)>)
    ensures
        match r {
            Some((neg, m)) => {
                &&& decimal_value(s@, signed) == Some(if neg { -(m as int) } else { m as int })
                &&& (neg ==> signed && m <= max_neg)
                &&& (!neg ==> m <= max_pos)
            },
            None => match decimal_value(s@, signed) {
                Some(v) => v < -(max_neg as int) || v > max_pos as int,
                None => true,
            },
        },
{
    let n = s.unicode_len();
    let mut start: usize = 0;
    let mut neg = false;
    if n > 0 {
        let c0 = s.get_char(0);
        if c0 == '+' {
            start = 1;
        } else if signed && c0 == '-' {
            start = 1;
            neg = true;
        }
    }
    let ghost body = s@.subrange(start as int, n as int);
    proof {
        if start == 1 {
            assert(body =~= s@.drop_first());
        } else {
            assert(body =~= s@);
        }
    }
    assert(decimal_value(s@, signed) == if all_digits(body) {
        Some(if neg { -digits_value(body) } else { digits_value(body) })
    } else {
        None::<int>
    });
    if start == n {
        return None;
    }
    let limit: u128 = if neg { max_neg } else { max_pos };
    let mut acc: u128 = 0;
    let mut i: usize = start;
    assert(body.subrange(0, 0) =~= Seq::<char>::empty());
    while i < n
        invariant
            n == s@.len(),
            start < n,
            start <= i <= n,
            body == s@.subrange(start as int, n as int),
            decimal_value(s@, signed) == if all_digits(body) {
                Some(if neg { -digits_value(body) } else { digits_value(body) })
            } else {
                None::<int>
            },
            neg ==> signed,
            limit == if neg { max_neg } else { max_pos },
            acc <= limit,
            acc as int == digits_value(body.subrange(0, i - start)),
            forall|j: int| 0 <= j < i - start ==> is_digit(#[trigger] body[j]),
        decreases n - i,
    {
        let c = s.get_char(i);
        assert(body[i - start] == c);
        if !('0' <= c && c <= '9') {
            assert(!is_digit(body[i - start]));
            assert(!all_digits(body));
            return None;
        }
        let d: u128 = ((c as u32) - ('0' as u32)) as u128;
        let ghost next = body.subrange(0, i + 1 - start);
        assert(next.drop_last() =~= body.subrange(0, i - start));
        assert(next.last() == c);
        assert(digits_value(next) == acc * 10 + d);
        if d > limit || acc > (limit - d) / 10 {
            proof {
                assert(acc * 10 + d > limit) by (nonlinear_arith)
                    requires d > limit || acc > (limit - d) / 10, acc >= 0, d >= 0;
                if all_digits(body) {
                    lemma_digits_prefix_le(body, i + 1 - start);
                    assert(digits_value(body) > limit);
                }
            }
            return None;
        }
        assert(acc * 10 + d <= limit) by (nonlinear_arith)
            requires d <= limit, acc <= (limit - d) / 10;
        acc = acc * 10 + d;
        i = i + 1;
    }
    assert(body.subrange(0, n - start) =~= body);
    Some((neg, acc))
}

} // verus!
