//! Reading decimal integers the way `str::parse` does.
use vstd::prelude::*;

use crate::json::{decimal_digit, json_u32};

verus! {

/// An ASCII decimal digit.
pub open spec fn is_digit(c: char) -> bool {
    '0' <= c <= '9'
}

/// Every character is an ASCII decimal digit.
pub open spec fn all_digits(s: Seq<char>) -> bool {
    forall|i: int| 0 <= i < s.len() ==> is_digit(#[trigger] s[i])
}

/// The value of a digit character.
pub open spec fn digit_value(c: char) -> int {
    (c as u32) - ('0' as u32)
}

/// The value of a string of decimal digits (0 for the empty string).
pub open spec fn digits_value(s: Seq<char>) -> int
    decreases s.len(),
{
    if s.len() == 0 {
        0
    } else {
        digits_value(s.drop_last()) * 10 + digit_value(s.last())
    }
}

/// What `str::parse::<u32>` gives: an optional `+`, then at least one digit,
/// with a value that fits.
pub open spec fn parse_u32_spec(s: Seq<char>) -> Option<u32> {
    let body = if s.len() > 0 && s[0] == '+' {
        s.drop_first()
    } else {
        s
    };
    if body.len() > 0 && all_digits(body) && digits_value(body) <= u32::MAX {
        Some(digits_value(body) as u32)
    } else {
        None
    }
}

/// What `str::parse::<i32>` gives: an optional `+` or `-`, then at least one
/// digit, with a value that fits.
pub open spec fn parse_i32_spec(s: Seq<char>) -> Option<i32> {
    let neg = s.len() > 0 && s[0] == '-';
    let body = if s.len() > 0 && (s[0] == '+' || s[0] == '-') {
        s.drop_first()
    } else {
        s
    };
    if body.len() > 0 && all_digits(body) {
        let v = if neg {
            -digits_value(body)
        } else {
            digits_value(body)
        };
        if i32::MIN <= v <= i32::MAX {
            Some(v as i32)
        } else {
            None
        }
    } else {
        None
    }
}

proof fn lemma_digits_value_nonneg(s: Seq<char>)
    requires
        all_digits(s),
    ensures
        digits_value(s) >= 0,
    decreases s.len(),
{
    if s.len() > 0 {
        lemma_digits_value_nonneg(s.drop_last());
    }
}

proof fn lemma_digits_value_grows(s: Seq<char>, k: int)
    requires
        all_digits(s),
        0 <= k <= s.len(),
    ensures
        digits_value(s.take(k)) <= digits_value(s),
    decreases s.len() - k,
{
    if k < s.len() {
        lemma_digits_value_grows(s, k + 1);
        let t = s.take(k + 1);
        assert(t.drop_last() =~= s.take(k));
        lemma_digits_value_nonneg(s.take(k));
    } else {
        assert(s.take(k) =~= s);
    }
}

/// The value of the digits `v[from..]`, or `None` when it exceeds `limit`.
///
/// All of `v[from..]` are digits.
fn digits_value_capped(v: &Vec<char>, from: usize, limit: u64) -> (r: Option<u64>)
    requires
        from <= v.len(),
        all_digits(v@.skip(from as int)),
        limit <= u32::MAX + 1,
    ensures
        r is Some <==> digits_value(v@.skip(from as int)) <= limit,
        r matches Some(x) ==> x == digits_value(v@.skip(from as int)),
{
    let ghost s = v@.skip(from as int);
    let mut acc: u64 = 0;
    let mut i = from;
    while i < v.len()
        invariant
            from <= i <= v.len(),
            s == v@.skip(from as int),
            all_digits(s),
            limit <= u32::MAX + 1,
            acc == digits_value(s.take(i - from)),
            acc <= limit,
        decreases v.len() - i,
    {
        proof {
            assert(s[i - from] == v@[i as int]);
            assert(is_digit(s[i - from]));
            let t = s.take(i - from + 1);
            assert(t.drop_last() =~= s.take(i - from));
            assert(t.last() == v@[i as int]);
        }
        let d = (v[i] as u32 - '0' as u32) as u64;
        let next = acc * 10 + d;
        if next > limit {
            proof {
                lemma_digits_value_grows(s, i - from + 1);
            }
            return None;
        }
        acc = next;
        i = i + 1;
    }
    assert(s.take(i - from) =~= s);
    Some(acc)
}

/// Whether `v[from..]` are all digits.
fn all_digits_from(v: &Vec<char>, from: usize) -> (r: bool)
    requires
        from <= v.len(),
    ensures
        r == all_digits(v@.skip(from as int)),
{
    let mut i = from;
    while i < v.len()
        invariant
            from <= i <= v.len(),
            forall|j: int| from <= j < i ==> is_digit(#[trigger] v@[j]),
        decreases v.len() - i,
    {
        if !(v[i] >= '0' && v[i] <= '9') {
            assert(!is_digit(v@.skip(from as int)[i - from]));
            return false;
        }
        i = i + 1;
    }
    assert forall|j: int| 0 <= j < v@.skip(from as int).len() implies is_digit(
        #[trigger] v@.skip(from as int)[j],
    ) by {
        assert(v@.skip(from as int)[j] == v@[from + j]);
    }
    true
}

/// `str::parse::<u32>` on the characters of `v`.
pub fn parse_u32(v: &Vec<char>) -> (r: Option<u32>)
    ensures
        r == parse_u32_spec(v@),
{
    let from: usize = if v.len() > 0 && v[0] == '+' {
        1
    } else {
        0
    };
    assert(v@.skip(from as int) == (if v@.len() > 0 && v@[0] == '+' {
        v@.drop_first()
    } else {
        v@
    })) by {
        if from == 1 {
            assert(v@.skip(1) =~= v@.drop_first());
        } else {
            assert(v@.skip(0) =~= v@);
        }
    }
    if from >= v.len() || !all_digits_from(v, from) {
        return None;
    }
    match digits_value_capped(v, from, 4294967295) {
        Some(x) => Some(x as u32),
        None => None,
    }
}

/// `str::parse::<i32>` on the characters of `v`.
pub fn parse_i32(v: &Vec<char>) -> (r: Option<i32>)
    ensures
        r == parse_i32_spec(v@),
{
    let neg = v.len() > 0 && v[0] == '-';
    let from: usize = if v.len() > 0 && (v[0] == '+' || v[0] == '-') {
        1
    } else {
        0
    };
    assert(v@.skip(from as int) == (if v@.len() > 0 && (v@[0] == '+' || v@[0] == '-') {
        v@.drop_first()
    } else {
        v@
    })) by {
        if from == 1 {
            assert(v@.skip(1) =~= v@.drop_first());
        } else {
            assert(v@.skip(0) =~= v@);
        }
    }
    if from >= v.len() || !all_digits_from(v, from) {
        return None;
    }
    let limit: u64 = if neg {
        2147483648
    } else {
        2147483647
    };
    match digits_value_capped(v, from, limit) {
        Some(x) => {
            if neg {
                Some((-(x as i64)) as i32)
            } else {
                Some(x as i32)
            }
        },
        None => None,
    }
}

proof fn lemma_digits_value_push(s: Seq<char>, c: char)
    ensures
        digits_value(s.push(c)) == digits_value(s) * 10 + digit_value(c),
{
    assert(s.push(c).drop_last() =~= s);
}

/// The decimal writing of a number is a non-empty run of digits whose
/// value is the number.
pub proof fn lemma_decimal_writing(n: nat)
    ensures
        json_u32(n).len() > 0,
        all_digits(json_u32(n)),
        digits_value(json_u32(n)) == n,
    decreases n,
{
    if n < 10 {
        let c = decimal_digit(n);
        assert(c as u32 == 48 + n);
        assert(('0' as u32) == 48);
        assert(digit_value(c) == n);
        assert(json_u32(n) =~= seq![c]);
        assert(seq![c].drop_last() =~= Seq::<char>::empty());
        assert(seq![c].last() == c);
        assert(digits_value(Seq::<char>::empty()) == 0);
        assert(digits_value(seq![c]) == digit_value(c));
    } else {
        lemma_decimal_writing(n / 10);
        let c = decimal_digit(n % 10);
        assert(c as u32 == 48 + n % 10);
        assert(('0' as u32) == 48);
        assert(digit_value(c) == n % 10);
        let w = json_u32(n / 10);
        lemma_digits_value_push(w, c);
        assert(json_u32(n) == w.push(c));
        assert forall|i: int| 0 <= i < w.push(c).len() implies is_digit(#[trigger] w.push(c)[i]) by {
            if i < w.len() {
                assert(w.push(c)[i] == w[i]);
            }
        }
        assert((n / 10) * 10 + n % 10 == n) by (nonlinear_arith);
        assert(digits_value(json_u32(n)) == n);
    }
}

/// Reading back the decimal writing of a `u32` gives the number.
pub proof fn lemma_parse_u32_of_decimal(n: u32)
    ensures
        parse_u32_spec(json_u32(n as nat)) == Some(n),
{
    lemma_decimal_writing(n as nat);
    let w = json_u32(n as nat);
    assert(is_digit(w[0]));
}

/// Reading back the decimal writing of an `i32` (with `-` for negative
/// values) gives the number.
pub proof fn lemma_parse_i32_of_decimal(n: i32)
    ensures
        parse_i32_spec(crate::error::decimal_i32(n)) == Some(n),
{
    let m: nat = if n < 0 {
        (-(n as int)) as nat
    } else {
        n as nat
    };
    lemma_decimal_writing(m);
    let w = json_u32(m);
    assert(is_digit(w[0]));
    if n < 0 {
        let s = seq!['-'] + w;
        assert(s.drop_first() =~= w);
        assert(s[0] == '-');
    }
}

} // verus!
