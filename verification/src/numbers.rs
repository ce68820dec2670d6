//! Decimal integers in text, read the way `str::parse` reads them for the
//! primitive integer types.
use vstd::prelude::*;
use crate::text::chars_of;
use crate::time::{digit_value, is_digit};

verus! {

/// The value of a run of decimal digits (0 for none).
pub open spec fn digits_value(s: Seq<char>) -> nat
    decreases s.len(),
{
    if s.len() == 0 {
        0
    } else {
        digits_value(s.drop_last()) * 10 + digit_value(s.last()) as nat
    }
}

pub open spec fn all_digits(s: Seq<char>) -> bool {
    forall|i: int| 0 <= i < s.len() ==> is_digit(#[trigger] s[i])
}

/// The integer a text spells for a signed type: an optional `+` or `-`, then
/// one or more ASCII digits.
pub open spec fn signed_text_value(s: Seq<char>) -> Option<int> {
    let negative = s.len() > 0 && s[0] == '-';
    let body = if s.len() > 0 && (s[0] == '+' || s[0] == '-') { s.drop_first() } else { s };
    if body.len() > 0 && all_digits(body) {
        Some(if negative { -(digits_value(body) as int) } else { digits_value(body) as int })
    } else {
        None
    }
}

/// The integer a text spells for an unsigned type: an optional `+`, then one
/// or more ASCII digits.
pub open spec fn unsigned_text_value(s: Seq<char>) -> Option<nat> {
    let body = if s.len() > 0 && s[0] == '+' { s.drop_first() } else { s };
    if body.len() > 0 && all_digits(body) {
        Some(digits_value(body))
    } else {
        None
    }
}

/// What `s.parse::<i64>()` yields: the value when it is in range.
pub open spec fn i64_text(s: Seq<char>) -> Option<i64> {
    match signed_text_value(s) {
        Some(v) => if i64::MIN <= v <= i64::MAX { Some(v as i64) } else { None },
        None => None,
    }
}

/// What `s.parse::<i32>()` yields: the value when it is in range.
pub open spec fn i32_text(s: Seq<char>) -> Option<i32> {
    match signed_text_value(s) {
        Some(v) => if i32::MIN <= v <= i32::MAX { Some(v as i32) } else { None },
        None => None,
    }
}

/// What `s.parse::<usize>()` yields: the value when it is in range.
pub open spec fn usize_text(s: Seq<char>) -> Option<usize> {
    match unsigned_text_value(s) {
        Some(v) => if v <= usize::MAX { Some(v as usize) } else { None },
        None => None,
    }
}

/// Above every value the parsers accept; larger magnitudes are held at this
/// cap while the digits are read.
pub open spec fn magnitude_cap() -> nat {
    0x1_0000_0000_0000_0000
}

proof fn lemma_digits_grow(v: nat, d: nat)
    requires
        v >= magnitude_cap(),
    ensures
        v * 10 + d >= magnitude_cap(),
{
    assert(v * 10 >= v) by (nonlinear_arith);
}

/// Reads `v[from..]` as digits: whether all are digits, and their value held
/// at the cap.
fn digits_from(v: &Vec<char>, from: usize) -> (r: (bool, u128))
    requires
        from <= v.len(),
    ensures
        r.0 == all_digits(v@.subrange(from as int, v.len() as int)),
        r.0 ==> r.1 == if digits_value(v@.subrange(from as int, v.len() as int)) < magnitude_cap() {
            digits_value(v@.subrange(from as int, v.len() as int))
        } else {
            magnitude_cap()
        },
{
    let cap: u128 = 0x1_0000_0000_0000_0000;
    let mut acc: u128 = 0;
    let mut i: usize = from;
    let ghost body = v@.subrange(from as int, v.len() as int);
    while i < v.len()
        invariant
            from <= i <= v.len(),
            body == v@.subrange(from as int, v.len() as int),
            cap == magnitude_cap(),
            all_digits(v@.subrange(from as int, i as int)),
            acc == if digits_value(v@.subrange(from as int, i as int)) < magnitude_cap() {
                digits_value(v@.subrange(from as int, i as int))
            } else {
                magnitude_cap()
            },
        decreases v.len() - i,
    {
        let c = v[i];
        let ghost prefix = v@.subrange(from as int, i as int);
        let ghost next = v@.subrange(from as int, i + 1);
        assert(next.drop_last() == prefix);
        assert(next.last() == c);
        if !('0' <= c && c <= '9') {
            assert(body[i - from] == c);
            return (false, 0);
        }
        let d = (c as u32 - 48) as u128;
        proof {
            if digits_value(prefix) >= magnitude_cap() {
                lemma_digits_grow(digits_value(prefix), d as nat);
            }
        }
        acc = if acc >= cap {
            cap
        } else {
            let n = acc * 10 + d;
            if n >= cap { cap } else { n }
        };
        assert forall|k: int| 0 <= k < next.len() implies is_digit(#[trigger] next[k]) by {
            if k < prefix.len() {
                assert(next[k] == prefix[k]);
            }
        }
        i += 1;
    }
    (true, acc)
}

/// `s.parse::<i64>()`.
pub fn parse_i64(s: &str) -> (r: Option<i64>)
    ensures
        r == i64_text(s@),
{
    let v = chars_of(s);
    let signed = v.len() > 0 && (v[0] == '+' || v[0] == '-');
    let negative = v.len() > 0 && v[0] == '-';
    let from: usize = if signed { 1 } else { 0 };
    assert(v@.subrange(0, v.len() as int) == v@);
    assert(signed ==> v@.subrange(1, v.len() as int) == v@.drop_first());
    if from == v.len() {
        return None;
    }
    let (ok, magnitude) = digits_from(&v, from);
    if !ok {
        return None;
    }
    if negative {
        if magnitude > 0x8000_0000_0000_0000 {
            None
        } else if magnitude == 0x8000_0000_0000_0000 {
            Some(i64::MIN)
        } else {
            Some(-(magnitude as i64))
        }
    } else if magnitude > 0x7fff_ffff_ffff_ffff {
        None
    } else {
        Some(magnitude as i64)
    }
}

/// `s.parse::<i32>()`.
pub fn parse_i32(s: &str) -> (r: Option<i32>)
    ensures
        r == i32_text(s@),
{
    match parse_i64(s) {
        Some(n) => if -2147483648i64 <= n && n <= 2147483647i64 { Some(n as i32) } else { None },
        None => {
            proof {
                match signed_text_value(s@) {
                    Some(v) => assert(!(i64::MIN <= v <= i64::MAX)),
                    None => {},
                }
            }
            None
        },
    }
}

/// `s.parse::<usize>()`.
pub fn parse_usize(s: &str) -> (r: Option<usize>)
    ensures
        r == usize_text(s@),
{
    let v = chars_of(s);
    let from: usize = if v.len() > 0 && v[0] == '+' { 1 } else { 0 };
    assert(v@.subrange(0, v.len() as int) == v@);
    assert(from == 1 ==> v@.subrange(1, v.len() as int) == v@.drop_first());
    if from == v.len() {
        return None;
    }
    let (ok, magnitude) = digits_from(&v, from);
    if !ok {
        return None;
    }
    if magnitude > usize::MAX as u128 {
        None
    } else {
        Some(magnitude as usize)
    }
}

}
