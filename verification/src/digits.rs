//! Decimal rendering of integers into characters, with the order facts that
//! make fixed-width renderings sort like the numbers they stand for.
use vstd::prelude::*;
use crate::text::push_char;

verus! {

/// The ASCII digit for `d` (0..=9).
pub open spec fn digit_char(d: int) -> char {
    (48 + d) as char
}

/// `n` rendered in exactly `w` decimal digits (its low `w` digits,
/// zero-padded on the left).
pub open spec fn fixed_digits(n: nat, w: nat) -> Seq<char>
    decreases w,
{
    if w == 0 {
        Seq::empty()
    } else {
        fixed_digits(n / 10, (w - 1) as nat).push(digit_char((n % 10) as int))
    }
}

/// `n` rendered in decimal without leading zeros.
pub open spec fn decimal(n: nat) -> Seq<char>
    decreases n,
{
    if n < 10 {
        seq![digit_char(n as int)]
    } else {
        decimal(n / 10).push(digit_char((n % 10) as int))
    }
}

/// Strict lexicographic order of character sequences by code point, the order
/// in which `String`s (and SQLite TEXT values) compare.
pub open spec fn text_lt(a: Seq<char>, b: Seq<char>) -> bool
    decreases a.len(),
{
    if a.len() == 0 {
        b.len() > 0
    } else if b.len() == 0 {
        false
    } else if (a[0] as u32) < (b[0] as u32) {
        true
    } else if a[0] == b[0] {
        text_lt(a.drop_first(), b.drop_first())
    } else {
        false
    }
}

pub open spec fn pow10(w: nat) -> nat
    decreases w,
{
    if w == 0 {
        1
    } else {
        10 * pow10((w - 1) as nat)
    }
}

pub proof fn lemma_fixed_digits_len(n: nat, w: nat)
    ensures
        fixed_digits(n, w).len() == w,
    decreases w,
{
    if w > 0 {
        lemma_fixed_digits_len(n / 10, (w - 1) as nat);
    }
}

/// Comparing two texts that share a prefix of the same length is decided by
/// the prefixes first, then by what follows.
pub proof fn lemma_text_lt_concat(x1: Seq<char>, y1: Seq<char>, x2: Seq<char>, y2: Seq<char>)
    requires
        x1.len() == x2.len(),
    ensures
        text_lt(x1 + y1, x2 + y2) <==> (text_lt(x1, x2) || (x1 == x2 && text_lt(y1, y2))),
    decreases x1.len(),
{
    if x1.len() == 0 {
        assert(x1 + y1 == y1);
        assert(x2 + y2 == y2);
        assert(x1 == x2);
    } else {
        assert((x1 + y1)[0] == x1[0]);
        assert((x2 + y2)[0] == x2[0]);
        assert((x1 + y1).drop_first() == x1.drop_first() + y1);
        assert((x2 + y2).drop_first() == x2.drop_first() + y2);
        lemma_text_lt_concat(x1.drop_first(), y1, x2.drop_first(), y2);
        if x1[0] == x2[0] && x1.drop_first() == x2.drop_first() {
            assert(x1 == seq![x1[0]] + x1.drop_first());
            assert(x2 == seq![x2[0]] + x2.drop_first());
        }
        if x1 == x2 {
            assert(x1.drop_first() == x2.drop_first());
        }
    }
}

pub proof fn lemma_text_lt_irreflexive(a: Seq<char>)
    ensures
        !text_lt(a, a),
    decreases a.len(),
{
    if a.len() > 0 {
        lemma_text_lt_irreflexive(a.drop_first());
    }
}

proof fn lemma_div_mod_10(a: nat, b: nat)
    ensures
        a < b <==> (a / 10 < b / 10 || (a / 10 == b / 10 && a % 10 < b % 10)),
        a == b <==> (a / 10 == b / 10 && a % 10 == b % 10),
{
    assert(a == 10 * (a / 10) + a % 10) by (nonlinear_arith);
    assert(b == 10 * (b / 10) + b % 10) by (nonlinear_arith);
    assert(a % 10 < 10 && b % 10 < 10) by (nonlinear_arith);
    assert(a / 10 < b / 10 ==> 10 * (a / 10) + 10 <= 10 * (b / 10)) by (nonlinear_arith);
    assert(b / 10 < a / 10 ==> 10 * (b / 10) + 10 <= 10 * (a / 10)) by (nonlinear_arith);
}

/// Two `w`-digit renderings compare exactly as the numbers do.
pub proof fn lemma_fixed_digits_order(a: nat, b: nat, w: nat)
    requires
        a < pow10(w),
        b < pow10(w),
    ensures
        text_lt(fixed_digits(a, w), fixed_digits(b, w)) <==> a < b,
        fixed_digits(a, w) == fixed_digits(b, w) <==> a == b,
    decreases w,
{
    if w == 0 {
        lemma_text_lt_irreflexive(Seq::<char>::empty());
    } else {
        let w1 = (w - 1) as nat;
        assert(a / 10 < pow10(w1) && b / 10 < pow10(w1)) by (nonlinear_arith)
            requires
                a < 10 * pow10(w1),
                b < 10 * pow10(w1),
        ;
        lemma_fixed_digits_order(a / 10, b / 10, w1);
        lemma_div_mod_10(a, b);
        lemma_fixed_digits_len(a / 10, w1);
        lemma_fixed_digits_len(b / 10, w1);
        let da = digit_char((a % 10) as int);
        let db = digit_char((b % 10) as int);
        assert(fixed_digits(a, w) == fixed_digits(a / 10, w1) + seq![da]);
        assert(fixed_digits(b, w) == fixed_digits(b / 10, w1) + seq![db]);
        lemma_text_lt_concat(fixed_digits(a / 10, w1), seq![da], fixed_digits(b / 10, w1), seq![db]);
        assert(seq![da].drop_first() == Seq::<char>::empty());
        assert(seq![db].drop_first() == Seq::<char>::empty());
        assert((da as u32) == 48 + a % 10);
        assert((db as u32) == 48 + b % 10);
        assert(seq![da][0] == da && seq![db][0] == db);
        assert(text_lt(Seq::<char>::empty(), Seq::<char>::empty()) == false);
        assert(text_lt(seq![da], seq![db]) <==> a % 10 < b % 10);
        if fixed_digits(a, w) == fixed_digits(b, w) {
            assert(fixed_digits(a, w).drop_last() == fixed_digits(a / 10, w1));
            assert(fixed_digits(b, w).drop_last() == fixed_digits(b / 10, w1));
            assert(fixed_digits(a, w).last() == da);
            assert(fixed_digits(b, w).last() == db);
        }
    }
}

/// The ASCII digit for `d`.
pub fn digit_of(d: u64) -> (c: char)
    requires
        d < 10,
    ensures
        c == digit_char(d as int),
{
    if d == 0 { '0' } else if d == 1 { '1' } else if d == 2 { '2' } else if d == 3 { '3' }
    else if d == 4 { '4' } else if d == 5 { '5' } else if d == 6 { '6' } else if d == 7 { '7' }
    else if d == 8 { '8' } else { '9' }
}

/// Appends `n` rendered in exactly `w` digits.
pub fn push_fixed_digits(s: &mut String, n: u64, w: u32)
    ensures
        final(s)@ == old(s)@ + fixed_digits(n as nat, w as nat),
    decreases w,
{
    if w > 0 {
        push_fixed_digits(s, n / 10, w - 1);
        push_char(s, digit_of(n % 10));
    }
}

}
