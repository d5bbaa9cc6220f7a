//! Fixed-point quantities and their decimal text.

use vstd::prelude::*;
use vstd::string::*;

verus! {

/// Fixed-point units in one whole unit: quantities carry eight decimal places.
pub const SCALE: u64 = 100_000_000;

/// The character of a single decimal digit.
pub open spec fn digit_char(d: nat) -> char {
    if d == 0 {
        '0'
    } else if d == 1 {
        '1'
    } else if d == 2 {
        '2'
    } else if d == 3 {
        '3'
    } else if d == 4 {
        '4'
    } else if d == 5 {
        '5'
    } else if d == 6 {
        '6'
    } else if d == 7 {
        '7'
    } else if d == 8 {
        '8'
    } else {
        '9'
    }
}

/// The decimal digits of `n`, most significant first, without leading zeros.
pub open spec fn decimal_text(n: nat) -> Seq<char>
    decreases n,
{
    if n < 10 {
        seq![digit_char(n)]
    } else {
        decimal_text(n / 10).push(digit_char(n % 10))
    }
}

/// `n` tenths written with one digit after the point.
pub open spec fn one_place_text(n: nat) -> Seq<char> {
    decimal_text(n / 10).push('.').push(digit_char(n % 10))
}

/// `n` hundredths written with two digits after the point.
pub open spec fn two_place_text(n: nat) -> Seq<char> {
    decimal_text(n / 100).push('.').push(digit_char((n / 10) % 10)).push(digit_char(n % 10))
}

/// `n / d` rounded to the nearest integer, halves upward.
pub open spec fn round_div(n: nat, d: nat) -> nat
    recommends
        d > 0,
{
    if 2 * (n % d) >= d {
        n / d + 1
    } else {
        n / d
    }
}

/// The distance between two quantities.
pub open spec fn abs_diff(a: u64, b: u64) -> nat {
    if a >= b {
        (a - b) as nat
    } else {
        (b - a) as nat
    }
}

/// The distance between two quantities.
pub fn distance(a: u64, b: u64) -> (r: u64)
    ensures
        r == abs_diff(a, b),
{
    if a >= b {
        a - b
    } else {
        b - a
    }
}

/// `n / d` rounded to the nearest integer, halves upward.
pub fn rounded_quotient(n: u128, d: u128) -> (r: u128)
    requires
        d > 0,
    ensures
        r == round_div(n as nat, d as nat),
{
    let q: u128 = n / d;
    let rem: u128 = n % d;
    if rem >= d - rem {
        assert(q < u128::MAX) by (nonlinear_arith)
            requires
                q == n / d,
                rem == n % d,
                rem >= d - rem,
                d > 0,
                n <= u128::MAX,
        {
            assert(rem >= 1);
            assert(d >= 2);
            assert(n == d * (n / d) + n % d);
            assert(d * q >= 2 * q);
        }
        q + 1
    } else {
        q
    }
}

/// The text of a single decimal digit.
fn digit_str(d: u8) -> (r: &'static str)
    requires
        d < 10,
    ensures
        r@ == seq![digit_char(d as nat)],
{
    proof {
        reveal_strlit("0");
        reveal_strlit("1");
        reveal_strlit("2");
        reveal_strlit("3");
        reveal_strlit("4");
        reveal_strlit("5");
        reveal_strlit("6");
        reveal_strlit("7");
        reveal_strlit("8");
        reveal_strlit("9");
    }
    let r = if d == 0 {
        "0"
    } else if d == 1 {
        "1"
    } else if d == 2 {
        "2"
    } else if d == 3 {
        "3"
    } else if d == 4 {
        "4"
    } else if d == 5 {
        "5"
    } else if d == 6 {
        "6"
    } else if d == 7 {
        "7"
    } else if d == 8 {
        "8"
    } else {
        "9"
    };
    assert(r@ =~= seq![digit_char(d as nat)]);
    r
}

/// Appends one decimal digit to `out`.
pub fn push_digit(out: &mut String, d: u8)
    requires
        d < 10,
    ensures
        final(out)@ == old(out)@.push(digit_char(d as nat)),
{
    let s = digit_str(d);
    out.append(s);
    assert(out@ =~= old(out)@.push(digit_char(d as nat)));
}

/// Appends the decimal digits of `n` to `out`.
pub fn push_decimal(out: &mut String, n: u128)
    ensures
        final(out)@ == old(out)@ + decimal_text(n as nat),
    decreases n,
{
    if n >= 10 {
        push_decimal(out, n / 10);
    }
    push_digit(out, (n % 10) as u8);
    assert(out@ =~= old(out)@ + decimal_text(n as nat));
}

/// Appends `n` tenths with one digit after the point.
pub fn push_one_place(out: &mut String, n: u128)
    ensures
        final(out)@ == old(out)@ + one_place_text(n as nat),
{
    push_decimal(out, n / 10);
    proof {
        reveal_strlit(".");
    }
    out.append(".");
    push_digit(out, (n % 10) as u8);
    assert("."@ =~= seq!['.']);
    assert(out@ =~= old(out)@ + one_place_text(n as nat));
}

/// Appends `n` hundredths with two digits after the point.
pub fn push_two_places(out: &mut String, n: u128)
    ensures
        final(out)@ == old(out)@ + two_place_text(n as nat),
{
    push_decimal(out, n / 100);
    proof {
        reveal_strlit(".");
    }
    out.append(".");
    push_digit(out, ((n / 10) % 10) as u8);
    push_digit(out, (n % 10) as u8);
    assert("."@ =~= seq!['.']);
    assert(out@ =~= old(out)@ + two_place_text(n as nat));
}

} // verus!
