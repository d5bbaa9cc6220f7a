//! Reading a fixed-point quantity from its decimal text.

use crate::fixed::SCALE;
use vstd::prelude::*;
use vstd::string::*;

verus! {

/// Digits after the point that a quantity keeps.
pub const PLACES: usize = 8;

/// The value of a decimal digit, if the character is one.
pub open spec fn digit_value(c: char) -> Option<nat> {
    if c == '0' {
        Some(0)
    } else if c == '1' {
        Some(1)
    } else if c == '2' {
        Some(2)
    } else if c == '3' {
        Some(3)
    } else if c == '4' {
        Some(4)
    } else if c == '5' {
        Some(5)
    } else if c == '6' {
        Some(6)
    } else if c == '7' {
        Some(7)
    } else if c == '8' {
        Some(8)
    } else if c == '9' {
        Some(9)
    } else {
        None
    }
}

/// Whether every character is a decimal digit.
pub open spec fn all_digits(s: Seq<char>) -> bool {
    forall|i: int| 0 <= i < s.len() ==> digit_value(#[trigger] s[i]) is Some
}

/// The number that a run of decimal digits writes.
pub open spec fn digits_value(s: Seq<char>) -> nat
    decreases s.len(),
{
    if s.len() == 0 {
        0
    } else {
        digits_value(s.drop_last()) * 10 + match digit_value(s.last()) {
            Some(d) => d,
            None => 0,
        }
    }
}

/// Ten to the power of `n`.
pub open spec fn pow10(n: nat) -> nat
    decreases n,
{
    if n == 0 {
        1
    } else {
        10 * pow10((n - 1) as nat)
    }
}

/// The digits after the point, as fixed-point units: the first eight count,
/// the rest is cut.
pub open spec fn fraction_units(fraction: Seq<char>) -> nat {
    let kept: int = if fraction.len() <= PLACES {
        fraction.len() as int
    } else {
        PLACES as int
    };
    digits_value(fraction.take(kept)) * pow10((PLACES - kept) as nat)
}

/// The digits after a point at `p`; none when the text ends before.
pub open spec fn fraction_after(s: Seq<char>, p: int) -> Seq<char> {
    if p < s.len() {
        s.skip(p + 1)
    } else {
        Seq::empty()
    }
}

/// Whether the text is a decimal number whose whole part ends at `p`: one
/// or more digits, then either nothing or a point and any number of digits.
pub open spec fn is_decimal_split(s: Seq<char>, p: int) -> bool {
    &&& 0 < p <= s.len()
    &&& all_digits(s.take(p))
    &&& p < s.len() ==> s[p] == '.'
    &&& all_digits(fraction_after(s, p))
}

/// The quantity that a decimal number with its whole part ending at `p`
/// writes, in fixed-point units.
pub open spec fn split_value(s: Seq<char>, p: int) -> nat {
    digits_value(s.take(p)) * (SCALE as nat) + fraction_units(fraction_after(s, p))
}

/// The quantity that a text writes: its value if it is a decimal number
/// within the range of a quantity, and none for any other text.
pub open spec fn quantity_of_text(s: Seq<char>) -> Option<nat> {
    if exists|p: int| is_decimal_split(s, p) {
        let p = choose|p: int| is_decimal_split(s, p);
        if split_value(s, p) <= u64::MAX {
            Some(split_value(s, p))
        } else {
            None
        }
    } else {
        None
    }
}

/// The quantity that a text gives where a malformed one counts as zero.
pub open spec fn parsed_quantity(s: Seq<char>) -> nat {
    match quantity_of_text(s) {
        Some(v) => v,
        None => 0,
    }
}

/// A text is split as a decimal number in one way at most.
pub proof fn lemma_split_is_unique(s: Seq<char>, p: int, q: int)
    requires
        is_decimal_split(s, p),
        is_decimal_split(s, q),
    ensures
        p == q,
{
    if p < q {
        assert(s.take(q)[p] == s[p]);
    } else if q < p {
        assert(s.take(p)[q] == s[q]);
    }
}

/// A text whose leading digits are followed by a character that is neither
/// a digit nor a point, or that has no leading digit, is no decimal number.
pub proof fn lemma_bad_whole(s: Seq<char>, i: int)
    requires
        0 <= i <= s.len(),
        all_digits(s.take(i)),
        i < s.len() ==> digit_value(s[i]) is None,
        i == 0 || (i < s.len() && s[i] != '.'),
    ensures
        quantity_of_text(s) is None,
{
    assert forall|p: int| !is_decimal_split(s, p) by {
        if is_decimal_split(s, p) {
            if p > i {
                assert(s.take(p)[i] == s[i]);
            } else if p < i {
                assert(s.take(i)[p] == s[p]);
            }
        }
    }
}

/// A text with a character after its point that is no digit is no decimal
/// number.
pub proof fn lemma_bad_fraction(s: Seq<char>, p: int, j: int)
    requires
        0 < p < j < s.len(),
        all_digits(s.take(p)),
        s[p] == '.',
        digit_value(s[j]) is None,
    ensures
        quantity_of_text(s) is None,
{
    assert forall|q: int| !is_decimal_split(s, q) by {
        if is_decimal_split(s, q) {
            if q < p {
                assert(s.take(p)[q] == s[q]);
            } else if q > p {
                assert(s.take(q)[p] == s[p]);
            } else {
                assert(s.skip(p + 1)[j - p - 1] == s[j]);
            }
        }
    }
}

/// More digits write no smaller a number.
pub proof fn lemma_digits_grow(s: Seq<char>, a: int, b: int)
    requires
        0 <= a <= b <= s.len(),
    ensures
        digits_value(s.take(a)) <= digits_value(s.take(b)),
    decreases b - a,
{
    if a < b {
        lemma_digits_grow(s, a, b - 1);
        assert(s.take(b).drop_last() =~= s.take(b - 1));
    }
}

/// A text whose leading digits already write more whole units than a
/// quantity can hold writes no quantity.
pub proof fn lemma_whole_too_large(s: Seq<char>, i: int)
    requires
        0 < i <= s.len(),
        all_digits(s.take(i)),
        digits_value(s.take(i)) > u64::MAX,
    ensures
        quantity_of_text(s) is None,
{
    if exists|p: int| is_decimal_split(s, p) {
        let p = choose|p: int| is_decimal_split(s, p);
        if p < i {
            if p < s.len() {
                assert(s.take(i)[p] == s[p]);
            }
        } else {
            lemma_digits_grow(s, i, p);
            assert(digits_value(s.take(p)) * SCALE >= digits_value(s.take(p))) by (nonlinear_arith)
                requires
                    SCALE >= 1,
            ;
        }
    }
}

/// The digit that a character writes, if it is one.
pub fn digit_of(c: char) -> (r: Option<u8>)
    ensures
        match r {
            Some(d) => digit_value(c) == Some(d as nat),
            None => digit_value(c) is None,
        },
{
    if c == '0' {
        Some(0)
    } else if c == '1' {
        Some(1)
    } else if c == '2' {
        Some(2)
    } else if c == '3' {
        Some(3)
    } else if c == '4' {
        Some(4)
    } else if c == '5' {
        Some(5)
    } else if c == '6' {
        Some(6)
    } else if c == '7' {
        Some(7)
    } else if c == '8' {
        Some(8)
    } else if c == '9' {
        Some(9)
    } else {
        None
    }
}

/// Whether the text goes on at `i` with something other than a point.
fn continues_whole(text: &str, i: usize, n: usize) -> (r: bool)
    requires
        n == text@.len(),
    ensures
        r == (i < n && text@[i as int] != '.'),
{
    i < n && text.get_char(i) != '.'
}

/// Reads a quantity from its decimal text: digits, then optionally a point
/// and more digits, of which eight are kept.  Any other text, and a number
/// too large for a quantity, gives none.
pub fn read_quantity(text: &str) -> (r: Option<u64>)
    ensures
        match r {
            Some(q) => quantity_of_text(text@) == Some(q as nat),
            None => quantity_of_text(text@) is None,
        },
{
    let n: usize = text.unicode_len();
    let ghost s = text@;
    let mut whole: u128 = 0;
    let mut i: usize = 0;
    while continues_whole(text, i, n)
        invariant
            s == text@,
            n == s.len(),
            i <= n,
            all_digits(s.take(i as int)),
            whole == digits_value(s.take(i as int)),
            whole <= u64::MAX,
        decreases n - i,
    {
        let c: char = text.get_char(i);
        match digit_of(c) {
            None => {
                proof {
                    lemma_bad_whole(s, i as int);
                }
                return None;
            },
            Some(d) => {
                proof {
                    assert(s.take(i + 1).drop_last() =~= s.take(i as int));
                    assert(s.take(i + 1).last() == s[i as int]);
                    assert forall|k: int| 0 <= k < i + 1 implies digit_value(
                        #[trigger] s.take(i + 1)[k],
                    ) is Some by {
                        if k < i {
                            assert(s.take(i as int)[k] == s[k]);
                        }
                    }
                }
                whole = whole * 10 + d as u128;
                i = i + 1;
                if whole > u64::MAX as u128 {
                    proof {
                        lemma_whole_too_large(s, i as int);
                    }
                    return None;
                }
            },
        }
    }
    if i == 0 {
        proof {
            lemma_bad_whole(s, 0);
        }
        return None;
    }
    let p: usize = i;
    let mut fraction: u64 = 0;
    let mut kept: usize = 0;
    if p < n {
        let mut j: usize = p + 1;
        assert(s.skip(p + 1).take(0) =~= Seq::<char>::empty());
        while j < n
            invariant
                s == text@,
                n == s.len(),
                0 < p < n,
                p < j <= n,
                all_digits(s.take(p as int)),
                s[p as int] == '.',
                all_digits(s.skip(p + 1).take(j - p - 1)),
                kept <= PLACES,
                kept == (if j - p - 1 <= PLACES {
                    j - p - 1
                } else {
                    PLACES as int
                }),
                fraction == digits_value(s.skip(p + 1).take(kept as int)),
                fraction < pow10(kept as nat),
                pow10(kept as nat) <= 100_000_000,
            decreases n - j,
        {
            let c: char = text.get_char(j);
            match digit_of(c) {
                None => {
                    proof {
                        lemma_bad_fraction(s, p as int, j as int);
                    }
                    return None;
                },
                Some(d) => {
                    proof {
                        let rest = s.skip(p + 1);
                        assert forall|k: int| 0 <= k < j - p implies digit_value(
                            #[trigger] rest.take(j - p)[k],
                        ) is Some by {
                            if k < j - p - 1 {
                                assert(rest.take(j - p - 1)[k] == rest[k]);
                            } else {
                                assert(rest[k] == s[j as int]);
                            }
                        }
                        if kept < PLACES {
                            assert(rest.take(kept + 1).drop_last() =~= rest.take(kept as int));
                            assert(rest.take(kept + 1).last() == s[j as int]);
                            reveal_with_fuel(pow10, 10);
                        }
                    }
                    if kept < PLACES {
                        fraction = fraction * 10 + d as u64;
                        kept = kept + 1;
                    }
                    j = j + 1;
                },
            }
        }
    }
    let ghost digits = fraction_after(s, p as int);
    proof {
        if p < n {
            assert(digits.take(n - p - 1) =~= digits);
        } else {
            assert(digits.take(0) =~= digits);
            reveal_with_fuel(pow10, 2);
        }
        assert(all_digits(digits));
        assert(is_decimal_split(s, p as int));
        assert(s.take(0) =~= Seq::<char>::empty());
    }
    let ghost first: nat = fraction as nat;
    let mut k: usize = kept;
    assert(first * pow10((k - kept) as nat) == first) by (nonlinear_arith)
        requires
            pow10((k - kept) as nat) == 1,
    ;
    while k < PLACES
        invariant
            kept <= k <= PLACES,
            fraction == first * pow10((k - kept) as nat),
            first < pow10(kept as nat),
            fraction < pow10(k as nat),
            pow10(k as nat) <= 100_000_000,
        decreases PLACES - k,
    {
        proof {
            reveal_with_fuel(pow10, 10);
            assert(first * (10 * pow10((k - kept) as nat)) == (first * pow10((k - kept) as nat))
                * 10) by (nonlinear_arith);
        }
        fraction = fraction * 10;
        k = k + 1;
    }
    assert(fraction == fraction_units(digits));
    let total: u128 = whole * 100_000_000 + fraction as u128;
    proof {
        assert(total == split_value(s, p as int));
        assert forall|q: int| is_decimal_split(s, q) implies q == p by {
            lemma_split_is_unique(s, p as int, q);
        }
    }
    if total > u64::MAX as u128 {
        None
    } else {
        Some(total as u64)
    }
}

/// Reads a quantity from its decimal text; a malformed text gives zero.
pub fn parse_quantity(text: &str) -> (r: u64)
    ensures
        r == parsed_quantity(text@),
{
    match read_quantity(text) {
        Some(q) => q,
        None => 0,
    }
}

} // verus!
