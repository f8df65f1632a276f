//! String operations that the standard library performs for this crate.

use crate::decimal::{Decimal, MICROS_PER_UNIT};
use vstd::prelude::*;
use vstd::string::StringExecFns;

verus! {

/// The characters that `str::to_uppercase` returns for a string made of the
/// characters `s`.
pub uninterp spec fn uppercase_of(s: Seq<char>) -> Seq<char>;

/// `needle` occurs in `hay` as a contiguous run of characters.
pub open spec fn occurs_in(needle: Seq<char>, hay: Seq<char>) -> bool {
    exists|i: int|
        0 <= i && i + needle.len() <= hay.len() && #[trigger] hay.subrange(i, i + needle.len())
            == needle
}

/// Calls `str::to_uppercase`. Trusted: the result is the upper-case form of
/// the argument as the standard library defines it, a function of the
/// argument's characters alone.
#[verifier::external_body]
pub(crate) fn to_uppercase(s: &str) -> (r: String)
    ensures
        r@ == uppercase_of(s@),
{
    s.to_uppercase()
}

/// Calls `str::contains` with a string pattern. Trusted: the result tells
/// whether the pattern occurs in the string as a substring.
#[verifier::external_body]
pub(crate) fn contains(hay: &str, needle: &str) -> (r: bool)
    ensures
        r == occurs_in(needle@, hay@),
{
    hay.contains(needle)
}

/// Whether two strings hold the same characters.
pub fn same_text(a: &str, b: &str) -> (r: bool)
    ensures
        r == (a@ == b@),
{
    let x = String::from_str(a);
    let y = String::from_str(b);
    x == y
}

/// The character for the digit `d`.
pub open spec fn digit_char(d: int) -> char {
    if d == 0 {
        '0'
    } else if d == 1 {
        '1'
    } else if d == 2 {
        '2'
    } else if d == 3 {
        '3'
    } else if d == 4 {
        '4'
    } else if d == 5 {
        '5'
    } else if d == 6 {
        '6'
    } else if d == 7 {
        '7'
    } else if d == 8 {
        '8'
    } else {
        '9'
    }
}

/// The decimal digits of `n`, without leading zeros.
pub open spec fn digits_of(n: nat) -> Seq<char>
    decreases n,
{
    if n < 10 {
        seq![digit_char(n as int)]
    } else {
        digits_of(n / 10).push(digit_char((n % 10) as int))
    }
}

/// The digits of the fraction `f / (10 * place)`, from the digit worth
/// `place` on, up to the last one that is not zero.
pub open spec fn fraction_digits(f: nat, place: nat) -> Seq<char>
    decreases place,
{
    if f == 0 || place == 0 {
        Seq::empty()
    } else {
        seq![digit_char((f / place) as int)] + fraction_digits(f % place, place / 10)
    }
}

/// A number of millionths written as a decimal number: a sign where it is
/// negative, the whole part, and the fraction, if there is one, behind a
/// point and without trailing zeros.
pub open spec fn decimal_text_of(micros: int) -> Seq<char> {
    let magnitude: nat = (if micros < 0 {
        -micros
    } else {
        micros
    }) as nat;
    let whole: nat = magnitude / (MICROS_PER_UNIT as nat);
    let fraction: nat = magnitude % (MICROS_PER_UNIT as nat);
    let sign: Seq<char> = if micros < 0 {
        seq!['-']
    } else {
        Seq::empty()
    };
    let tail: Seq<char> = if fraction == 0 {
        Seq::empty()
    } else {
        seq!['.'] + fraction_digits(fraction, (MICROS_PER_UNIT / 10) as nat)
    };
    sign + digits_of(whole) + tail
}

/// The digit `d` as a string.
fn digit_str(d: u8) -> (r: &'static str)
    requires
        d < 10,
    ensures
        r@ == seq![digit_char(d as int)],
{
    proof {
        reveal_strlit("0");
        reveal_strlit("1");
        reveal_strlit("2");
        reveal_strlit("3");
        reveal_strlit("4");
        reveal_strlit("5");
        reveal_strlit("6");
        reveal_strlit("7");
        reveal_strlit("8");
        reveal_strlit("9");
    }
    let r = if d == 0 {
        "0"
    } else if d == 1 {
        "1"
    } else if d == 2 {
        "2"
    } else if d == 3 {
        "3"
    } else if d == 4 {
        "4"
    } else if d == 5 {
        "5"
    } else if d == 6 {
        "6"
    } else if d == 7 {
        "7"
    } else if d == 8 {
        "8"
    } else {
        "9"
    };
    assert(r@ =~= seq![digit_char(d as int)]);
    r
}

/// Appends the decimal digits of `n` to `out`.
pub fn push_digits(out: &mut String, n: u64)
    ensures
        final(out)@ == old(out)@ + digits_of(n as nat),
    decreases n,
{
    if n >= 10 {
        push_digits(out, n / 10);
    }
    out.append(digit_str((n % 10) as u8));
    assert(out@ =~= old(out)@ + digits_of(n as nat));
}

/// Appends the digits of the fraction of `f` millionths to `out`.
fn push_fraction(out: &mut String, fraction: u64)
    requires
        fraction < MICROS_PER_UNIT,
    ensures
        final(out)@ == old(out)@ + fraction_digits(fraction as nat, (MICROS_PER_UNIT / 10) as nat),
{
    let mut f: u64 = fraction;
    let mut place: u64 = (MICROS_PER_UNIT / 10) as u64;
    while f != 0 && place != 0
        invariant
            f < 10 * place || f == 0,
            place == 100_000 || place == 10_000 || place == 1_000 || place == 100 || place == 10
                || place == 1 || place == 0,
            out@ + fraction_digits(f as nat, place as nat) == old(out)@ + fraction_digits(
                fraction as nat,
                (MICROS_PER_UNIT / 10) as nat,
            ),
        decreases place,
    {
        let ghost before = out@;
        let d: u64 = f / place;
        out.append(digit_str(d as u8));
        assert(before + fraction_digits(f as nat, place as nat) =~= out@ + fraction_digits(
            (f % place) as nat,
            (place / 10) as nat,
        ));
        f = f % place;
        place = place / 10;
    }
    assert(out@ + fraction_digits(f as nat, place as nat) =~= out@);
}

/// The number written out, as `decimal_text_of` says.
pub fn decimal_text(d: Decimal) -> (r: String)
    ensures
        r@ == decimal_text_of(d@),
{
    let mut out = String::new();
    let magnitude: u64 = if d.micros < 0 {
        out.append("-");
        proof {
            reveal_strlit("-");
        }
        (-(d.micros as i128)) as u64
    } else {
        d.micros as u64
    };
    let ghost sign = out@;
    let whole: u64 = magnitude / (MICROS_PER_UNIT as u64);
    let fraction: u64 = magnitude % (MICROS_PER_UNIT as u64);
    push_digits(&mut out, whole);
    if fraction != 0 {
        out.append(".");
        proof {
            reveal_strlit(".");
        }
        let ghost head = out@;
        push_fraction(&mut out, fraction);
        assert(out@ =~= sign + digits_of(whole as nat) + (seq!['.'] + fraction_digits(
            fraction as nat,
            (MICROS_PER_UNIT / 10) as nat,
        )));
    } else {
        assert(out@ =~= sign + digits_of(whole as nat) + Seq::<char>::empty());
    }
    assert(sign =~= if d@ < 0 {
        seq!['-']
    } else {
        Seq::<char>::empty()
    });
    out
}

} // verus!
