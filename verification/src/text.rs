//! Numbers as text: naturals, and decimals counted in millionths.

use vstd::prelude::*;
use vstd::string::*;

verus! {

/// One board unit, the distance between two neighbouring lines, in millionths.
pub const UNIT: i64 = 1_000_000;

/// The decimal digit for a number below ten.
pub open spec fn digit_char(d: int) -> char {
    if d == 0 {
        '0'
    } else if d == 1 {
        '1'
    } else if d == 2 {
        '2'
    } else if d == 3 {
        '3'
    } else if d == 4 {
        '4'
    } else if d == 5 {
        '5'
    } else if d == 6 {
        '6'
    } else if d == 7 {
        '7'
    } else if d == 8 {
        '8'
    } else {
        '9'
    }
}

/// A natural number in decimal, without leading zeros.
pub open spec fn natural_text(n: nat) -> Seq<char>
    decreases n,
{
    if n < 10 {
        seq![digit_char(n as int)]
    } else {
        natural_text(n / 10).push(digit_char((n % 10) as int))
    }
}

/// The digits behind the decimal point of `f` millionths, at most `places`
/// of them, ending with the last digit that is not zero.
pub open spec fn fraction_text(f: nat, places: nat) -> Seq<char>
    decreases places,
{
    if f == 0 || places == 0 {
        Seq::empty()
    } else {
        seq![digit_char((f * 10 / 1_000_000) as int)] + fraction_text(
            (f * 10 % 1_000_000) as nat,
            (places - 1) as nat,
        )
    }
}

/// A number of millionths as a decimal: a minus sign if it is negative, the
/// whole part, and the fraction, if there is one, behind a point.
pub open spec fn decimal_text(v: int) -> Seq<char> {
    let m = if v < 0 {
        -v
    } else {
        v
    };
    let sign = if v < 0 {
        seq!['-']
    } else {
        Seq::<char>::empty()
    };
    let whole = natural_text((m / 1_000_000) as nat);
    let fraction = m % 1_000_000;
    if fraction == 0 {
        sign + whole
    } else {
        sign + whole + seq!['.'] + fraction_text(fraction as nat, 6)
    }
}

fn digit_str(d: u64) -> (s: &'static str)
    requires
        d < 10,
    ensures
        s@ == seq![digit_char(d as int)],
{
    proof {
        reveal_strlit("0");
        reveal_strlit("1");
        reveal_strlit("2");
        reveal_strlit("3");
        reveal_strlit("4");
        reveal_strlit("5");
        reveal_strlit("6");
        reveal_strlit("7");
        reveal_strlit("8");
        reveal_strlit("9");
    }
    if d == 0 {
        "0"
    } else if d == 1 {
        "1"
    } else if d == 2 {
        "2"
    } else if d == 3 {
        "3"
    } else if d == 4 {
        "4"
    } else if d == 5 {
        "5"
    } else if d == 6 {
        "6"
    } else if d == 7 {
        "7"
    } else if d == 8 {
        "8"
    } else {
        "9"
    }
}

/// Writes a natural number behind what the string holds.
pub fn push_natural(out: &mut String, n: u64)
    ensures
        final(out)@ == old(out)@ + natural_text(n as nat),
    decreases n,
{
    if n >= 10 {
        push_natural(out, n / 10);
    }
    out.append(digit_str(n % 10));
}

fn push_fraction(out: &mut String, f: u64, places: u8)
    requires
        f < 1_000_000,
    ensures
        final(out)@ == old(out)@ + fraction_text(f as nat, places as nat),
    decreases places,
{
    if f != 0 && places != 0 {
        let scaled: u64 = f * 10;
        let digit: u64 = scaled / 1_000_000;
        out.append(digit_str(digit));
        let ghost mid = out@;
        push_fraction(out, scaled % 1_000_000, places - 1);
        assert(out@ == mid + fraction_text((scaled % 1_000_000) as nat, (places - 1) as nat));
    }
}

/// Writes a number of millionths as a decimal behind what the string holds.
pub fn push_decimal(out: &mut String, v: i64)
    ensures
        final(out)@ == old(out)@ + decimal_text(v as int),
{
    let magnitude: u64 = if v < 0 {
        out.append("-");
        proof {
            reveal_strlit("-");
        }
        assert(out@ == old(out)@ + seq!['-']);
        (-(v + 1)) as u64 + 1
    } else {
        assert(out@ == old(out)@ + Seq::<char>::empty());
        v as u64
    };
    let ghost signed = out@;
    push_natural(out, magnitude / 1_000_000);
    let fraction: u64 = magnitude % 1_000_000;
    if fraction != 0 {
        out.append(".");
        proof {
            reveal_strlit(".");
        }
        assert(out@ == signed + natural_text((magnitude / 1_000_000) as nat) + seq!['.']);
        push_fraction(out, fraction, 6);
    }
}

/// A natural number in decimal.
pub fn natural_string(n: u64) -> (s: String)
    ensures
        s@ == natural_text(n as nat),
{
    let mut s = String::new();
    push_natural(&mut s, n);
    s
}

/// A number of millionths as a decimal.
pub fn decimal_string(v: i64) -> (s: String)
    ensures
        s@ == decimal_text(v as int),
{
    let mut s = String::new();
    push_decimal(&mut s, v);
    s
}

} // verus!
