//! Decimal fixed-point numbers and their text.
//!
//! Every quantity of the library that is not a whole number (a plot
//! coordinate, an average in milliseconds, a rate in percent) is held as a
//! count of millionths, so that all arithmetic is exact integer arithmetic.

use vstd::prelude::*;
use vstd::arithmetic::div_mod::lemma_fundamental_div_mod;
use vstd::arithmetic::div_mod::lemma_fundamental_div_mod_converse;

verus! {

/// Millionths in one whole unit.
pub const MILLION: i128 = 1_000_000;

/// A decimal number with six fractional digits, held as a count of
/// millionths: `Fixed { millionths: 1_500_000 }` is 1.5.
#[derive(Clone, Copy, Debug, PartialEq, Eq, Structural)]
pub struct Fixed {
    pub millionths: i128,
}

impl Fixed {
    /// The whole number `units`.
    pub open spec fn spec_from_units(units: int) -> int {
        units * 1_000_000
    }

    /// The fixed-point form of a whole number.
    pub fn from_units(units: i64) -> (value: Fixed)
        ensures
            value.millionths == Self::spec_from_units(units as int),
    {
        Fixed { millionths: units as i128 * MILLION }
    }
}

/// The decimal digit `d`, for `0 <= d <= 9`.
pub open spec fn digit_char(d: int) -> char {
    if d == 0 {
        '0'
    } else if d == 1 {
        '1'
    } else if d == 2 {
        '2'
    } else if d == 3 {
        '3'
    } else if d == 4 {
        '4'
    } else if d == 5 {
        '5'
    } else if d == 6 {
        '6'
    } else if d == 7 {
        '7'
    } else if d == 8 {
        '8'
    } else {
        '9'
    }
}

/// The decimal numeral of `n`, without leading zeros.
pub open spec fn decimal_text(n: nat) -> Seq<char>
    decreases n,
{
    if n < 10 {
        seq![digit_char(n as int)]
    } else {
        decimal_text(n / 10) + seq![digit_char((n % 10) as int)]
    }
}

/// The last `width` decimal digits of `n`, padded with zeros on the left.
pub open spec fn padded_decimal_text(n: nat, width: nat) -> Seq<char>
    decreases width,
{
    if width == 0 {
        Seq::<char>::empty()
    } else {
        padded_decimal_text(n / 10, (width - 1) as nat) + seq![digit_char((n % 10) as int)]
    }
}

/// The text of a fixed-point number: an optional minus sign, the whole part,
/// a point and all six fractional digits.
pub open spec fn fixed_text(millionths: int) -> Seq<char> {
    let magnitude: nat = (if millionths < 0 {
        -millionths
    } else {
        millionths
    }) as nat;
    let sign = if millionths < 0 {
        seq!['-']
    } else {
        Seq::<char>::empty()
    };
    sign + decimal_text(magnitude / 1_000_000) + seq!['.'] + padded_decimal_text(
        magnitude % 1_000_000,
        6,
    )
}

/// The quotient of `num` by a positive `den`, rounded towards negative
/// infinity.
pub fn floor_div(num: i128, den: i128) -> (q: i128)
    requires
        den > 0,
    ensures
        q == num / den,
{
    if num >= 0 {
        num / den
    } else {
        let towards_zero: i128 = num / den;
        let rest: i128 = num % den;
        proof {
            let n: int = -num;
            let d: int = den as int;
            lemma_fundamental_div_mod(n, d);
            assert(towards_zero == -(n / d));
            assert(rest == -(n % d));
            if rest == 0 {
                assert(num == towards_zero * d + 0) by (nonlinear_arith)
                    requires
                        n == d * (n / d) + n % d,
                        n % d == 0,
                        towards_zero == -(n / d),
                        num == -n,
                ;
                lemma_fundamental_div_mod_converse(num as int, d, towards_zero as int, 0);
            } else {
                assert(num == (towards_zero - 1) * d + (d - n % d)) by (nonlinear_arith)
                    requires
                        n == d * (n / d) + n % d,
                        towards_zero == -(n / d),
                        num == -n,
                ;
                lemma_fundamental_div_mod_converse(
                    num as int,
                    d,
                    towards_zero - 1,
                    d - n % d,
                );
                assert(n / d <= 0x4000_0000_0000_0000_0000_0000_0000_0000) by (nonlinear_arith)
                    requires
                        n == d * (n / d) + n % d,
                        0 < n % d < d,
                        n <= 0x8000_0000_0000_0000_0000_0000_0000_0000,
                ;
            }
        }
        if rest == 0 {
            towards_zero
        } else {
            towards_zero - 1
        }
    }
}

fn digit_str(d: u8) -> (s: &'static str)
    requires
        d < 10,
    ensures
        s@ == seq![digit_char(d as int)],
{
    proof {
        reveal_strlit("0");
        reveal_strlit("1");
        reveal_strlit("2");
        reveal_strlit("3");
        reveal_strlit("4");
        reveal_strlit("5");
        reveal_strlit("6");
        reveal_strlit("7");
        reveal_strlit("8");
        reveal_strlit("9");
    }
    let s = if d == 0 {
        "0"
    } else if d == 1 {
        "1"
    } else if d == 2 {
        "2"
    } else if d == 3 {
        "3"
    } else if d == 4 {
        "4"
    } else if d == 5 {
        "5"
    } else if d == 6 {
        "6"
    } else if d == 7 {
        "7"
    } else if d == 8 {
        "8"
    } else {
        "9"
    };
    assert(s@ =~= seq![digit_char(d as int)]);
    s
}

/// Appends the decimal numeral of `n` to `text`.
pub fn push_decimal(text: &mut String, n: u128)
    ensures
        final(text)@ == old(text)@ + decimal_text(n as nat),
    decreases n,
{
    if n >= 10 {
        push_decimal(text, n / 10);
    }
    let digit: u8 = (n % 10) as u8;
    text.append(digit_str(digit));
    assert(text@ =~= old(text)@ + decimal_text(n as nat));
}

/// Appends the last `width` decimal digits of `n` to `text`, padded with
/// zeros on the left.
pub fn push_padded_decimal(text: &mut String, n: u128, width: u8)
    ensures
        final(text)@ == old(text)@ + padded_decimal_text(n as nat, width as nat),
    decreases width,
{
    if width > 0 {
        push_padded_decimal(text, n / 10, width - 1);
        let digit: u8 = (n % 10) as u8;
        text.append(digit_str(digit));
    }
    assert(text@ =~= old(text)@ + padded_decimal_text(n as nat, width as nat));
}

impl Fixed {
    /// The number as text, with all six fractional digits.
    pub fn to_text(&self) -> (text: String)
        ensures
            text@ == fixed_text(self.millionths as int),
    {
        let mut text = String::new();
        let magnitude: u128 = if self.millionths < 0 {
            text.append("-");
            (-(self.millionths + 1)) as u128 + 1
        } else {
            self.millionths as u128
        };
        proof {
            reveal_strlit("-");
            reveal_strlit(".");
        }
        let ghost sign = text@;
        assert(sign =~= if self.millionths < 0 {
            seq!['-']
        } else {
            Seq::<char>::empty()
        });
        push_decimal(&mut text, magnitude / 1_000_000);
        text.append(".");
        push_padded_decimal(&mut text, magnitude % 1_000_000, 6);
        assert(text@ =~= fixed_text(self.millionths as int));
        text
    }
}

} // verus!
