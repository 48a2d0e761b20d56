//! Non-negative decimal amounts with two digits of precision, and the
//! message texts rendered from them.
//!
//! A `Decimal` holds its value as a whole number of hundredths, so that
//! percentage values such as 35 or 12.5 and currency amounts such as 10.00
//! are exact. Rendering follows two formats: percentages print no more
//! fractional digits than are significant ("35% OFF", "12.5% OFF"), while
//! fixed amounts always print two ("$10.00 OFF").

use vstd::prelude::*;

verus! {

/// A non-negative decimal number with two fractional digits, stored as
/// hundredths: `Decimal { hundredths: 3550 }` is the number 35.5.
#[derive(Clone, Copy, PartialEq, Eq, Structural, Debug)]
pub struct Decimal {
    pub hundredths: u64,
}

/// The character for a single decimal digit.
pub open spec fn digit_char(d: nat) -> char {
    if d == 0 {
        '0'
    } else if d == 1 {
        '1'
    } else if d == 2 {
        '2'
    } else if d == 3 {
        '3'
    } else if d == 4 {
        '4'
    } else if d == 5 {
        '5'
    } else if d == 6 {
        '6'
    } else if d == 7 {
        '7'
    } else if d == 8 {
        '8'
    } else {
        '9'
    }
}

/// The usual base-ten rendering of a whole number: most significant digit
/// first, no leading zeros (a single "0" for zero itself).
pub open spec fn dec_digits(n: nat) -> Seq<char>
    decreases n,
{
    if n < 10 {
        seq![digit_char(n)]
    } else {
        dec_digits(n / 10) + seq![digit_char(n % 10)]
    }
}

/// The fractional part of a percentage rendering: nothing when the value is
/// whole, one digit when tenths suffice, two digits otherwise.
pub open spec fn fraction_digits(frac: nat) -> Seq<char> {
    if frac == 0 {
        Seq::<char>::empty()
    } else if frac % 10 == 0 {
        seq!['.', digit_char(frac / 10)]
    } else {
        seq!['.', digit_char(frac / 10), digit_char(frac % 10)]
    }
}

/// The text of a percentage discount message: the value with no forced
/// fractional digits, then "% OFF".
pub open spec fn percent_message_chars(hundredths: nat) -> Seq<char> {
    dec_digits(hundredths / 100) + fraction_digits(hundredths % 100) + seq!['%', ' ', 'O', 'F', 'F']
}

/// The text of a fixed-amount discount message: a dollar sign, the amount
/// with exactly two fractional digits, then " OFF".
pub open spec fn fixed_message_chars(hundredths: nat) -> Seq<char> {
    seq!['$'] + dec_digits(hundredths / 100) + seq![
        '.',
        digit_char((hundredths % 100) / 10),
        digit_char((hundredths % 100) % 10),
    ] + seq![' ', 'O', 'F', 'F']
}

/// The one-character string for a single decimal digit.
fn digit_str(d: u64) -> (s: &'static str)
    requires
        d < 10,
    ensures
        s@ == seq![digit_char(d as nat)],
{
    proof {
        reveal_strlit("0");
        reveal_strlit("1");
        reveal_strlit("2");
        reveal_strlit("3");
        reveal_strlit("4");
        reveal_strlit("5");
        reveal_strlit("6");
        reveal_strlit("7");
        reveal_strlit("8");
        reveal_strlit("9");
    }
    let s: &'static str = if d == 0 {
        "0"
    } else if d == 1 {
        "1"
    } else if d == 2 {
        "2"
    } else if d == 3 {
        "3"
    } else if d == 4 {
        "4"
    } else if d == 5 {
        "5"
    } else if d == 6 {
        "6"
    } else if d == 7 {
        "7"
    } else if d == 8 {
        "8"
    } else {
        "9"
    };
    proof {
        assert(s@ =~= seq![digit_char(d as nat)]);
    }
    s
}

/// Renders a whole number in base ten, as `dec_digits` describes.
pub fn digits_string(n: u64) -> (s: String)
    ensures
        s@ == dec_digits(n as nat),
    decreases n,
{
    if n < 10 {
        digit_str(n).to_owned()
    } else {
        let mut s = digits_string(n / 10);
        s.append(digit_str(n % 10));
        proof {
            assert(s@ =~= dec_digits(n as nat));
        }
        s
    }
}

impl Decimal {
    /// Renders this value as a percentage discount message, e.g. 3500
    /// hundredths as "35% OFF" and 1250 hundredths as "12.5% OFF".
    pub fn percent_message(&self) -> (s: String)
        ensures
            s@ == percent_message_chars(self.hundredths as nat),
    {
        let whole: u64 = self.hundredths / 100;
        let frac: u64 = self.hundredths % 100;
        let mut s = digits_string(whole);
        if frac != 0 {
            proof {
                reveal_strlit(".");
            }
            s.append(".");
            s.append(digit_str(frac / 10));
            if frac % 10 != 0 {
                s.append(digit_str(frac % 10));
            }
        }
        proof {
            reveal_strlit("% OFF");
        }
        s.append("% OFF");
        proof {
            assert(s@ =~= percent_message_chars(self.hundredths as nat));
        }
        s
    }

    /// Renders this value as a fixed-amount discount message, e.g. 1000
    /// hundredths as "$10.00 OFF".
    pub fn fixed_message(&self) -> (s: String)
        ensures
            s@ == fixed_message_chars(self.hundredths as nat),
    {
        let whole: u64 = self.hundredths / 100;
        let frac: u64 = self.hundredths % 100;
        proof {
            reveal_strlit("$");
            reveal_strlit(".");
            reveal_strlit(" OFF");
        }
        let mut s = "$".to_owned();
        let digits = digits_string(whole);
        s.append(digits.as_str());
        s.append(".");
        s.append(digit_str(frac / 10));
        s.append(digit_str(frac % 10));
        s.append(" OFF");
        proof {
            assert(s@ =~= fixed_message_chars(self.hundredths as nat));
        }
        s
    }
}

} // verus!
