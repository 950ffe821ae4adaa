use vstd::prelude::*;

verus! {

/// The ASCII digit for `d` in 0..=9.
pub open spec fn digit_char(d: int) -> char {
    (d + 48) as char
}

/// Decimal digits of `n`, most significant first, without leading zeros.
pub open spec fn decimal(n: nat) -> Seq<char>
    decreases n,
{
    if n < 10 {
        seq![digit_char(n as int)]
    } else {
        decimal(n / 10).push(digit_char((n % 10) as int))
    }
}

/// Decimal text of a signed integer: a minus sign before the digits of a negative one.
pub open spec fn signed_decimal(i: int) -> Seq<char> {
    if i < 0 {
        seq!['-'] + decimal((-i) as nat)
    } else {
        decimal(i as nat)
    }
}

/// `num / den` in hundredths, rounded to the nearest, halves upward.
pub open spec fn hundredths(num: int, den: int) -> int {
    (200 * num + den) / (2 * den)
}

/// Text of `num / den` with exactly two decimals; a zero denominator gives `inf`, or `NaN` when
/// the numerator is zero too, as for the floating-point quotient.
pub open spec fn fixed2(num: nat, den: nat) -> Seq<char> {
    if den == 0 {
        if num == 0 {
            seq!['N', 'a', 'N']
        } else {
            seq!['i', 'n', 'f']
        }
    } else {
        let c = hundredths(num as int, den as int);
        decimal((c / 100) as nat) + seq!['.', digit_char((c % 100) / 10), digit_char(c % 10)]
    }
}

/// An exact non-negative quantity `num / den`.
#[derive(Clone, Copy, Debug, PartialEq, Eq, Structural)]
pub struct Ratio {
    pub num: u64,
    pub den: u128,
}

fn digit_str(d: u8) -> (r: &'static str)
    requires
        d < 10,
    ensures
        r@ == seq![digit_char(d as int)],
{
    proof {
        reveal_strlit("0");
        reveal_strlit("1");
        reveal_strlit("2");
        reveal_strlit("3");
        reveal_strlit("4");
        reveal_strlit("5");
        reveal_strlit("6");
        reveal_strlit("7");
        reveal_strlit("8");
        reveal_strlit("9");
    }
    match d {
        0 => "0",
        1 => "1",
        2 => "2",
        3 => "3",
        4 => "4",
        5 => "5",
        6 => "6",
        7 => "7",
        8 => "8",
        _ => "9",
    }
}

/// Decimal text of `n`.
pub fn decimal_text(n: u128) -> (r: String)
    ensures
        r@ == decimal(n as nat),
{
    let mut m: u128 = n;
    let mut acc = String::new();
    loop
        invariant_except_break
            m > 0 ==> decimal(n as nat) == decimal(m as nat) + acc@,
            m == 0 ==> n == 0 && acc@.len() == 0,
        ensures
            decimal(n as nat) == acc@,
        decreases m,
    {
        let d = (m % 10) as u8;
        let next = m / 10;
        let digit = String::from_str(digit_str(d));
        let ghost old_acc = acc@;
        acc = digit.concat(acc.as_str());
        proof {
            if m >= 10 {
                assert(decimal(m as nat) == decimal(next as nat).push(digit_char(d as int)));
                assert(decimal(next as nat) + acc@ =~= decimal(next as nat).push(
                    digit_char(d as int),
                ) + old_acc);
            } else {
                assert(decimal(m as nat) == seq![digit_char(d as int)]);
                assert(acc@ =~= seq![digit_char(d as int)] + old_acc);
                assert(decimal(n as nat) =~= acc@);
            }
        }
        m = next;
        if m == 0 {
            break;
        }
    }
    acc
}

/// Decimal text of a signed integer.
pub fn signed_decimal_text(i: i64) -> (r: String)
    ensures
        r@ == signed_decimal(i as int),
{
    if i < 0 {
        let magnitude = (0i128 - i as i128) as u128;
        let digits = decimal_text(magnitude);
        let sign = String::from_str("-");
        proof {
            reveal_strlit("-");
        }
        sign.concat(digits.as_str())
    } else {
        decimal_text(i as u128)
    }
}

impl Ratio {
    /// The quotient written with two decimals, rounded to the nearest hundredth, halves upward.
    pub fn fixed2_text(&self) -> (r: String)
        ensures
            r@ == fixed2(self.num as nat, self.den as nat),
    {
        if self.den == 0 {
            if self.num == 0 {
                proof {
                    reveal_strlit("NaN");
                }
                String::from_str("NaN")
            } else {
                proof {
                    reveal_strlit("inf");
                }
                String::from_str("inf")
            }
        } else {
            let num = self.num as u128;
            let c: u128 = if self.den >= u128::MAX / 4 {
                assert(hundredths(num as int, self.den as int) == 0) by (nonlinear_arith)
                    requires
                        num <= u64::MAX,
                        self.den >= u128::MAX / 4,
                ;
                0
            } else {
                (200 * num + self.den) / (2 * self.den)
            };
            let whole = decimal_text(c / 100);
            let tens = digit_str(((c % 100) / 10) as u8);
            let units = digit_str((c % 10) as u8);
            proof {
                reveal_strlit(".");
            }
            let text = whole.concat(".").concat(tens).concat(units);
            assert(text@ =~= fixed2(self.num as nat, self.den as nat));
            text
        }
    }
}

} // verus!
