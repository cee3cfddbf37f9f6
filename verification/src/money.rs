//! Money amounts as the `rust_decimal` crate represents them: a signed mantissa
//! of at most 96 bits and a decimal scale between 0 and 28.  The arithmetic
//! itself is done by `rust_decimal`; this module states what it gives back.
use rust_decimal::Decimal;
use std::str::FromStr;
use vstd::prelude::*;

verus! {

/// Largest scale (number of digits after the point) a decimal can carry.
pub const MAX_SCALE: u32 = 28;

/// Largest magnitude of a mantissa: 2^96 - 1.
pub const MAX_MANTISSA: i128 = 0xFFFF_FFFF_FFFF_FFFF_FFFF_FFFF;

/// A decimal amount `mantissa * 10^(-scale)`.
#[derive(Clone, Copy, Debug, PartialEq, Eq, Structural)]
pub struct Money {
    pub mantissa: i128,
    pub scale: u32,
}

/// `10^n`.
pub open spec fn pow10(n: nat) -> int
    decreases n,
{
    if n == 0 {
        1
    } else {
        10 * pow10((n - 1) as nat)
    }
}

pub open spec fn abs(x: int) -> int {
    if x < 0 {
        -x
    } else {
        x
    }
}

/// A mantissa fits in the 96 bits of a decimal.
pub open spec fn fits(x: int) -> bool {
    abs(x) <= MAX_MANTISSA
}

impl Money {
    /// The mantissa fits in 96 bits and the scale is at most 28.
    pub open spec fn wf(self) -> bool {
        &&& self.scale <= MAX_SCALE
        &&& fits(self.mantissa as int)
    }

    /// The mantissa of this amount written at scale `s` (for `s >= scale`).
    pub open spec fn at_scale(self, s: nat) -> int {
        self.mantissa * pow10((s - self.scale) as nat)
    }

    /// Zero, as `rust_decimal` writes it (`Decimal::ZERO`).
    pub open spec fn spec_zero() -> Money {
        Money { mantissa: 0, scale: 0 }
    }

    /// The amount zero.
    pub fn zero() -> (r: Money)
        ensures
            r == Money::spec_zero(),
            r.wf(),
    {
        Money { mantissa: 0, scale: 0 }
    }

    /// A whole number of units, as `Decimal::from(i32)` gives it.
    pub fn from_i32(n: i32) -> (r: Money)
        ensures
            r == (Money { mantissa: n as i128, scale: 0 }),
            r.wf(),
    {
        Money { mantissa: n as i128, scale: 0 }
    }
}

/// The larger of two scales.
pub open spec fn max_scale(a: u32, b: u32) -> u32 {
    if a >= b {
        a
    } else {
        b
    }
}

/// The product of two non-zero amounts is representable without rounding.
pub open spec fn product_is_exact(a: Money, b: Money) -> bool {
    &&& a.mantissa != 0
    &&& b.mantissa != 0
    &&& fits(a.mantissa * b.mantissa)
    &&& a.scale + b.scale <= MAX_SCALE
}

/// The exact product of two amounts, at the sum of their scales.
pub open spec fn exact_product(a: Money, b: Money) -> Money {
    Money { mantissa: (a.mantissa * b.mantissa) as i128, scale: (a.scale + b.scale) as u32 }
}

/// The sum of two non-zero amounts is representable without rounding at the
/// larger of their scales.
pub open spec fn sum_is_exact(a: Money, b: Money) -> bool {
    let s = max_scale(a.scale, b.scale) as nat;
    &&& a.mantissa != 0
    &&& b.mantissa != 0
    &&& fits(a.at_scale(s))
    &&& fits(b.at_scale(s))
    &&& fits(a.at_scale(s) + b.at_scale(s))
}

/// The exact sum of two amounts, at the larger of their scales.
pub open spec fn exact_sum(a: Money, b: Money) -> Money {
    let s = max_scale(a.scale, b.scale);
    Money { mantissa: (a.at_scale(s as nat) + b.at_scale(s as nat)) as i128, scale: s }
}

/// What `Decimal::checked_mul` returns for two decimals given by mantissa and
/// scale: the (mantissa, scale) of the product, or `None` on overflow.
pub uninterp spec fn decimal_checked_mul(am: i128, a_scale: u32, bm: i128, b_scale: u32) -> Option<(i128, u32)>;

/// What `Decimal::checked_add` returns for two decimals given by mantissa and
/// scale: the (mantissa, scale) of the sum, or `None` on overflow.
pub uninterp spec fn decimal_checked_add(am: i128, a_scale: u32, bm: i128, b_scale: u32) -> Option<(i128, u32)>;

/// What `Decimal::from_str` gives for a text: the (mantissa, scale) of the
/// parsed decimal, or the text of its error.
pub uninterp spec fn decimal_from_str(s: Seq<char>) -> Result<(i128, u32), Seq<char>>;

pub open spec fn as_pair(m: Money) -> (i128, u32) {
    (m.mantissa, m.scale)
}

pub open spec fn digit_char(d: int) -> char {
    if d == 0 { '0' }
    else if d == 1 { '1' }
    else if d == 2 { '2' }
    else if d == 3 { '3' }
    else if d == 4 { '4' }
    else if d == 5 { '5' }
    else if d == 6 { '6' }
    else if d == 7 { '7' }
    else if d == 8 { '8' }
    else { '9' }
}

/// The decimal digits of `n`, most significant first; empty for zero.
pub open spec fn digits(n: nat) -> Seq<char>
    decreases n,
{
    if n == 0 {
        Seq::empty()
    } else {
        digits(n / 10).push(digit_char((n % 10) as int))
    }
}

/// `n` copies of the character `0`.
pub open spec fn zeros(n: nat) -> Seq<char> {
    Seq::new(n, |i: int| '0')
}

/// How `rust_decimal` prints a decimal (its `Display`): an optional minus
/// sign, the whole part (`0` when empty), and, when the scale is positive, a
/// point followed by exactly `scale` digits.
pub open spec fn money_text(m: int, s: nat) -> Seq<char> {
    let d = digits(abs(m) as nat);
    let p = if d.len() < s { zeros((s - d.len()) as nat) + d } else { d };
    let w = p.len() - s;
    let whole = if w == 0 { seq!['0'] } else { p.take(w) };
    let body = if s == 0 { whole } else { whole + seq!['.'] + p.skip(w) };
    if m < 0 { seq!['-'] + body } else { body }
}

/// Calls `Decimal::checked_mul` on the two amounts.
/// Trusted: the result is what `checked_mul` gives; a product with a zero
/// factor is `Decimal::ZERO`; a product of non-zero factors whose mantissa fits
/// in 96 bits and whose scale sum is at most 28 is exact (as the crate's
/// `mul_impl` computes it without rescaling); every decimal it returns is
/// well formed.
#[verifier::external_body]
pub(crate) fn checked_mul(a: Money, b: Money) -> (r: Option<Money>)
    requires
        a.wf(),
        b.wf(),
    ensures
        match r {
            Some(c) => decimal_checked_mul(a.mantissa, a.scale, b.mantissa, b.scale) == Some(as_pair(c)),
            None => decimal_checked_mul(a.mantissa, a.scale, b.mantissa, b.scale) is None,
        },
        r matches Some(c) ==> c.wf(),
        (a.mantissa == 0 || b.mantissa == 0) ==> r == Some(Money::spec_zero()),
        product_is_exact(a, b) ==> r == Some(exact_product(a, b)),
{
    let x = Decimal::from_i128_with_scale(a.mantissa, a.scale);
    let y = Decimal::from_i128_with_scale(b.mantissa, b.scale);
    match x.checked_mul(y) {
        Some(d) => Some(Money { mantissa: d.mantissa(), scale: d.scale() }),
        None => None,
    }
}

/// Calls `Decimal::checked_add` on the two amounts.
/// Trusted: the result is what `checked_add` gives; adding a zero on the left
/// gives the right operand unchanged and adding a zero on the right gives the
/// left operand unchanged; a sum of non-zero operands that fits in 96 bits once
/// both are written at the larger scale is exact at that scale (the crate's
/// `add_impl` only rounds when the aligned sum overflows 96 bits); every
/// decimal it returns is well formed.
#[verifier::external_body]
pub(crate) fn checked_add(a: Money, b: Money) -> (r: Option<Money>)
    requires
        a.wf(),
        b.wf(),
    ensures
        match r {
            Some(c) => decimal_checked_add(a.mantissa, a.scale, b.mantissa, b.scale) == Some(as_pair(c)),
            None => decimal_checked_add(a.mantissa, a.scale, b.mantissa, b.scale) is None,
        },
        r matches Some(c) ==> c.wf(),
        a.mantissa == 0 ==> r == Some(b),
        a.mantissa != 0 && b.mantissa == 0 ==> r == Some(a),
        sum_is_exact(a, b) ==> r == Some(exact_sum(a, b)),
{
    let x = Decimal::from_i128_with_scale(a.mantissa, a.scale);
    let y = Decimal::from_i128_with_scale(b.mantissa, b.scale);
    match x.checked_add(y) {
        Some(d) => Some(Money { mantissa: d.mantissa(), scale: d.scale() }),
        None => None,
    }
}

/// `Decimal::from_str` reads the text back as the decimal `a`.
pub open spec fn reads_back_as(s: Seq<char>, a: Money) -> bool {
    decimal_from_str(s) matches Ok(v) && v == as_pair(a)
}

/// Prints the amount with `Decimal`'s `Display` (`to_string`).
/// Trusted: the text is `money_text` of the mantissa and scale, as the
/// crate's `to_str_internal` writes it when no precision is asked for, and
/// `from_str` reads it back as the same mantissa and scale (the digits, with
/// at most 28 after the point, fit the parser's 96 bits without rounding).
#[verifier::external_body]
pub(crate) fn to_text(a: Money) -> (r: String)
    requires
        a.wf(),
    ensures
        r@ == money_text(a.mantissa as int, a.scale as nat),
        reads_back_as(r@, a),
{
    Decimal::from_i128_with_scale(a.mantissa, a.scale).to_string()
}

/// Parses a decimal with `Decimal::from_str`.
/// Trusted: the result is what `from_str` gives (its error as text); every
/// decimal it returns is well formed.  What text parses to what is not
/// stated here.
#[verifier::external_body]
pub(crate) fn parse_text(s: &str) -> (r: Result<Money, String>)
    ensures
        match r {
            Ok(m) => decimal_from_str(s@) matches Ok(v) && v == as_pair(m) && m.wf(),
            Err(e) => decimal_from_str(s@) matches Err(t) && t == e@,
        },
{
    match Decimal::from_str(s) {
        Ok(d) => Ok(Money { mantissa: d.mantissa(), scale: d.scale() }),
        Err(e) => Err(e.to_string()),
    }
}

} // verus!
