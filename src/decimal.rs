//! Fixed-point decimal numbers: a signed mantissa scaled by a power of ten.
//!
//! Exact operations (construction, sign, absolute value, conversion to and
//! from smallest-unit integers) are implemented and proved here. Rounding
//! arithmetic is delegated to `rust_decimal`, whose results are named below.

use vstd::prelude::*;

verus! {

/// Largest mantissa magnitude of a decimal: 2^96 - 1.
pub const MAX_MANTISSA: i128 = 0xFFFF_FFFF_FFFF_FFFF_FFFF_FFFF;

/// Largest number of fractional digits of a decimal.
pub const MAX_SCALE: u32 = 28;

/// 10 to the power `n`.
pub open spec fn pow10(n: nat) -> nat
    decreases n,
{
    if n == 0 {
        1
    } else {
        10 * pow10((n - 1) as nat)
    }
}

pub proof fn lemma_pow10_positive(n: nat)
    ensures
        pow10(n) >= 1,
    decreases n,
{
    if n > 0 {
        lemma_pow10_positive((n - 1) as nat);
    }
}

/// `pow10(a + b) == pow10(a) * pow10(b)`.
pub proof fn lemma_pow10_add(a: nat, b: nat)
    ensures
        pow10(a + b) == pow10(a) * pow10(b),
    decreases a,
{
    if a > 0 {
        lemma_pow10_add((a - 1) as nat, b);
        let x = pow10((a - 1) as nat);
        let y = pow10(b);
        assert(pow10(a + b) == 10 * pow10((a - 1 + b) as nat));
        assert(pow10((a - 1) as nat + b) == x * y);
        assert(((a - 1) as nat + b) as int == (a - 1 + b) as int);
        assert(10 * (x * y) == (10 * x) * y) by (nonlinear_arith);
        assert(pow10(a) == 10 * x);
    } else {
        assert(pow10(a) == 1);
    }
}

/// `pow10` is monotone.
pub proof fn lemma_pow10_mono(a: nat, b: nat)
    requires
        a <= b,
    ensures
        pow10(a) <= pow10(b),
{
    lemma_pow10_add(a, (b - a) as nat);
    lemma_pow10_positive(a);
    lemma_pow10_positive((b - a) as nat);
    assert(pow10(a) * pow10((b - a) as nat) >= pow10(a)) by (nonlinear_arith)
        requires
            pow10((b - a) as nat) >= 1,
            pow10(a) >= 1,
    ;
}

/// `10^38` fits in `u128`.
pub proof fn lemma_pow10_38()
    ensures
        pow10(38) == 100000000000000000000000000000000000000nat,
{
    reveal_with_fuel(pow10, 39);
}

/// Rounds `n / d` to the nearest integer, ties to the even neighbour.
pub open spec fn round_half_even(n: nat, d: nat) -> nat
    recommends
        d > 0,
{
    let q = n / d;
    let r = n % d;
    if 2 * r > d || (2 * r == d && q % 2 == 1) {
        q + 1
    } else {
        q
    }
}

/// A decimal number `mantissa * 10^-scale`.
#[derive(Clone, Copy, Debug, PartialEq, Eq, Structural)]
pub struct Dec {
    pub mantissa: i128,
    pub scale: u32,
}

impl Dec {
    /// Within the range that `rust_decimal` represents.
    pub open spec fn wf(self) -> bool {
        -MAX_MANTISSA <= self.mantissa <= MAX_MANTISSA && self.scale <= MAX_SCALE
    }

    /// Denominator of the value: `10^scale`.
    pub open spec fn den(self) -> nat {
        pow10(self.scale as nat)
    }

    /// Two decimals denote the same rational number.
    pub open spec fn same_as(self, other: Dec) -> bool {
        self.mantissa * other.den() == other.mantissa * self.den()
    }

    /// The value is an integer `n`.
    pub open spec fn equals_int(self, n: int) -> bool {
        self.mantissa == n * self.den()
    }

    pub fn new(mantissa: i128, scale: u32) -> (r: Dec)
        ensures
            r.mantissa == mantissa,
            r.scale == scale,
    {
        Dec { mantissa, scale }
    }

    pub fn zero() -> (r: Dec)
        ensures
            r.mantissa == 0,
            r.scale == 0,
            r.wf(),
    {
        Dec { mantissa: 0, scale: 0 }
    }

    pub fn from_i64(n: i64) -> (r: Dec)
        ensures
            r.mantissa == n,
            r.scale == 0,
            r.wf(),
    {
        Dec { mantissa: n as i128, scale: 0 }
    }

    /// An unsigned integer as a decimal; `None` when it exceeds the mantissa range.
    pub fn from_u128(n: u128) -> (r: Option<Dec>)
        ensures
            n <= MAX_MANTISSA <==> r is Some,
            r is Some ==> r->0.mantissa == n && r->0.scale == 0 && r->0.wf(),
    {
        if n <= MAX_MANTISSA as u128 {
            Some(Dec { mantissa: n as i128, scale: 0 })
        } else {
            None
        }
    }

    /// `n * 10^-scale` for an unsigned integer `n` of smallest units;
    /// `None` when `n` exceeds the mantissa range or `scale` the largest scale.
    pub fn from_units(n: u128, scale: u32) -> (r: Option<Dec>)
        ensures
            (n <= MAX_MANTISSA && scale <= MAX_SCALE) <==> r is Some,
            r is Some ==> r->0.mantissa == n && r->0.scale == scale && r->0.wf(),
    {
        if n <= MAX_MANTISSA as u128 && scale <= MAX_SCALE {
            Some(Dec { mantissa: n as i128, scale })
        } else {
            None
        }
    }

    pub fn is_positive(&self) -> (r: bool)
        ensures
            r == (self.mantissa > 0),
    {
        self.mantissa > 0
    }

    pub fn is_zero(&self) -> (r: bool)
        ensures
            r == (self.mantissa == 0),
    {
        self.mantissa == 0
    }

    /// Absolute value, exact.
    pub fn abs(&self) -> (r: Dec)
        requires
            self.wf(),
        ensures
            r.wf(),
            r.scale == self.scale,
            r.mantissa == if self.mantissa < 0 { -self.mantissa } else { self.mantissa as int },
    {
        if self.mantissa < 0 {
            Dec { mantissa: -self.mantissa, scale: self.scale }
        } else {
            *self
        }
    }
}

/// `10^k` as an unsigned integer.
pub fn pow10_u128(k: u32) -> (r: u128)
    requires
        k <= 38,
    ensures
        r == pow10(k as nat),
{
    let mut r: u128 = 1;
    let mut i: u32 = 0;
    while i < k
        invariant
            i <= k <= 38,
            r == pow10(i as nat),
        decreases k - i,
    {
        proof {
            lemma_pow10_mono((i + 1) as nat, 38);
            lemma_pow10_38();
        }
        r = r * 10;
        i = i + 1;
    }
    r
}


/// `d * 10^decimals` as a count of smallest units: exact when `d` has at most
/// `decimals` fractional digits, else rounded to the nearest integer, ties to even.
pub open spec fn units_of(d: Dec, decimals: nat) -> int {
    if d.scale <= decimals {
        d.mantissa * pow10((decimals - d.scale) as nat)
    } else {
        round_half_even(d.mantissa as nat, pow10((d.scale - decimals) as nat)) as int
    }
}

/// Converts a non-negative decimal amount to smallest units (`10^-decimals`),
/// rounding half to even; `None` for a negative amount or one beyond `u128`.
pub fn to_units(d: Dec, decimals: u32) -> (r: Option<u128>)
    requires
        d.wf(),
        decimals <= 38,
    ensures
        r is Some <==> (d.mantissa >= 0 && units_of(d, decimals as nat) <= u128::MAX),
        r is Some ==> r->0 == units_of(d, decimals as nat),
{
    if d.mantissa < 0 {
        return None;
    }
    let m = d.mantissa as u128;
    if d.scale <= decimals {
        let f = pow10_u128(decimals - d.scale);
        m.checked_mul(f)
    } else {
        let f = pow10_u128(d.scale - decimals);
        proof {
            lemma_pow10_positive((d.scale - decimals) as nat);
            lemma_pow10_mono((d.scale - decimals) as nat, 38);
            lemma_pow10_38();
        }
        let q = m / f;
        let rem = m % f;
        if 2 * rem > f || (2 * rem == f && q % 2 == 1) {
            Some(q + 1)
        } else {
            Some(q)
        }
    }
}

impl Dec {
    /// Parses decimal text such as `"10"` or `"0.25"`; text that is not a
    /// decimal in range is a `NumericConversionError`.
    pub fn parse(text: &str) -> (r: Result<Dec, crate::error::ArgusError>)
        ensures
            r == crate::error::numeric(parsed_decimal(text@)),
            r is Ok ==> r->Ok_0.wf(),
    {
        match parse_decimal(text) {
            Some(d) => Ok(d),
            None => Err(crate::error::ArgusError::NumericConversionError),
        }
    }
}

/// What `rust_decimal` gives for `a + b`.
pub uninterp spec fn decimal_sum(a: Dec, b: Dec) -> Option<Dec>;

/// What `rust_decimal` gives for `a - b`.
pub uninterp spec fn decimal_difference(a: Dec, b: Dec) -> Option<Dec>;

/// What `rust_decimal` gives for `a * b`.
pub uninterp spec fn decimal_product(a: Dec, b: Dec) -> Option<Dec>;

/// What `rust_decimal` gives for `a / b`.
pub uninterp spec fn decimal_quotient(a: Dec, b: Dec) -> Option<Dec>;

/// What `rust_decimal` parses from the text `s`.
pub uninterp spec fn parsed_decimal(s: Seq<char>) -> Option<Dec>;

/// Relies on `rust_decimal::Decimal::checked_add`: the sum rounded into the
/// decimal range, `None` on overflow; operands outside the range give `None`.
/// Operands of one scale whose exact sum fits are added exactly, at that scale.
#[verifier::external_body]
pub(crate) fn checked_add(a: Dec, b: Dec) -> (r: Option<Dec>)
    ensures
        r == decimal_sum(a, b),
        r is Some ==> r->0.wf(),
        a.wf() && b.wf() && a.scale == b.scale && -MAX_MANTISSA <= a.mantissa + b.mantissa <= MAX_MANTISSA
            ==> r == Some(Dec { mantissa: (a.mantissa + b.mantissa) as i128, scale: a.scale }),
{
    let x = rust_decimal::Decimal::try_from_i128_with_scale(a.mantissa, a.scale).ok()?;
    let y = rust_decimal::Decimal::try_from_i128_with_scale(b.mantissa, b.scale).ok()?;
    let z = x.checked_add(y)?;
    Some(Dec { mantissa: z.mantissa(), scale: z.scale() })
}

/// Relies on `rust_decimal::Decimal::checked_sub`: the difference rounded into
/// the decimal range, `None` on overflow; operands outside the range give
/// `None`. Operands of one scale whose exact difference fits are subtracted
/// exactly, at that scale.
#[verifier::external_body]
pub(crate) fn checked_sub(a: Dec, b: Dec) -> (r: Option<Dec>)
    ensures
        r == decimal_difference(a, b),
        r is Some ==> r->0.wf(),
        a.wf() && b.wf() && a.scale == b.scale && -MAX_MANTISSA <= a.mantissa - b.mantissa <= MAX_MANTISSA
            ==> r == Some(Dec { mantissa: (a.mantissa - b.mantissa) as i128, scale: a.scale }),
{
    let x = rust_decimal::Decimal::try_from_i128_with_scale(a.mantissa, a.scale).ok()?;
    let y = rust_decimal::Decimal::try_from_i128_with_scale(b.mantissa, b.scale).ok()?;
    let z = x.checked_sub(y)?;
    Some(Dec { mantissa: z.mantissa(), scale: z.scale() })
}

/// Relies on `rust_decimal::Decimal::checked_mul`: the product rounded into the
/// decimal range, `None` on overflow; operands outside the range give `None`.
/// A product whose mantissa fits 96 bits at the summed scale (at most 28) is
/// exact at that scale; a zero product is zero at scale 0.
#[verifier::external_body]
pub(crate) fn checked_mul(a: Dec, b: Dec) -> (r: Option<Dec>)
    ensures
        r == decimal_product(a, b),
        r is Some ==> r->0.wf(),
        a.wf() && b.wf() && a.scale + b.scale <= MAX_SCALE && -MAX_MANTISSA <= a.mantissa * b.mantissa <= MAX_MANTISSA
            ==> r == Some(Dec {
                mantissa: (a.mantissa * b.mantissa) as i128,
                scale: if a.mantissa * b.mantissa == 0 { 0 } else { (a.scale + b.scale) as u32 },
            }),
{
    let x = rust_decimal::Decimal::try_from_i128_with_scale(a.mantissa, a.scale).ok()?;
    let y = rust_decimal::Decimal::try_from_i128_with_scale(b.mantissa, b.scale).ok()?;
    let z = x.checked_mul(y)?;
    Some(Dec { mantissa: z.mantissa(), scale: z.scale() })
}

/// Relies on `rust_decimal::Decimal::checked_div`: the quotient rounded to at
/// most 28 fractional digits, `None` for a zero divisor or on overflow.
/// Operands outside the range give `None`.
#[verifier::external_body]
pub(crate) fn checked_div(a: Dec, b: Dec) -> (r: Option<Dec>)
    ensures
        r == decimal_quotient(a, b),
        r is Some ==> r->0.wf(),
        b.mantissa == 0 ==> r is None,
{
    let x = rust_decimal::Decimal::try_from_i128_with_scale(a.mantissa, a.scale).ok()?;
    let y = rust_decimal::Decimal::try_from_i128_with_scale(b.mantissa, b.scale).ok()?;
    let z = x.checked_div(y)?;
    Some(Dec { mantissa: z.mantissa(), scale: z.scale() })
}

/// Relies on `<rust_decimal::Decimal as FromStr>::from_str`: decimal text such
/// as `"3012.25"` or `"-0.5"`, `None` when the text is not a decimal in range.
#[verifier::external_body]
pub(crate) fn parse_decimal(s: &str) -> (r: Option<Dec>)
    ensures
        r == parsed_decimal(s@),
        r is Some ==> r->0.wf(),
{
    let z = <rust_decimal::Decimal as std::str::FromStr>::from_str(s).ok()?;
    Some(Dec { mantissa: z.mantissa(), scale: z.scale() })
}

} // verus!
