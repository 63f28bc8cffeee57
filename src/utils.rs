//! Small helpers shared by the calculators.

use vstd::prelude::*;
use vstd::string::{StringExecFns, StringSliceAdditionalSpecFns};
use crate::decimal::{checked_add, decimal_sum, pow10, pow10_u128, lemma_pow10_mono, lemma_pow10_38, MAX_MANTISSA, MAX_SCALE, checked_div, checked_mul, checked_sub, decimal_difference, decimal_product, decimal_quotient, Dec};
use crate::error::{numeric, ArgusError};

verus! {

/// `(amount_in * spot_price - amount_out) / (amount_in * spot_price) * 100`,
/// zero when the expected output is zero; `None` when a step overflows.
pub open spec fn spec_price_impact(amount_in: Dec, amount_out: Dec, spot_price: Dec) -> Option<Dec> {
    match decimal_product(amount_in, spot_price) {
        None => None,
        Some(expected) => if expected.mantissa == 0 {
            Some(Dec { mantissa: 0, scale: 0 })
        } else {
            match decimal_difference(expected, amount_out) {
                None => None,
                Some(shortfall) => match decimal_quotient(shortfall, expected) {
                    None => None,
                    Some(ratio) => decimal_product(ratio, Dec { mantissa: 100, scale: 0 }),
                },
            }
        },
    }
}

/// Percentage by which `amount_out` falls short of what `spot_price` promises
/// for `amount_in`; positive when the trade receives less than spot.
pub fn calculate_price_impact(amount_in: Dec, amount_out: Dec, spot_price: Dec) -> (r: Result<Dec, ArgusError>)
    ensures
        r == numeric(spec_price_impact(amount_in, amount_out, spot_price)),
{
    let expected = match checked_mul(amount_in, spot_price) {
        Some(e) => e,
        None => return Err(ArgusError::NumericConversionError),
    };
    if expected.is_zero() {
        return Ok(Dec::zero());
    }
    let shortfall = match checked_sub(expected, amount_out) {
        Some(d) => d,
        None => return Err(ArgusError::NumericConversionError),
    };
    let ratio = match checked_div(shortfall, expected) {
        Some(q) => q,
        None => return Err(ArgusError::NumericConversionError),
    };
    match checked_mul(ratio, Dec::from_i64(100)) {
        Some(p) => Ok(p),
        None => Err(ArgusError::NumericConversionError),
    }
}

/// What `str::to_lowercase` gives for `s`.
pub uninterp spec fn lowercase_of(s: Seq<char>) -> Seq<char>;

/// Relies on `str::to_lowercase`: the lowercase form of each character.
#[verifier::external_body]
pub(crate) fn to_lowercase(s: &str) -> (r: String)
    ensures
        r@ == lowercase_of(s@),
{
    s.to_lowercase()
}

/// `0x` followed by 40 more bytes.
pub open spec fn is_address_text(b: Seq<u8>) -> bool {
    b.len() == 42 && b[0] == 0x30 && b[1] == 0x78
}

/// Normalises an account address to lower case; anything but `0x` and 40
/// more characters is a `ConfigError`.
pub fn format_address(address: &str) -> (r: Result<String, ArgusError>)
    ensures
        is_address_text(address.spec_bytes()) ==> r is Ok && r->Ok_0@ == lowercase_of(address@),
        !is_address_text(address.spec_bytes()) ==> r is Err && r->Err_0 is ConfigError,
{
    let b = address.as_bytes();
    if b.len() != 42 || b[0] != 0x30 || b[1] != 0x78 {
        return Err(ArgusError::ConfigError(String::from_str("Invalid address format: ").concat(address)));
    }
    Ok(to_lowercase(address))
}

/// `2^48`; the Q96 scale is divided out in two steps so that each divisor
/// fits the decimal range.
pub const HALF_Q96: i128 = 281_474_976_710_656;

/// `(sqrt_price_x96 / 2^96)^2 * 10^(decimals0 - decimals1)`: the price of
/// asset 0 in human units of asset 1, with up to 28 fractional digits. The
/// first division by `2^48` splits off the whole part exactly.
pub open spec fn spec_q96_price(sqrt_price_x96: u128, decimals0: u8, decimals1: u8) -> Option<Dec> {
    let half = Dec { mantissa: HALF_Q96, scale: 0 };
    let k = if decimals0 >= decimals1 { decimals0 - decimals1 } else { decimals1 - decimals0 };
    let factor = Dec { mantissa: pow10(k as nat) as i128, scale: 0 };
    let whole = Dec { mantissa: (sqrt_price_x96 / HALF_Q96 as u128) as i128, scale: 0 };
    let rest = Dec { mantissa: (sqrt_price_x96 % HALF_Q96 as u128) as i128, scale: 0 };
    if k > MAX_SCALE {
        None
    } else {
        match decimal_quotient(rest, half) {
            None => None,
            Some(fraction) => match decimal_sum(whole, fraction) {
            None => None,
            Some(h) => match decimal_quotient(h, half) {
                None => None,
                Some(root) => match decimal_product(root, root) {
                    None => None,
                    Some(raw) => if decimals0 >= decimals1 {
                        decimal_product(raw, factor)
                    } else {
                        decimal_quotient(raw, factor)
                    },
                },
            },
            },
        }
    }
}

pub fn q96_price(sqrt_price_x96: u128, decimals0: u8, decimals1: u8) -> (r: Result<Dec, ArgusError>)
    ensures
        r == numeric(spec_q96_price(sqrt_price_x96, decimals0, decimals1)),
{
    let k: u8 = if decimals0 >= decimals1 { decimals0 - decimals1 } else { decimals1 - decimals0 };
    if k as u32 > MAX_SCALE {
        return Err(ArgusError::NumericConversionError);
    }
    let factor = Dec::new(pow10_u128(k as u32) as i128, 0);
    proof {
        lemma_pow10_mono(k as nat, 38);
        lemma_pow10_38();
    }
    let half = Dec::new(HALF_Q96, 0);
    let whole = Dec::new((sqrt_price_x96 / HALF_Q96 as u128) as i128, 0);
    let rest = Dec::new((sqrt_price_x96 % HALF_Q96 as u128) as i128, 0);
    let fraction = match checked_div(rest, half) {
        Some(d) => d,
        None => return Err(ArgusError::NumericConversionError),
    };
    let h = match checked_add(whole, fraction) {
        Some(d) => d,
        None => return Err(ArgusError::NumericConversionError),
    };
    let root = match checked_div(h, half) {
        Some(d) => d,
        None => return Err(ArgusError::NumericConversionError),
    };
    let raw = match checked_mul(root, root) {
        Some(d) => d,
        None => return Err(ArgusError::NumericConversionError),
    };
    let price = if decimals0 >= decimals1 { checked_mul(raw, factor) } else { checked_div(raw, factor) };
    match price {
        Some(d) => Ok(d),
        None => Err(ArgusError::NumericConversionError),
    }
}

/// Converts a Q64.96 sqrt price to the price of asset 0 in human units of
/// asset 1. A zero sqrt price, or one whose square over `2^96` is below one
/// (a sqrt price under `2^48`), is a `CalculationError`.
pub fn sqrt_price_x96_to_price(sqrt_price_x96: u128, decimals0: u8, decimals1: u8) -> (r: Result<Dec, ArgusError>)
    ensures
        sqrt_price_x96 < 0x1_0000_0000_0000 ==> r is Err && r->Err_0 is CalculationError,
        sqrt_price_x96 >= 0x1_0000_0000_0000 ==> r == numeric(spec_q96_price(sqrt_price_x96, decimals0, decimals1)),
{
    if sqrt_price_x96 == 0 {
        return Err(ArgusError::CalculationError(String::from_str("Invalid sqrt price: zero")));
    }
    if sqrt_price_x96 < 0x1_0000_0000_0000 {
        return Err(ArgusError::CalculationError(String::from_str("Price calculation resulted in zero")));
    }
    q96_price(sqrt_price_x96, decimals0, decimals1)
}

} // verus!
