//! Quotes on the constant-product venue (`reserve0 * reserve1 = k`).

use vstd::prelude::*;
use crate::decimal::{checked_div, checked_mul, decimal_product, decimal_quotient, to_units, units_of, Dec};
use crate::dex::{PoolState, SwapQuote};
use crate::error::{numeric, ArgusError};
use crate::utils::{calculate_price_impact, spec_price_impact};

verus! {

/// Share of the input kept after the venue's 1 bp fee, over `FEE_DENOMINATOR`.
pub const FEE_NUMERATOR: u128 = 9999;

pub const FEE_DENOMINATOR: u128 = 10000;

/// Gas units of a swap on this venue.
pub const CONSTANT_PRODUCT_GAS: u64 = 80_000;

/// Fee reported in the venue's pool snapshot.
pub const CONSTANT_PRODUCT_POOL_FEE: u32 = 30;

/// Decimals of the input asset.
pub const INPUT_DECIMALS: u32 = 18;

/// Decimals of the output asset.
pub const OUTPUT_DECIMALS: u32 = 6;

/// Difference of the two assets' decimals, as a power of ten.
pub const DECIMALS_ADJUSTMENT: i64 = 1_000_000_000_000;

/// The input left after the fee.
pub open spec fn fee_adjusted(amount_in: int) -> int {
    amount_in * FEE_NUMERATOR / FEE_DENOMINATOR as int
}

/// Output of the constant-product formula in smallest units, truncated.
pub open spec fn spec_amount_out(amount_in: u128, reserve_in: u128, reserve_out: u128) -> Result<u128, ArgusError> {
    let f = fee_adjusted(amount_in as int);
    if reserve_in == 0 || reserve_out == 0 {
        Err(ArgusError::InsufficientLiquidity)
    } else if amount_in * FEE_NUMERATOR > u128::MAX || f * reserve_out > u128::MAX || reserve_in + f > u128::MAX {
        Err(ArgusError::NumericConversionError)
    } else {
        Ok(((f * reserve_out) / (reserve_in + f)) as u128)
    }
}

/// `fee_adjusted_input * reserve_out / (reserve_in + fee_adjusted_input)`.
pub fn get_amount_out(amount_in: u128, reserve_in: u128, reserve_out: u128) -> (r: Result<u128, ArgusError>)
    ensures
        r == spec_amount_out(amount_in, reserve_in, reserve_out),
{
    if reserve_in == 0 || reserve_out == 0 {
        return Err(ArgusError::InsufficientLiquidity);
    }
    let scaled = match amount_in.checked_mul(FEE_NUMERATOR) {
        Some(v) => v,
        None => return Err(ArgusError::NumericConversionError),
    };
    let amount_in_with_fee = scaled / FEE_DENOMINATOR;
    let numerator = match amount_in_with_fee.checked_mul(reserve_out) {
        Some(v) => v,
        None => return Err(ArgusError::NumericConversionError),
    };
    let denominator = match reserve_in.checked_add(amount_in_with_fee) {
        Some(v) => v,
        None => return Err(ArgusError::NumericConversionError),
    };
    if denominator == 0 {
        return Err(ArgusError::DivisionByZero);
    }
    Ok(numerator / denominator)
}

/// Spot price of the input asset in output-asset units: `reserve1 / reserve0 * 10^12`.
pub open spec fn spec_spot_price(reserve0: u128, reserve1: u128) -> Option<Dec> {
    if reserve0 > crate::decimal::MAX_MANTISSA || reserve1 > crate::decimal::MAX_MANTISSA {
        None
    } else {
        match decimal_quotient(Dec { mantissa: reserve1 as i128, scale: 0 }, Dec { mantissa: reserve0 as i128, scale: 0 }) {
            None => None,
            Some(ratio) => decimal_product(ratio, Dec { mantissa: DECIMALS_ADJUSTMENT as i128, scale: 0 }),
        }
    }
}

/// The quote for `amount_in` human units of the input asset.
pub open spec fn spec_constant_product_quote(reserve0: u128, reserve1: u128, amount_in: Dec, zero_for_one: bool) -> Result<SwapQuote, ArgusError> {
    let (reserve_in, reserve_out) = if zero_for_one { (reserve0, reserve1) } else { (reserve1, reserve0) };
    let units = units_of(amount_in, INPUT_DECIMALS as nat);
    if reserve0 == 0 || reserve1 == 0 {
        Err(ArgusError::InsufficientLiquidity)
    } else if !amount_in.wf() || amount_in.mantissa < 0 {
        Err(ArgusError::NumericConversionError)
    } else if amount_in.mantissa == 0 {
        Err(ArgusError::InvalidTradeSize)
    } else if units > u128::MAX {
        Err(ArgusError::NumericConversionError)
    } else {
        match spec_amount_out(units as u128, reserve_in, reserve_out) {
            Err(e) => Err(e),
            Ok(out) => if out > crate::decimal::MAX_MANTISSA {
                Err(ArgusError::NumericConversionError)
            } else {
                let amount_out = Dec { mantissa: out as i128, scale: OUTPUT_DECIMALS };
                match (spec_spot_price(reserve0, reserve1), decimal_quotient(amount_out, amount_in)) {
                    (Some(spot), Some(effective_price)) => match spec_price_impact(amount_in, amount_out, spot) {
                        Some(price_impact) => Ok(SwapQuote { amount_out, effective_price, price_impact, gas_estimate: CONSTANT_PRODUCT_GAS }),
                        None => Err(ArgusError::NumericConversionError),
                    },
                    _ => Err(ArgusError::NumericConversionError),
                }
            },
        }
    }
}

fn spot_price(reserve0: u128, reserve1: u128) -> (r: Result<Dec, ArgusError>)
    ensures
        r == numeric(spec_spot_price(reserve0, reserve1)),
{
    let r0 = match Dec::from_u128(reserve0) {
        Some(d) => d,
        None => return Err(ArgusError::NumericConversionError),
    };
    let r1 = match Dec::from_u128(reserve1) {
        Some(d) => d,
        None => return Err(ArgusError::NumericConversionError),
    };
    let ratio = match checked_div(r1, r0) {
        Some(d) => d,
        None => return Err(ArgusError::NumericConversionError),
    };
    match checked_mul(ratio, Dec::from_i64(DECIMALS_ADJUSTMENT)) {
        Some(d) => Ok(d),
        None => Err(ArgusError::NumericConversionError),
    }
}

/// Quotes a swap of `amount_in` (human units of the 18-decimal asset when
/// `zero_for_one`) against reserves `(reserve0, reserve1)`; the output is
/// expressed in units of the 6-decimal asset. A zero reserve is rejected
/// whatever the amount; a negative amount cannot be converted to smallest
/// units, and a zero amount is refused as a quote request.
pub fn constant_product_quote(reserve0: u128, reserve1: u128, amount_in: Dec, zero_for_one: bool) -> (r: Result<SwapQuote, ArgusError>)
    ensures
        r == spec_constant_product_quote(reserve0, reserve1, amount_in, zero_for_one),
        reserve0 == 0 || reserve1 == 0 ==> r == Err::<SwapQuote, ArgusError>(ArgusError::InsufficientLiquidity),
        reserve0 > 0 && reserve1 > 0 && amount_in.mantissa < 0 ==> r == Err::<SwapQuote, ArgusError>(ArgusError::NumericConversionError),
        reserve0 > 0 && reserve1 > 0 && amount_in.mantissa == 0 && amount_in.scale <= crate::decimal::MAX_SCALE
            ==> r == Err::<SwapQuote, ArgusError>(ArgusError::InvalidTradeSize),
{
    if reserve0 == 0 || reserve1 == 0 {
        return Err(ArgusError::InsufficientLiquidity);
    }
    if !(0 <= amount_in.mantissa && amount_in.mantissa <= crate::decimal::MAX_MANTISSA && amount_in.scale <= crate::decimal::MAX_SCALE) {
        return Err(ArgusError::NumericConversionError);
    }
    if amount_in.mantissa == 0 {
        return Err(ArgusError::InvalidTradeSize);
    }
    let units = match to_units(amount_in, INPUT_DECIMALS) {
        Some(u) => u,
        None => return Err(ArgusError::NumericConversionError),
    };
    let (reserve_in, reserve_out) = if zero_for_one { (reserve0, reserve1) } else { (reserve1, reserve0) };
    let out = get_amount_out(units, reserve_in, reserve_out)?;
    let amount_out = match Dec::from_units(out, OUTPUT_DECIMALS) {
        Some(d) => d,
        None => return Err(ArgusError::NumericConversionError),
    };
    let spot = spot_price(reserve0, reserve1)?;
    let effective_price = match checked_div(amount_out, amount_in) {
        Some(d) => d,
        None => return Err(ArgusError::NumericConversionError),
    };
    let price_impact = calculate_price_impact(amount_in, amount_out, spot)?;
    Ok(SwapQuote { amount_out, effective_price, price_impact, gas_estimate: CONSTANT_PRODUCT_GAS })
}

/// Snapshot of the constant-product pool: liquidity is the midpoint of the
/// two reserves, the tick is zero.
pub fn constant_product_pool_state(reserve0: u128, reserve1: u128, sqrt_price_x96: u128) -> (r: Result<PoolState, ArgusError>)
    ensures
        reserve0 == 0 || reserve1 == 0 ==> r == Err::<PoolState, ArgusError>(ArgusError::InsufficientLiquidity),
        reserve0 > 0 && reserve1 > 0 ==> r == Ok::<PoolState, ArgusError>(
            PoolState {
                sqrt_price_x96,
                tick: 0,
                liquidity: ((reserve0 + reserve1) / 2) as u128,
                fee: CONSTANT_PRODUCT_POOL_FEE,
            },
        ),
        r is Ok ==> r->Ok_0.wf(),
{
    if reserve0 == 0 || reserve1 == 0 {
        return Err(ArgusError::InsufficientLiquidity);
    }
    let liquidity = reserve0 / 2 + reserve1 / 2 + (reserve0 % 2 + reserve1 % 2) / 2;
    assert(liquidity == (reserve0 + reserve1) / 2);
    Ok(PoolState { sqrt_price_x96, tick: 0, liquidity, fee: CONSTANT_PRODUCT_POOL_FEE })
}

/// A positive input always receives strictly less than the naive spot-price
/// output `amount_in * reserve_out / reserve_in`: the curve and the fee only
/// take away.
pub proof fn lemma_output_below_spot(amount_in: u128, reserve_in: u128, reserve_out: u128)
    requires
        amount_in > 0,
        reserve_in > 0,
        reserve_out > 0,
        spec_amount_out(amount_in, reserve_in, reserve_out) is Ok,
    ensures
        spec_amount_out(amount_in, reserve_in, reserve_out)->Ok_0 * reserve_in < amount_in * reserve_out,
{
    let a = amount_in as int;
    let f = fee_adjusted(a);
    let ri = reserve_in as int;
    let ro = reserve_out as int;
    let out = spec_amount_out(amount_in, reserve_in, reserve_out)->Ok_0 as int;
    assert(0 <= f < a) by (nonlinear_arith)
        requires
            f == a * 9999 / 10000,
            a > 0,
    ;
    assert(out == (f * ro) / (ri + f));
    assert(out * (ri + f) <= f * ro) by (nonlinear_arith)
        requires
            out == (f * ro) / (ri + f),
            ri + f > 0,
    ;
    assert(out * ri < a * ro) by (nonlinear_arith)
        requires
            out * (ri + f) <= f * ro,
            0 <= f < a,
            ri > 0,
            ro > 0,
            out >= 0,
    ;
}

/// Diminishing returns: doubling the input strictly lowers the output per unit
/// of input, when the input is a whole multiple of the fee denominator and the
/// pool's curvature over the trade exceeds truncation (`f^2 * reserve_out >=
/// (reserve_in + f) * (reserve_in + 2f)` for the fee-adjusted input `f`).
/// Outside those bounds integer truncation can hide the curvature: one unit in
/// against reserves `(1, 100)` gives nothing, two units give 50.
pub proof fn lemma_doubling_lowers_unit_output(amount_in: u128, reserve_in: u128, reserve_out: u128)
    requires
        amount_in > 0,
        reserve_in > 0,
        reserve_out > 0,
        amount_in % 10000 == 0,
        2 * amount_in <= u128::MAX,
        spec_amount_out(amount_in, reserve_in, reserve_out) is Ok,
        spec_amount_out((2 * amount_in) as u128, reserve_in, reserve_out) is Ok,
        fee_adjusted(amount_in as int) * fee_adjusted(amount_in as int) * reserve_out
            >= (reserve_in + fee_adjusted(amount_in as int)) * (reserve_in + 2 * fee_adjusted(amount_in as int)),
    ensures
        spec_amount_out((2 * amount_in) as u128, reserve_in, reserve_out)->Ok_0 * amount_in
            < spec_amount_out(amount_in, reserve_in, reserve_out)->Ok_0 * (2 * amount_in),
{
    let a = amount_in as int;
    let f = fee_adjusted(a);
    let f2 = fee_adjusted(2 * a);
    let r = reserve_in as int;
    let ro = reserve_out as int;
    let k = a / 10000;
    assert(a == 10000 * k);
    assert(f == 9999 * k) by (nonlinear_arith)
        requires
            a == 10000 * k,
            f == a * 9999 / 10000,
    ;
    assert(f2 == 2 * f) by (nonlinear_arith)
        requires
            a == 10000 * k,
            f2 == (2 * a) * 9999 / 10000,
            f == 9999 * k,
    ;
    let o1 = spec_amount_out(amount_in, reserve_in, reserve_out)->Ok_0 as int;
    let o2 = spec_amount_out((2 * amount_in) as u128, reserve_in, reserve_out)->Ok_0 as int;
    let d1 = r + f;
    let d2 = r + 2 * f;
    assert(o1 == (f * ro) / d1);
    assert(o2 == (2 * f * ro) / d2);
    assert(f > 0) by (nonlinear_arith)
        requires
            f == 9999 * k,
            a == 10000 * k,
            a > 0,
    ;
    assert(o2 * d2 <= 2 * f * ro) by (nonlinear_arith)
        requires
            o2 == (2 * f * ro) / d2,
            d2 > 0,
    ;
    assert(f * ro < (o1 + 1) * d1) by (nonlinear_arith)
        requires
            o1 == (f * ro) / d1,
            d1 > 0,
    ;
    assert(o2 < 2 * o1) by (nonlinear_arith)
        requires
            o2 * d2 <= 2 * f * ro,
            f * ro < (o1 + 1) * d1,
            f * f * ro >= d1 * d2,
            d1 == r + f,
            d2 == r + 2 * f,
            d1 > 0,
            d2 > 0,
            f > 0,
            ro > 0,
            o2 >= 0,
    ;
    assert(o2 * a < o1 * (2 * a)) by (nonlinear_arith)
        requires
            o2 < 2 * o1,
            a > 0,
    ;
}

} // verus!
