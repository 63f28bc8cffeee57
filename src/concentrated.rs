//! Quotes on the concentrated-liquidity venue (sqrt-price AMM).
//!
//! Price impact follows a deliberately simple linear model, 0.01% per unit of
//! input divided by 10; it approximates, and does not perform, tick traversal.

use vstd::prelude::*;
use crate::decimal::{checked_add, checked_div, checked_mul, checked_sub, decimal_difference, decimal_product, decimal_quotient, decimal_sum, Dec, MAX_MANTISSA, MAX_SCALE};
use crate::dex::{PoolState, Slot0, SwapQuote};
use crate::error::{numeric, ArgusError};
use crate::utils::{q96_price, spec_q96_price};

verus! {

/// Gas units of a swap on this venue.
pub const CONCENTRATED_GAS: u64 = 150_000;

/// Decimals of the pool's base asset.
pub const BASE_DECIMALS: u8 = 18;

/// Decimals of the pool's quote asset.
pub const QUOTE_DECIMALS: u8 = 6;

/// Fee denominator: parts per million.
pub const PPM: i128 = 1_000_000;

pub open spec fn int_dec(n: int) -> Dec {
    Dec { mantissa: n as i128, scale: 0 }
}

/// Spot price in human units: `(sqrt_price_x96 / 2^96)^2 * 10^12`, the
/// pool pairing an 18-decimal asset with a 6-decimal one.
pub open spec fn spec_sqrt_spot_price(sqrt_price_x96: u128) -> Option<Dec> {
    spec_q96_price(sqrt_price_x96, BASE_DECIMALS, QUOTE_DECIMALS)
}

/// `(amount_in / 10) * 0.001`.
pub open spec fn spec_linear_impact(amount_in: Dec) -> Option<Dec> {
    match decimal_quotient(amount_in, int_dec(10)) {
        None => None,
        Some(tenth) => decimal_product(tenth, Dec { mantissa: 1, scale: 3 }),
    }
}

/// Spot price moved against the trader by `impact`.
pub open spec fn spec_effective_price(spot: Dec, impact: Dec, zero_for_one: bool) -> Option<Dec> {
    let factor = if zero_for_one {
        decimal_difference(int_dec(1), impact)
    } else {
        decimal_sum(int_dec(1), impact)
    };
    match factor {
        None => None,
        Some(f) => decimal_product(spot, f),
    }
}

/// Output before and after the venue fee (`fee` in parts per million).
pub open spec fn spec_output_after_fee(amount_in: Dec, effective_price: Dec, fee: u32, zero_for_one: bool) -> Option<Dec> {
    let raw = if zero_for_one {
        decimal_product(amount_in, effective_price)
    } else {
        decimal_quotient(amount_in, effective_price)
    };
    match raw {
        None => None,
        Some(out) => match decimal_quotient(int_dec(fee as int), int_dec(PPM as int)) {
            None => None,
            Some(fee_share) => match decimal_difference(int_dec(1), fee_share) {
                None => None,
                Some(keep) => decimal_product(out, keep),
            },
        },
    }
}

pub open spec fn spec_concentrated_quote(pool: PoolState, amount_in: Dec, zero_for_one: bool) -> Result<SwapQuote, ArgusError> {
    if !pool.wf() {
        Err(ArgusError::InsufficientLiquidity)
    } else if !amount_in.wf() || amount_in.mantissa < 0 {
        Err(ArgusError::NumericConversionError)
    } else if amount_in.mantissa == 0 {
        Err(ArgusError::InvalidTradeSize)
    } else {
        match spec_sqrt_spot_price(pool.sqrt_price_x96) {
            None => Err(ArgusError::NumericConversionError),
            Some(spot) => match spec_linear_impact(amount_in) {
                None => Err(ArgusError::NumericConversionError),
                Some(impact) => match spec_effective_price(spot, impact, zero_for_one) {
                    None => Err(ArgusError::NumericConversionError),
                    Some(effective_price) => if !zero_for_one && effective_price.mantissa == 0 {
                        Err(ArgusError::DivisionByZero)
                    } else { match spec_output_after_fee(amount_in, effective_price, pool.fee, zero_for_one) {
                        None => Err(ArgusError::NumericConversionError),
                        Some(amount_out) => Ok(SwapQuote { amount_out, effective_price, price_impact: impact, gas_estimate: CONCENTRATED_GAS }),
                    } },
                },
            },
        }
    }
}

fn linear_impact(amount_in: Dec) -> (r: Result<Dec, ArgusError>)
    ensures
        r == numeric(spec_linear_impact(amount_in)),
{
    let tenth = match checked_div(amount_in, Dec::new(10, 0)) {
        Some(d) => d,
        None => return Err(ArgusError::NumericConversionError),
    };
    match checked_mul(tenth, Dec::new(1, 3)) {
        Some(d) => Ok(d),
        None => Err(ArgusError::NumericConversionError),
    }
}

fn effective_price(spot: Dec, impact: Dec, zero_for_one: bool) -> (r: Result<Dec, ArgusError>)
    ensures
        r == numeric(spec_effective_price(spot, impact, zero_for_one)),
{
    let factor = if zero_for_one {
        checked_sub(Dec::new(1, 0), impact)
    } else {
        checked_add(Dec::new(1, 0), impact)
    };
    let f = match factor {
        Some(d) => d,
        None => return Err(ArgusError::NumericConversionError),
    };
    match checked_mul(spot, f) {
        Some(d) => Ok(d),
        None => Err(ArgusError::NumericConversionError),
    }
}

fn output_after_fee(amount_in: Dec, price: Dec, fee: u32, zero_for_one: bool) -> (r: Result<Dec, ArgusError>)
    ensures
        r == numeric(spec_output_after_fee(amount_in, price, fee, zero_for_one)),
{
    let raw = if zero_for_one {
        checked_mul(amount_in, price)
    } else {
        checked_div(amount_in, price)
    };
    let out = match raw {
        Some(d) => d,
        None => return Err(ArgusError::NumericConversionError),
    };
    let fee_share = match checked_div(Dec::new(fee as i128, 0), Dec::new(PPM, 0)) {
        Some(d) => d,
        None => return Err(ArgusError::NumericConversionError),
    };
    let keep = match checked_sub(Dec::new(1, 0), fee_share) {
        Some(d) => d,
        None => return Err(ArgusError::NumericConversionError),
    };
    match checked_mul(out, keep) {
        Some(d) => Ok(d),
        None => Err(ArgusError::NumericConversionError),
    }
}

/// Quotes a swap of `amount_in` human units against the pool snapshot:
/// spot price from the sqrt price, moved by the linear impact model, then the
/// pool fee taken from the output. Selling the quote asset at a zero price
/// is a `DivisionByZero`.
pub fn concentrated_quote(pool: &PoolState, amount_in: Dec, zero_for_one: bool) -> (r: Result<SwapQuote, ArgusError>)
    ensures
        r == spec_concentrated_quote(*pool, amount_in, zero_for_one),
        pool.liquidity == 0 ==> r == Err::<SwapQuote, ArgusError>(ArgusError::InsufficientLiquidity),
        pool.liquidity > 0 && amount_in.mantissa < 0 ==> r == Err::<SwapQuote, ArgusError>(ArgusError::NumericConversionError),
        pool.liquidity > 0 && amount_in.mantissa == 0 && amount_in.scale <= MAX_SCALE
            ==> r == Err::<SwapQuote, ArgusError>(ArgusError::InvalidTradeSize),
        r is Ok && !zero_for_one ==> r->Ok_0.effective_price.mantissa != 0,
{
    if pool.liquidity == 0 {
        return Err(ArgusError::InsufficientLiquidity);
    }
    if !(0 <= amount_in.mantissa && amount_in.mantissa <= MAX_MANTISSA && amount_in.scale <= MAX_SCALE) {
        return Err(ArgusError::NumericConversionError);
    }
    if amount_in.mantissa == 0 {
        return Err(ArgusError::InvalidTradeSize);
    }
    let spot = q96_price(pool.sqrt_price_x96, BASE_DECIMALS, QUOTE_DECIMALS)?;
    let impact = linear_impact(amount_in)?;
    let price = effective_price(spot, impact, zero_for_one)?;
    if !zero_for_one && price.is_zero() {
        return Err(ArgusError::DivisionByZero);
    }
    let amount_out = output_after_fee(amount_in, price, pool.fee, zero_for_one)?;
    Ok(SwapQuote { amount_out, effective_price: price, price_impact: impact, gas_estimate: CONCENTRATED_GAS })
}

/// Snapshot of the concentrated-liquidity pool from its `slot0` and its
/// liquidity; zero liquidity is unusable pool data.
pub fn concentrated_pool_state(slot0: Slot0, liquidity: u128) -> (r: Result<PoolState, ArgusError>)
    ensures
        liquidity == 0 ==> r == Err::<PoolState, ArgusError>(ArgusError::InsufficientLiquidity),
        liquidity > 0 ==> r == Ok::<PoolState, ArgusError>(
            PoolState { sqrt_price_x96: slot0.sqrt_price_x96, tick: slot0.tick, liquidity, fee: slot0.lp_fee },
        ),
        r is Ok ==> r->Ok_0.wf(),
{
    if liquidity == 0 {
        return Err(ArgusError::InsufficientLiquidity);
    }
    Ok(PoolState { sqrt_price_x96: slot0.sqrt_price_x96, tick: slot0.tick, liquidity, fee: slot0.lp_fee })
}

} // verus!
