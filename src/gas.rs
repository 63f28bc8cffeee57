//! Transaction cost of a swap: base fee plus priority fee over a buffered
//! gas figure, plus the L1 data fee on rollups.

use vstd::prelude::*;
use crate::decimal::{checked_mul, decimal_product, Dec, MAX_MANTISSA, MAX_SCALE};
use crate::abi::{call_data, encode_bytes, selector, spec_encode_bytes, spec_selector};
use crate::dex::{be_value, decode_liquidity, read_be, word_low128};
use crate::error::ArgusError;
use vstd::string::StringSliceAdditionalSpecFns;

verus! {

pub const ETHEREUM_CHAIN_ID: u64 = 1;

pub const BASE_CHAIN_ID: u64 = 8453;

/// Typical gas units of a swap on Ethereum mainnet.
pub const ETHEREUM_SWAP_GAS: u64 = 150_000;

/// Typical gas units of a swap on Base.
pub const BASE_SWAP_GAS: u64 = 80_000;

/// Safety margin over the typical gas figure, in percent.
pub const GAS_BUFFER_PERCENT: u64 = 110;

/// Decimals of the native currency.
pub const NATIVE_DECIMALS: u32 = 18;

/// A chain's fee parameters turned into a cost.
#[derive(Clone, Copy, Debug, PartialEq, Eq)]
pub struct GasEstimate {
    /// Typical gas units plus the safety margin.
    pub gas_units: u64,
    /// Base fee plus priority fee, in wei per gas unit.
    pub gas_price_wei: u128,
    /// Zero on chains that are not rollups.
    pub l1_data_fee_wei: u128,
    pub total_cost_native: Dec,
    pub total_cost_reference: Dec,
}

/// The gas table: typical swap gas units per chain.
pub open spec fn spec_typical_swap_gas(chain_id: u64) -> Result<u64, ArgusError> {
    if chain_id == ETHEREUM_CHAIN_ID {
        Ok(ETHEREUM_SWAP_GAS)
    } else if chain_id == BASE_CHAIN_ID {
        Ok(BASE_SWAP_GAS)
    } else {
        Err(ArgusError::UnsupportedChain(chain_id))
    }
}

/// Typical gas units of a swap on `chain_id`.
pub fn get_typical_swap_gas(chain_id: u64) -> (r: Result<u64, ArgusError>)
    ensures
        r == spec_typical_swap_gas(chain_id),
{
    if chain_id == ETHEREUM_CHAIN_ID {
        Ok(ETHEREUM_SWAP_GAS)
    } else if chain_id == BASE_CHAIN_ID {
        Ok(BASE_SWAP_GAS)
    } else {
        Err(ArgusError::UnsupportedChain(chain_id))
    }
}

/// Whether the chain charges an L1 data fee, decided by its identifier.
pub fn is_rollup(chain_id: u64) -> (r: bool)
    ensures
        r == (chain_id == BASE_CHAIN_ID),
{
    chain_id == BASE_CHAIN_ID
}

/// Cost in wei of `gas_units` at `gas_price_wei`; `NumericConversionError`
/// when it exceeds 64 bits.
pub fn execution_cost_wei(gas_price_wei: u64, gas_units: u64) -> (r: Result<u64, ArgusError>)
    ensures
        gas_price_wei * gas_units <= u64::MAX ==> r == Ok::<u64, ArgusError>((gas_price_wei * gas_units) as u64),
        gas_price_wei * gas_units > u64::MAX ==> r == Err::<u64, ArgusError>(ArgusError::NumericConversionError),
{
    match gas_price_wei.checked_mul(gas_units) {
        Some(v) => Ok(v),
        None => Err(ArgusError::NumericConversionError),
    }
}

/// Gas units with the 10% margin, in integer arithmetic.
pub open spec fn buffered_gas(units: u64) -> int {
    units * GAS_BUFFER_PERCENT / 100
}

/// Total cost in wei: buffered units times gas price, plus the L1 fee on rollups.
pub open spec fn cost_wei(chain_id: u64, units: u64, gas_price: int, l1_data_fee_wei: u128) -> int {
    buffered_gas(units) * gas_price + if chain_id == BASE_CHAIN_ID { l1_data_fee_wei as int } else { 0 }
}

pub open spec fn spec_estimate_gas_cost(
    chain_id: u64,
    base_fee_wei: Option<u128>,
    priority_fee_wei: Option<u128>,
    l1_data_fee_wei: u128,
    reference_price: Dec,
) -> Result<GasEstimate, ArgusError> {
    if base_fee_wei is None || priority_fee_wei is None {
        Err(ArgusError::MissingFeeData)
    } else {
        match spec_typical_swap_gas(chain_id) {
            Err(e) => Err(e),
            Ok(units) => {
                let price = base_fee_wei->0 + priority_fee_wei->0;
                let total = cost_wei(chain_id, units, price, l1_data_fee_wei);
                if price > u128::MAX || total > MAX_MANTISSA {
                    Err(ArgusError::NumericConversionError)
                } else {
                    let native = Dec { mantissa: total as i128, scale: NATIVE_DECIMALS };
                    match decimal_product(native, reference_price) {
                        None => Err(ArgusError::NumericConversionError),
                        Some(reference) => Ok(
                            GasEstimate {
                                gas_units: buffered_gas(units) as u64,
                                gas_price_wei: price as u128,
                                l1_data_fee_wei: if chain_id == BASE_CHAIN_ID { l1_data_fee_wei } else { 0 },
                                total_cost_native: native,
                                total_cost_reference: reference,
                            },
                        ),
                    }
                }
            },
        }
    }
}

/// Cost of a swap on `chain_id`, in native currency and in the reference
/// currency at `reference_price`. A missing base fee or priority fee is fatal:
/// there is no fallback gas price. The L1 data fee counts on rollups only.
pub fn estimate_gas_cost(
    chain_id: u64,
    base_fee_wei: Option<u128>,
    priority_fee_wei: Option<u128>,
    l1_data_fee_wei: u128,
    reference_price: Dec,
) -> (r: Result<GasEstimate, ArgusError>)
    ensures
        r == spec_estimate_gas_cost(chain_id, base_fee_wei, priority_fee_wei, l1_data_fee_wei, reference_price),
        base_fee_wei is None || priority_fee_wei is None ==> r == Err::<GasEstimate, ArgusError>(ArgusError::MissingFeeData),
        r is Ok ==> r->Ok_0.total_cost_native.scale == NATIVE_DECIMALS
            && r->Ok_0.total_cost_native.mantissa == r->Ok_0.gas_units * r->Ok_0.gas_price_wei + r->Ok_0.l1_data_fee_wei,
        r is Ok && reference_price.wf() && reference_price.scale + NATIVE_DECIMALS <= MAX_SCALE
            && -MAX_MANTISSA <= r->Ok_0.total_cost_native.mantissa * reference_price.mantissa <= MAX_MANTISSA
            ==> r->Ok_0.total_cost_reference.same_as(
                Dec {
                    mantissa: (r->Ok_0.total_cost_native.mantissa * reference_price.mantissa) as i128,
                    scale: (NATIVE_DECIMALS + reference_price.scale) as u32,
                },
            ),
{
    let base_fee = match base_fee_wei {
        Some(v) => v,
        None => return Err(ArgusError::MissingFeeData),
    };
    let priority_fee = match priority_fee_wei {
        Some(v) => v,
        None => return Err(ArgusError::MissingFeeData),
    };
    let units = get_typical_swap_gas(chain_id)?;
    let gas_price = match base_fee.checked_add(priority_fee) {
        Some(v) => v,
        None => return Err(ArgusError::NumericConversionError),
    };
    let buffered: u64 = units * GAS_BUFFER_PERCENT / 100;
    let l1_fee: u128 = if is_rollup(chain_id) { l1_data_fee_wei } else { 0 };
    let execution = match (buffered as u128).checked_mul(gas_price) {
        Some(v) => v,
        None => return Err(ArgusError::NumericConversionError),
    };
    let total = match execution.checked_add(l1_fee) {
        Some(v) => v,
        None => return Err(ArgusError::NumericConversionError),
    };
    let native = match Dec::from_units(total, NATIVE_DECIMALS) {
        Some(d) => d,
        None => return Err(ArgusError::NumericConversionError),
    };
    let reference = match checked_mul(native, reference_price) {
        Some(d) => d,
        None => return Err(ArgusError::NumericConversionError),
    };
    proof {
        if reference_price.wf() && reference_price.scale + NATIVE_DECIMALS <= MAX_SCALE
            && -MAX_MANTISSA <= native.mantissa * reference_price.mantissa <= MAX_MANTISSA {
            let exact = Dec {
                mantissa: (native.mantissa * reference_price.mantissa) as i128,
                scale: (NATIVE_DECIMALS + reference_price.scale) as u32,
            };
            assert(native.wf());
            if native.mantissa * reference_price.mantissa == 0 {
                assert(reference.mantissa == 0 && exact.mantissa == 0);
                assert(reference.mantissa * exact.den() == 0) by (nonlinear_arith)
                    requires
                        reference.mantissa == 0,
                ;
                assert(exact.mantissa * reference.den() == 0) by (nonlinear_arith)
                    requires
                        exact.mantissa == 0,
                ;
            } else {
                assert(reference == exact);
            }
            assert(reference.same_as(exact));
        }
    }
    Ok(
        GasEstimate {
            gas_units: buffered,
            gas_price_wei: gas_price,
            l1_data_fee_wei: l1_fee,
            total_cost_native: native,
            total_cost_reference: reference,
        },
    )
}

/// The transaction bytes whose L1 fee the rollup's oracle prices: a type
/// byte `0x02`, the low two bytes of the call data's length, the call data.
pub open spec fn spec_l1_fee_payload(calldata: Seq<u8>) -> Seq<u8> {
    let n = calldata.len() as usize;
    seq![0x02u8, (n >> 8usize) as u8, n as u8] + calldata
}

pub fn l1_fee_payload(calldata: &[u8]) -> (r: Vec<u8>)
    ensures
        r@ == spec_l1_fee_payload(calldata@),
{
    let n = calldata.len();
    let mut r: Vec<u8> = Vec::new();
    r.push(0x02);
    r.push((n >> 8usize) as u8);
    r.push(n as u8);
    let mut i: usize = 0;
    while i < n
        invariant
            n == calldata@.len(),
            i <= n,
            r@ == seq![0x02u8, (n >> 8usize) as u8, n as u8] + calldata@.subrange(0, i as int),
        decreases n - i,
    {
        r.push(calldata[i]);
        i = i + 1;
        assert(r@ =~= seq![0x02u8, (n >> 8usize) as u8, n as u8] + calldata@.subrange(0, i as int));
    }
    assert(calldata@.subrange(0, n as int) =~= calldata@);
    r
}

/// Call data of the oracle's `getL1Fee(bytes)` for a swap's call data.
pub fn l1_fee_calldata(calldata: &[u8]) -> (r: Vec<u8>)
    requires
        calldata@.len() + 3 <= u64::MAX,
    ensures
        r@ == spec_selector("getL1Fee(bytes)".spec_bytes()) + spec_encode_bytes(spec_l1_fee_payload(calldata@)),
{
    let payload = l1_fee_payload(calldata);
    let s = selector("getL1Fee(bytes)");
    let args = encode_bytes(payload.as_slice());
    call_data(s.as_slice(), args.as_slice())
}

/// The oracle's answer: one word, which must fit 128 bits.
pub open spec fn spec_decode_l1_fee(b: Seq<u8>) -> Result<u128, ArgusError> {
    if b.len() < 32 {
        Err(ArgusError::DecodeError { expected: 32, actual: b.len() as usize })
    } else if be_value(b.subrange(0, 16)) != 0 {
        Err(ArgusError::NumericConversionError)
    } else {
        Ok(word_low128(b, 0) as u128)
    }
}

/// Decodes the oracle's L1 fee; a fee of 2^128 wei or more is a
/// `NumericConversionError`.
pub fn decode_l1_fee(data: &[u8]) -> (r: Result<u128, ArgusError>)
    ensures
        r == spec_decode_l1_fee(data@),
{
    if data.len() < 32 {
        return Err(ArgusError::DecodeError { expected: 32, actual: data.len() });
    }
    if read_be(data, 0, 16) != 0 {
        return Err(ArgusError::NumericConversionError);
    }
    decode_liquidity(data)
}

} // verus!
