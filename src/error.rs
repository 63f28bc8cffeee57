//! Failures of the engine; none is recovered inside it.

use vstd::prelude::*;

verus! {

#[derive(Clone, Debug, PartialEq, Eq)]
pub enum ArgusError {
    /// A contract response shorter than its fixed width.
    DecodeError { expected: usize, actual: usize },
    /// A zero reserve or zero liquidity.
    InsufficientLiquidity,
    /// A zero denominator in a swap formula.
    DivisionByZero,
    /// A chain without an entry in the gas table.
    UnsupportedChain(u64),
    /// No base fee on the latest block, or no priority fee from the node.
    MissingFeeData,
    /// A value that overflows, or does not fit, when moving between integer
    /// and decimal domains.
    NumericConversionError,
    /// A quote asked for a zero or negative amount.
    InvalidTradeSize,
    RpcError(String),
    CexApiError(String),
    ContractError(String),
    CalculationError(String),
    ConfigError(String),
    NetworkError(String),
    SerializationError(String),
    Unknown(String),
}

/// An optional result, with `NumericConversionError` where it is missing.
pub open spec fn numeric<T>(o: Option<T>) -> Result<T, ArgusError> {
    match o {
        Some(v) => Ok(v),
        None => Err(ArgusError::NumericConversionError),
    }
}

} // verus!
