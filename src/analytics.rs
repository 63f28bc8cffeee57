//! Profitability verdict from two venue quotes and their gas costs.
//!
//! The analyzer holds no state: the reference price is an argument of each
//! call, so concurrent cycles never share a stale price.

use vstd::prelude::*;
use crate::decimal::{MAX_MANTISSA, checked_add, checked_mul, checked_sub, decimal_difference, decimal_product, decimal_sum, Dec};
use crate::dex::SwapQuote;
use crate::error::{numeric, ArgusError};
use crate::models::{ArbitrageSummary, DexDetails, RecommendedAction};

verus! {

/// Absolute value of a decimal.
pub open spec fn dec_abs(d: Dec) -> Dec {
    Dec { mantissa: if d.mantissa < 0 { -d.mantissa } else { d.mantissa as int } as i128, scale: d.scale }
}

/// `ArbitrageDetected` exactly when the net profit is strictly positive.
pub open spec fn spec_recommendation(net_profit: Dec) -> RecommendedAction {
    if net_profit.mantissa > 0 {
        RecommendedAction::ArbitrageDetected
    } else {
        RecommendedAction::NoArbitrage
    }
}

/// `|price_a - price_b| * trade_size - (gas_a + gas_b)`, with the verdict.
pub open spec fn spec_summary(price_a: Dec, price_b: Dec, trade_size: Dec, gas_a: Dec, gas_b: Dec) -> Result<ArbitrageSummary, ArgusError> {
    match decimal_difference(price_a, price_b) {
        None => Err(ArgusError::NumericConversionError),
        Some(diff) => match decimal_product(dec_abs(diff), trade_size) {
            None => Err(ArgusError::NumericConversionError),
            Some(potential) => match decimal_sum(gas_a, gas_b) {
                None => Err(ArgusError::NumericConversionError),
                Some(total_gas) => match decimal_difference(potential, total_gas) {
                    None => Err(ArgusError::NumericConversionError),
                    Some(net) => Ok(
                        ArbitrageSummary {
                            potential_profit_usd: potential,
                            total_gas_cost_usd: total_gas,
                            net_profit_usd: net,
                            recommended_action: spec_recommendation(net),
                        },
                    ),
                },
            },
        },
    }
}

/// The verdict on a net profit: ties favour `NoArbitrage`.
pub fn recommend(net_profit: Dec) -> (r: RecommendedAction)
    ensures
        r == spec_recommendation(net_profit),
{
    if net_profit.is_positive() {
        RecommendedAction::ArbitrageDetected
    } else {
        RecommendedAction::NoArbitrage
    }
}

/// Stateless combination of quotes and costs into a verdict.
#[derive(Clone, Copy, Debug, PartialEq, Eq, Structural)]
pub struct ArbitrageAnalyzer {}

impl Default for ArbitrageAnalyzer {
    fn default() -> (r: ArbitrageAnalyzer)
        ensures
            r == (ArbitrageAnalyzer {}),
    {
        ArbitrageAnalyzer {}
    }
}

impl ArbitrageAnalyzer {
    pub fn new() -> (r: ArbitrageAnalyzer)
        ensures
            r == (ArbitrageAnalyzer {}),
    {
        ArbitrageAnalyzer {}
    }

    /// Verdict for trading `trade_size_eth` across the two venues, given each
    /// venue's gas cost in the reference currency. The reference price is
    /// part of the cycle's inputs but does not enter the formula.
    pub fn analyze_opportunity_with_gas(
        &self,
        uniswap_quote: &SwapQuote,
        aerodrome_quote: &SwapQuote,
        trade_size_eth: Dec,
        _cex_price: Dec,
        eth_gas_cost_usd: Dec,
        base_gas_cost_usd: Dec,
    ) -> (r: Result<ArbitrageSummary, ArgusError>)
        ensures
            r == spec_summary(
                uniswap_quote.effective_price,
                aerodrome_quote.effective_price,
                trade_size_eth,
                eth_gas_cost_usd,
                base_gas_cost_usd,
            ),
            r is Ok ==> (r->Ok_0.recommended_action == RecommendedAction::ArbitrageDetected <==> r->Ok_0.net_profit_usd.mantissa > 0),
            // whole-unit inputs whose results fit are computed exactly
            ({
                let pa = uniswap_quote.effective_price.mantissa as int;
                let pb = aerodrome_quote.effective_price.mantissa as int;
                let t = trade_size_eth.mantissa as int;
                let gas = eth_gas_cost_usd.mantissa + base_gas_cost_usd.mantissa;
                let potential = (if pa >= pb { pa - pb } else { pb - pa }) * t;
                &&& uniswap_quote.effective_price.scale == 0 && aerodrome_quote.effective_price.scale == 0
                &&& trade_size_eth.scale == 0 && eth_gas_cost_usd.scale == 0 && base_gas_cost_usd.scale == 0
                &&& uniswap_quote.effective_price.wf() && aerodrome_quote.effective_price.wf() && trade_size_eth.wf()
                &&& eth_gas_cost_usd.wf() && base_gas_cost_usd.wf()
                &&& -MAX_MANTISSA <= pa - pb <= MAX_MANTISSA
                &&& -MAX_MANTISSA <= potential <= MAX_MANTISSA
                &&& -MAX_MANTISSA <= gas <= MAX_MANTISSA
                &&& -MAX_MANTISSA <= potential - gas <= MAX_MANTISSA
            }) ==> r is Ok && ({
                let pa = uniswap_quote.effective_price.mantissa as int;
                let pb = aerodrome_quote.effective_price.mantissa as int;
                let t = trade_size_eth.mantissa as int;
                let gas = eth_gas_cost_usd.mantissa + base_gas_cost_usd.mantissa;
                let potential = (if pa >= pb { pa - pb } else { pb - pa }) * t;
                let s = r->Ok_0;
                &&& s.potential_profit_usd == Dec { mantissa: potential as i128, scale: 0 }
                &&& s.total_gas_cost_usd == Dec { mantissa: gas as i128, scale: 0 }
                &&& s.net_profit_usd == Dec { mantissa: (potential - gas) as i128, scale: 0 }
                &&& (s.recommended_action == RecommendedAction::ArbitrageDetected <==> potential > gas)
            }),
    {
        let diff = match checked_sub(uniswap_quote.effective_price, aerodrome_quote.effective_price) {
            Some(d) => d,
            None => return Err(ArgusError::NumericConversionError),
        };
        let potential = match checked_mul(diff.abs(), trade_size_eth) {
            Some(d) => d,
            None => return Err(ArgusError::NumericConversionError),
        };
        let total_gas = match checked_add(eth_gas_cost_usd, base_gas_cost_usd) {
            Some(d) => d,
            None => return Err(ArgusError::NumericConversionError),
        };
        let net = match checked_sub(potential, total_gas) {
            Some(d) => d,
            None => return Err(ArgusError::NumericConversionError),
        };
        Ok(
            ArbitrageSummary {
                potential_profit_usd: potential,
                total_gas_cost_usd: total_gas,
                net_profit_usd: net,
                recommended_action: recommend(net),
            },
        )
    }

    /// `wei` of native currency valued at `eth_price_usd`.
    pub fn wei_to_usd(&self, wei: u64, eth_price_usd: Dec) -> (r: Result<Dec, ArgusError>)
        ensures
            r == numeric(decimal_product(Dec { mantissa: wei as i128, scale: 18 }, eth_price_usd)),
    {
        let eth = Dec::new(wei as i128, 18);
        match checked_mul(eth, eth_price_usd) {
            Some(d) => Ok(d),
            None => Err(ArgusError::NumericConversionError),
        }
    }

    /// The per-venue part of a verdict.
    pub fn create_dex_details(&self, quote: &SwapQuote, gas_cost_usd: Dec) -> (r: DexDetails)
        ensures
            r == (DexDetails {
                effective_price_usd: quote.effective_price,
                price_impact_percent: quote.price_impact,
                estimated_gas_cost_usd: gas_cost_usd,
            }),
    {
        DexDetails {
            effective_price_usd: quote.effective_price,
            price_impact_percent: quote.price_impact,
            estimated_gas_cost_usd: gas_cost_usd,
        }
    }
}

} // verus!
