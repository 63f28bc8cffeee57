//! Value objects produced per monitoring cycle.

use vstd::prelude::*;
use crate::decimal::Dec;

verus! {

#[derive(Clone, Copy, Debug, PartialEq, Eq, Structural)]
pub enum RecommendedAction {
    ArbitrageDetected,
    NoArbitrage,
}

/// Profitability verdict of one cycle, in the reference currency.
#[derive(Clone, Copy, Debug, PartialEq, Eq)]
pub struct ArbitrageSummary {
    pub potential_profit_usd: Dec,
    pub total_gas_cost_usd: Dec,
    pub net_profit_usd: Dec,
    pub recommended_action: RecommendedAction,
}

/// What one venue contributed to a verdict.
#[derive(Clone, Copy, Debug, PartialEq, Eq)]
pub struct DexDetails {
    pub effective_price_usd: Dec,
    pub price_impact_percent: Dec,
    pub estimated_gas_cost_usd: Dec,
}

/// A reference price from a centralized venue; `timestamp_ms` is Unix time
/// in milliseconds.
#[derive(Clone, Debug, PartialEq, Eq)]
pub struct CexPrice {
    pub exchange: String,
    pub pair: String,
    pub price: Dec,
    pub timestamp_ms: i64,
}

/// The result of one monitoring cycle; `timestamp_ms` is Unix time in
/// milliseconds.
#[derive(Clone, Copy, Debug, PartialEq, Eq)]
pub struct ArbitrageOpportunity {
    pub timestamp_ms: i64,
    pub trade_size_eth: Dec,
    pub reference_cex_price_usd: Dec,
    pub uniswap_v4_details: DexDetails,
    pub aerodrome_details: DexDetails,
    pub arbitrage_summary: ArbitrageSummary,
}

} // verus!
