//! One monitoring cycle: from quotes, gas costs and the reference price to
//! the published opportunity.

use vstd::prelude::*;
use crate::analytics::{spec_summary, ArbitrageAnalyzer};
use crate::decimal::Dec;
use crate::dex::SwapQuote;
use crate::error::ArgusError;
use crate::models::{ArbitrageOpportunity, DexDetails};

verus! {

/// `prefix` followed by `n` copies of `fill`.
pub open spec fn filled(prefix: Seq<u8>, fill: u8, n: nat) -> Seq<u8> {
    prefix + Seq::new(n, |i: int| fill)
}

fn filled_calldata(prefix: [u8; 4], fill: u8, n: usize) -> (r: Vec<u8>)
    ensures
        r@ == filled(prefix@, fill, n as nat),
{
    let mut r: Vec<u8> = Vec::new();
    r.push(prefix[0]);
    r.push(prefix[1]);
    r.push(prefix[2]);
    r.push(prefix[3]);
    assert(r@ =~= prefix@);
    let mut i: usize = 0;
    while i < n
        invariant
            i <= n,
            r@ == filled(prefix@, fill, i as nat),
        decreases n - i,
    {
        r.push(fill);
        i = i + 1;
        assert(r@ =~= filled(prefix@, fill, i as nat));
    }
    r
}

/// Representative call data of a concentrated-liquidity swap, sized for the
/// L1 fee estimate: a selector and 200 bytes.
pub fn build_uniswap_swap_calldata() -> (r: Vec<u8>)
    ensures
        r@ == filled(seq![0x12u8, 0x34, 0x56, 0x78], 0xaa, 200),
{
    let r = filled_calldata([0x12, 0x34, 0x56, 0x78], 0xaa, 200);
    assert(seq![0x12u8, 0x34, 0x56, 0x78] =~= [0x12u8, 0x34, 0x56, 0x78]@);
    r
}

/// Representative call data of a constant-product swap: a selector and 180
/// bytes.
pub fn build_aerodrome_swap_calldata() -> (r: Vec<u8>)
    ensures
        r@ == filled(seq![0x87u8, 0x65, 0x43, 0x21], 0xbb, 180),
{
    let r = filled_calldata([0x87, 0x65, 0x43, 0x21], 0xbb, 180);
    assert(seq![0x87u8, 0x65, 0x43, 0x21] =~= [0x87u8, 0x65, 0x43, 0x21]@);
    r
}

/// The cycle's result: the verdict from both quotes and gas costs, with each
/// venue's details. The reference price is recorded as captured for this
/// cycle; nothing keeps it between cycles.
pub fn check_arbitrage_opportunity(
    timestamp_ms: i64,
    trade_size_eth: Dec,
    reference_price: Dec,
    uniswap_quote: &SwapQuote,
    aerodrome_quote: &SwapQuote,
    eth_gas_cost_usd: Dec,
    base_gas_cost_usd: Dec,
) -> (r: Result<ArbitrageOpportunity, ArgusError>)
    ensures
        spec_summary(uniswap_quote.effective_price, aerodrome_quote.effective_price, trade_size_eth, eth_gas_cost_usd, base_gas_cost_usd) is Err
            ==> r == Err::<ArbitrageOpportunity, ArgusError>(
                spec_summary(uniswap_quote.effective_price, aerodrome_quote.effective_price, trade_size_eth, eth_gas_cost_usd, base_gas_cost_usd)->Err_0,
            ),
        spec_summary(uniswap_quote.effective_price, aerodrome_quote.effective_price, trade_size_eth, eth_gas_cost_usd, base_gas_cost_usd) is Ok
            ==> r == Ok::<ArbitrageOpportunity, ArgusError>(
                ArbitrageOpportunity {
                    timestamp_ms,
                    trade_size_eth,
                    reference_cex_price_usd: reference_price,
                    uniswap_v4_details: DexDetails {
                        effective_price_usd: uniswap_quote.effective_price,
                        price_impact_percent: uniswap_quote.price_impact,
                        estimated_gas_cost_usd: eth_gas_cost_usd,
                    },
                    aerodrome_details: DexDetails {
                        effective_price_usd: aerodrome_quote.effective_price,
                        price_impact_percent: aerodrome_quote.price_impact,
                        estimated_gas_cost_usd: base_gas_cost_usd,
                    },
                    arbitrage_summary: spec_summary(
                        uniswap_quote.effective_price,
                        aerodrome_quote.effective_price,
                        trade_size_eth,
                        eth_gas_cost_usd,
                        base_gas_cost_usd,
                    )->Ok_0,
                },
            ),
{
    let analyzer = ArbitrageAnalyzer::new();
    let summary = analyzer.analyze_opportunity_with_gas(
        uniswap_quote,
        aerodrome_quote,
        trade_size_eth,
        reference_price,
        eth_gas_cost_usd,
        base_gas_cost_usd,
    )?;
    Ok(
        ArbitrageOpportunity {
            timestamp_ms,
            trade_size_eth,
            reference_cex_price_usd: reference_price,
            uniswap_v4_details: analyzer.create_dex_details(uniswap_quote, eth_gas_cost_usd),
            aerodrome_details: analyzer.create_dex_details(aerodrome_quote, base_gas_cost_usd),
            arbitrage_summary: summary,
        },
    )
}

} // verus!
