use argus::analytics::{recommend, ArbitrageAnalyzer};
use argus::decimal::Dec;
use argus::dex::SwapQuote;
use argus::error::ArgusError;
use argus::gas::{decode_l1_fee, estimate_gas_cost, get_typical_swap_gas, is_rollup, l1_fee_calldata, l1_fee_payload};
use argus::models::{DexDetails, RecommendedAction};
use argus::service::{build_aerodrome_swap_calldata, build_uniswap_swap_calldata, check_arbitrage_opportunity};
use rust_decimal::Decimal;

fn d(mantissa: i128, scale: u32) -> Dec {
    Dec::new(mantissa, scale)
}

fn val(x: Dec) -> Decimal {
    Decimal::from_i128_with_scale(x.mantissa, x.scale)
}

fn quote_at(price: Dec) -> SwapQuote {
    SwapQuote { amount_out: d(0, 0), effective_price: price, price_impact: d(1, 1), gas_estimate: 0 }
}

#[test]
fn gas_cost_on_mainnet_is_exact() {
    let g = estimate_gas_cost(1, Some(10_000_000_000), Some(1_000_000_000), 0, d(3000, 0)).unwrap();
    assert_eq!(g.gas_units, 165_000);
    assert_eq!(g.gas_price_wei, 11_000_000_000);
    assert_eq!(g.l1_data_fee_wei, 0);
    assert_eq!(val(g.total_cost_native), Decimal::from_i128_with_scale(1815, 6));
    assert_eq!(val(g.total_cost_reference), Decimal::from_i128_with_scale(5445, 3));
}

#[test]
fn gas_cost_on_rollup_adds_l1_fee() {
    let g = estimate_gas_cost(8453, Some(1_000_000), Some(1_000_000), 500_000_000_000, d(2000, 0)).unwrap();
    assert_eq!(g.gas_units, 88_000);
    assert_eq!(g.l1_data_fee_wei, 500_000_000_000);
    assert_eq!(g.total_cost_native, d(88_000 * 2_000_000 + 500_000_000_000, 18));
    assert_eq!(val(g.total_cost_reference), Decimal::from_i128_with_scale(1_352_000_000_000_000, 18));
}

#[test]
fn l1_fee_ignored_off_rollups() {
    let g = estimate_gas_cost(1, Some(1), Some(1), 999, d(1, 0)).unwrap();
    assert_eq!(g.l1_data_fee_wei, 0);
    assert_eq!(g.total_cost_native, d(330_000, 18));
}

#[test]
fn missing_fee_data_is_fatal() {
    assert_eq!(estimate_gas_cost(1, None, Some(1), 0, d(1, 0)), Err(ArgusError::MissingFeeData));
    assert_eq!(estimate_gas_cost(8453, Some(1), None, 0, d(1, 0)), Err(ArgusError::MissingFeeData));
}

#[test]
fn unknown_chain_is_unsupported() {
    assert_eq!(estimate_gas_cost(5, Some(1), Some(1), 0, d(1, 0)), Err(ArgusError::UnsupportedChain(5)));
    assert_eq!(get_typical_swap_gas(1), Ok(150_000));
    assert_eq!(get_typical_swap_gas(8453), Ok(80_000));
    assert_eq!(get_typical_swap_gas(10), Err(ArgusError::UnsupportedChain(10)));
    assert!(is_rollup(8453));
    assert!(!is_rollup(1));
}

#[test]
fn gas_cost_overflow_is_reported() {
    assert_eq!(estimate_gas_cost(1, Some(u128::MAX), Some(1), 0, d(1, 0)), Err(ArgusError::NumericConversionError));
    assert_eq!(
        estimate_gas_cost(1, Some(1_000_000_000_000_000_000_000_000), Some(0), 0, d(1, 0)),
        Err(ArgusError::NumericConversionError)
    );
}

#[test]
fn l1_payload_frames_calldata() {
    let calldata = build_uniswap_swap_calldata();
    assert_eq!(calldata.len(), 204);
    assert_eq!(&calldata[..4], &[0x12, 0x34, 0x56, 0x78]);
    assert!(calldata[4..].iter().all(|b| *b == 0xaa));
    let payload = l1_fee_payload(&calldata);
    assert_eq!(&payload[..3], &[0x02, 0x00, 204]);
    assert_eq!(&payload[3..], &calldata[..]);
    let other = build_aerodrome_swap_calldata();
    assert_eq!(other.len(), 184);
    assert_eq!(&other[..4], &[0x87, 0x65, 0x43, 0x21]);
    let big = vec![7u8; 300];
    assert_eq!(&l1_fee_payload(&big)[..3], &[0x02, 0x01, 0x2c]);
}

#[test]
fn l1_fee_calldata_encodes_bytes_argument() {
    let calldata = vec![0xabu8; 5];
    let data = l1_fee_calldata(&calldata);
    assert_eq!(data.len(), 4 + 32 + 32 + 32);
    assert_eq!(data[4 + 31], 32);
    assert_eq!(data[4 + 63], 8);
    assert_eq!(&data[68..76], &[0x02, 0x00, 0x05, 0xab, 0xab, 0xab, 0xab, 0xab]);
    assert!(data[76..].iter().all(|b| *b == 0));
}

#[test]
fn l1_fee_answer_decodes() {
    let mut word = vec![0u8; 24];
    word.extend_from_slice(&123_456u64.to_be_bytes());
    assert_eq!(decode_l1_fee(&word), Ok(123_456));
    assert_eq!(decode_l1_fee(&word[..10]), Err(ArgusError::DecodeError { expected: 32, actual: 10 }));
    let mut big = vec![0u8; 32];
    big[15] = 1;
    assert_eq!(decode_l1_fee(&big), Err(ArgusError::NumericConversionError));
    let mut max = vec![0u8; 16];
    max.extend_from_slice(&u128::MAX.to_be_bytes());
    assert_eq!(decode_l1_fee(&max), Ok(u128::MAX));
}

#[test]
fn analyzer_detects_profitable_spread() {
    let analyzer = ArbitrageAnalyzer::new();
    let s = analyzer
        .analyze_opportunity_with_gas(&quote_at(d(3010, 0)), &quote_at(d(3000, 0)), d(10, 0), d(3005, 0), d(5, 0), d(3, 0))
        .unwrap();
    assert_eq!(val(s.potential_profit_usd), Decimal::from(100));
    assert_eq!(val(s.total_gas_cost_usd), Decimal::from(8));
    assert_eq!(val(s.net_profit_usd), Decimal::from(92));
    assert_eq!(s.recommended_action, RecommendedAction::ArbitrageDetected);
}

#[test]
fn analyzer_rejects_spread_below_gas() {
    let analyzer = ArbitrageAnalyzer::new();
    let s = analyzer
        .analyze_opportunity_with_gas(&quote_at(d(30000, 1)), &quote_at(d(30005, 1)), d(10, 0), d(3000, 0), d(5, 0), d(3, 0))
        .unwrap();
    assert_eq!(val(s.potential_profit_usd), Decimal::from(5));
    assert_eq!(val(s.net_profit_usd), Decimal::from(-3));
    assert_eq!(s.recommended_action, RecommendedAction::NoArbitrage);
}

#[test]
fn analyzer_tie_is_no_arbitrage() {
    let analyzer = ArbitrageAnalyzer::new();
    let s = analyzer
        .analyze_opportunity_with_gas(&quote_at(d(3001, 0)), &quote_at(d(3000, 0)), d(8, 0), d(3000, 0), d(5, 0), d(3, 0))
        .unwrap();
    assert_eq!(val(s.net_profit_usd), Decimal::ZERO);
    assert_eq!(s.recommended_action, RecommendedAction::NoArbitrage);
    assert_eq!(recommend(d(1, 28)), RecommendedAction::ArbitrageDetected);
    assert_eq!(recommend(d(0, 3)), RecommendedAction::NoArbitrage);
    assert_eq!(recommend(d(-1, 0)), RecommendedAction::NoArbitrage);
}

#[test]
fn wei_and_details() {
    let analyzer = ArbitrageAnalyzer::new();
    assert_eq!(val(analyzer.wei_to_usd(2_000_000_000_000_000, d(3000, 0)).unwrap()), Decimal::from(6));
    let q = quote_at(d(2999, 0));
    assert_eq!(
        analyzer.create_dex_details(&q, d(4, 0)),
        DexDetails { effective_price_usd: d(2999, 0), price_impact_percent: d(1, 1), estimated_gas_cost_usd: d(4, 0) }
    );
}

#[test]
fn cycle_result_carries_both_venues() {
    let a = quote_at(d(3010, 0));
    let b = quote_at(d(3000, 0));
    let o = check_arbitrage_opportunity(1_700_000_000_000, d(10, 0), d(3005, 0), &a, &b, d(5, 0), d(3, 0)).unwrap();
    assert_eq!(o.timestamp_ms, 1_700_000_000_000);
    assert_eq!(o.reference_cex_price_usd, d(3005, 0));
    assert_eq!(o.uniswap_v4_details.estimated_gas_cost_usd, d(5, 0));
    assert_eq!(o.aerodrome_details.effective_price_usd, d(3000, 0));
    assert_eq!(val(o.arbitrage_summary.net_profit_usd), Decimal::from(92));
    assert_eq!(
        check_arbitrage_opportunity(0, d(10, 0), d(1, 0), &a, &b, d(1, 29), d(3, 0)),
        Err(ArgusError::NumericConversionError)
    );
}

#[test]
fn execution_cost_multiplies() {
    assert_eq!(argus::gas::execution_cost_wei(20_000_000_000, 150_000), Ok(3_000_000_000_000_000));
    assert_eq!(argus::gas::execution_cost_wei(u64::MAX, 2), Err(ArgusError::NumericConversionError));
}
