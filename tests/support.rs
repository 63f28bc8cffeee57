use argus::abi::{encode_bytes, selector, word_address, word_i32, word_u64, Address};
use argus::cex::{cex_price, format_pair, format_symbol, kraken_price_text, pair_label};
use argus::config::{parse_u16, CexProvider, Config};
use argus::decimal::{pow10_u128, to_units, Dec};
use argus::error::ArgusError;
use argus::utils::{format_address, sqrt_price_x96_to_price};
use argus::venues::{liquidity_calldata, reserves_calldata, slot0_calldata, PoolKey};
use rust_decimal::Decimal;

fn d(mantissa: i128, scale: u32) -> Dec {
    Dec::new(mantissa, scale)
}

fn val(x: Dec) -> Decimal {
    Decimal::from_i128_with_scale(x.mantissa, x.scale)
}

#[test]
fn address_is_lowercased() {
    assert_eq!(
        format_address("0xA0b86991c6218b36c1d19D4a2e9Eb0cE3606eB48"),
        Ok("0xa0b86991c6218b36c1d19d4a2e9eb0ce3606eb48".to_string())
    );
}

#[test]
fn malformed_address_is_config_error() {
    assert!(matches!(format_address("A0b86991c6218b36c1d19D4a2e9Eb0cE3606eB48"), Err(ArgusError::ConfigError(_))));
    assert!(matches!(format_address("0x1234"), Err(ArgusError::ConfigError(_))));
    assert!(matches!(format_address("1xA0b86991c6218b36c1d19D4a2e9Eb0cE3606eB48"), Err(ArgusError::ConfigError(_))));
}

#[test]
fn provider_names_ignore_case() {
    assert_eq!(CexProvider::parse("Coinbase"), Ok(CexProvider::Coinbase));
    assert_eq!(CexProvider::parse("KRAKEN"), Ok(CexProvider::Kraken));
    assert_eq!("binance".parse::<CexProvider>(), Ok(CexProvider::Binance));
    assert!(matches!(CexProvider::parse("bitstamp"), Err(ArgusError::ConfigError(_))));
}

#[test]
fn config_defaults_and_requirements() {
    let c = Config::from_settings(None, None, None, Some("http://eth".to_string()), Some("http://base".to_string()), None)
        .unwrap();
    assert_eq!(c.server.host, "0.0.0.0");
    assert_eq!(c.server.port, 8080);
    assert_eq!(c.server.log_level, "info");
    assert_eq!(c.ethereum.chain_id, 1);
    assert_eq!(c.base.chain_id, 8453);
    assert_eq!(c.cex.provider, CexProvider::Coinbase);
    assert_eq!(c.trading.default_trade_size_eth, "10");
    let c = Config::from_settings(
        Some("127.0.0.1".to_string()),
        Some("9000".to_string()),
        Some("debug".to_string()),
        Some("http://eth".to_string()),
        Some("http://base".to_string()),
        Some("Kraken".to_string()),
    )
    .unwrap();
    assert_eq!(c.server.port, 9000);
    assert_eq!(c.cex.provider, CexProvider::Kraken);
    let unknown = Config::from_settings(None, None, None, Some("e".to_string()), Some("b".to_string()), Some("x".to_string()));
    assert_eq!(unknown.unwrap().cex.provider, CexProvider::Coinbase);
    assert!(matches!(
        Config::from_settings(None, Some("http".to_string()), None, Some("e".to_string()), Some("b".to_string()), None),
        Err(ArgusError::ConfigError(_))
    ));
    assert!(matches!(
        Config::from_settings(None, None, None, None, Some("b".to_string()), None),
        Err(ArgusError::ConfigError(_))
    ));
    assert!(matches!(
        Config::from_settings(None, None, None, Some("e".to_string()), None, None),
        Err(ArgusError::ConfigError(_))
    ));
}

#[test]
fn exchange_symbols() {
    assert_eq!(format_symbol("eth", "usdc"), "ETHUSDC");
    assert_eq!(format_pair("Eth", "Usdc"), "ETHUSDC");
    assert_eq!(pair_label("eth", "usdc"), "ETH/USDC");
}

#[test]
fn exchange_price_parsing() {
    let p = cex_price("Binance", "eth", "usdc", Some("3012.25".to_string()), 17).unwrap();
    assert_eq!(p.exchange, "Binance");
    assert_eq!(p.pair, "ETH/USDC");
    assert_eq!(val(p.price), Decimal::from_i128_with_scale(301225, 2));
    assert_eq!(p.timestamp_ms, 17);
    assert!(matches!(cex_price("Kraken", "eth", "usdc", Some("abc".to_string()), 0), Err(ArgusError::CexApiError(_))));
    assert!(matches!(cex_price("Coinbase", "eth", "usdc", None, 0), Err(ArgusError::CexApiError(_))));
}

#[test]
fn kraken_answer_selection() {
    let ok = kraken_price_text(&vec![], &Some(vec![vec!["3001.5".to_string(), "1.0".to_string()]]));
    assert_eq!(ok, Ok("3001.5".to_string()));
    assert!(matches!(kraken_price_text(&vec!["EQuery:Unknown asset pair".to_string()], &None), Err(ArgusError::CexApiError(_))));
    assert!(matches!(kraken_price_text(&vec![], &None), Err(ArgusError::CexApiError(_))));
    assert!(matches!(kraken_price_text(&vec![], &Some(vec![])), Err(ArgusError::CexApiError(_))));
    assert!(matches!(kraken_price_text(&vec![], &Some(vec![vec![]])), Err(ArgusError::CexApiError(_))));
}

#[test]
fn sqrt_price_conversion() {
    let q96: u128 = 1 << 96;
    assert_eq!(val(sqrt_price_x96_to_price(q96, 18, 18).unwrap()), Decimal::ONE);
    assert_eq!(val(sqrt_price_x96_to_price(q96, 18, 6).unwrap()), Decimal::from(1_000_000_000_000i64));
    assert_eq!(val(sqrt_price_x96_to_price(2 * q96, 6, 18).unwrap()), Decimal::from_i128_with_scale(4, 12));
    assert_eq!(val(sqrt_price_x96_to_price(3 * q96, 18, 16).unwrap()), Decimal::from(900));
    assert_eq!(val(sqrt_price_x96_to_price(q96 / 2, 0, 0).unwrap()), Decimal::from_i128_with_scale(25, 2));
    let eth_usdc = sqrt_price_x96_to_price(4_339_505_179_874_779_489_431_521, 18, 6).unwrap();
    assert!((val(eth_usdc) - Decimal::from(3000)).abs() < Decimal::from_i128_with_scale(1, 6));
    assert!(matches!(sqrt_price_x96_to_price(0, 18, 6), Err(ArgusError::CalculationError(_))));
    assert!(matches!(sqrt_price_x96_to_price((1 << 48) - 1, 18, 6), Err(ArgusError::CalculationError(_))));
    assert_eq!(sqrt_price_x96_to_price(q96, 40, 6), Err(ArgusError::NumericConversionError));
    assert_eq!(sqrt_price_x96_to_price(u128::MAX, 18, 6), Err(ArgusError::NumericConversionError));
}

#[test]
fn port_text_parses_like_std() {
    for text in ["8080", "+80", "0", "00065535", "65535", "65536", "-1", "", "+", "12a", " 1", "99999999999"] {
        assert_eq!(parse_u16(text), text.parse::<u16>().ok(), "{text}");
    }
}

#[test]
fn decimal_text_parses() {
    assert_eq!(val(Dec::parse("-12.5").unwrap()), Decimal::from_i128_with_scale(-125, 1));
    assert_eq!(val(Dec::parse("10").unwrap()), Decimal::from(10));
    assert_eq!(Dec::parse("twelve"), Err(ArgusError::NumericConversionError));
    assert_eq!(Dec::parse(""), Err(ArgusError::NumericConversionError));
}

#[test]
fn units_conversion() {
    assert_eq!(to_units(d(15, 1), 18), Some(1_500_000_000_000_000_000));
    assert_eq!(to_units(d(25, 1), 0), Some(2));
    assert_eq!(to_units(d(35, 1), 0), Some(4));
    assert_eq!(to_units(d(26, 1), 0), Some(3));
    assert_eq!(to_units(d(-1, 0), 0), None);
    assert_eq!(pow10_u128(5), 100_000);
}

#[test]
fn abi_words() {
    let w = word_u64(0x0102);
    assert_eq!(w.len(), 32);
    assert_eq!(&w[30..], &[0x01, 0x02]);
    assert!(w[..30].iter().all(|b| *b == 0));
    let n = word_i32(-2);
    assert!(n[..31].iter().all(|b| *b == 0xff));
    assert_eq!(n[31], 0xfe);
    let a = word_address(&Address { bytes: [0x11; 20] });
    assert!(a[..12].iter().all(|b| *b == 0));
    assert!(a[12..].iter().all(|b| *b == 0x11));
    let e = encode_bytes(&[1, 2, 3]);
    assert_eq!(e.len(), 96);
    assert_eq!(e[31], 32);
    assert_eq!(e[63], 3);
    assert_eq!(&e[64..67], &[1, 2, 3]);
}

#[test]
fn digests_and_selectors() {
    assert_eq!(selector(""), vec![0xc5, 0xd2, 0x46, 0x01]);
    assert_eq!(selector("getReserves()"), vec![0x09, 0x02, 0xf1, 0xac]);
    assert_eq!(reserves_calldata(), vec![0x09, 0x02, 0xf1, 0xac]);
    let id = PoolKey::new_weth_usdc().to_id();
    assert_eq!(id.len(), 32);
    let slot0 = slot0_calldata(&id);
    assert_eq!(slot0.len(), 36);
    assert_eq!(&slot0[4..], &id[..]);
    let liquidity = liquidity_calldata(&id);
    assert_eq!(&liquidity[4..], &id[..]);
    assert_ne!(&slot0[..4], &liquidity[..4]);
}

#[test]
fn pool_key_fields() {
    let k = PoolKey::new_weth_usdc();
    assert_eq!(k.currency0, Address { bytes: [0; 20] });
    assert_eq!(k.currency1.bytes[0], 0xa0);
    assert_eq!(k.currency1.bytes[19], 0x48);
    assert_eq!(k.fee, 500);
    assert_eq!(k.tick_spacing, 10);
    let mut other = k;
    other.fee = 3000;
    assert_ne!(other.to_id(), k.to_id());
}
