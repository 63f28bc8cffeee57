use argus::dex::{decode_concentrated_pool_state, decode_liquidity, decode_reserves, decode_slot0, PoolState};
use argus::error::ArgusError;

fn word_u128(v: u128) -> Vec<u8> {
    let mut w = vec![0u8; 16];
    w.extend_from_slice(&v.to_be_bytes());
    w
}

fn word_low3(b: [u8; 3]) -> Vec<u8> {
    let mut w = vec![0u8; 29];
    w.extend_from_slice(&b);
    w
}

fn slot0_response(sqrt: u128, tick: [u8; 3], protocol_fee: [u8; 3], lp_fee: [u8; 3]) -> Vec<u8> {
    let mut r = word_u128(sqrt);
    r.extend(word_low3(tick));
    r.extend(word_low3(protocol_fee));
    r.extend(word_low3(lp_fee));
    r
}

#[test]
fn reserves_decode_both_words() {
    let mut data = word_u128(1_000_000_000_000_000_000_000);
    data.extend(word_u128(3_000_000_000_000));
    assert_eq!(decode_reserves(&data), Ok((1_000_000_000_000_000_000_000, 3_000_000_000_000)));
}

#[test]
fn reserves_short_response_is_decode_error() {
    let data = vec![1u8; 63];
    assert_eq!(decode_reserves(&data), Err(ArgusError::DecodeError { expected: 64, actual: 63 }));
}

#[test]
fn reserves_with_a_zero_are_insufficient_liquidity() {
    let mut data = word_u128(0);
    data.extend(word_u128(5));
    assert_eq!(decode_reserves(&data), Err(ArgusError::InsufficientLiquidity));
    let mut data = word_u128(5);
    data.extend(word_u128(0));
    assert_eq!(decode_reserves(&data), Err(ArgusError::InsufficientLiquidity));
    let data = vec![0u8; 64];
    assert_eq!(decode_reserves(&data), Err(ArgusError::InsufficientLiquidity));
}

#[test]
fn reserves_keep_only_low_128_bits() {
    let mut data = vec![0xffu8; 16];
    data.extend_from_slice(&7u128.to_be_bytes());
    data.extend(word_u128(9));
    assert_eq!(decode_reserves(&data), Ok((7, 9)));
    let mut high_only = vec![0xffu8; 16];
    high_only.extend_from_slice(&0u128.to_be_bytes());
    high_only.extend(word_u128(9));
    assert_eq!(decode_reserves(&high_only), Err(ArgusError::InsufficientLiquidity));
}

#[test]
fn tick_positive_ten() {
    let s = decode_slot0(&slot0_response(1, [0x00, 0x00, 0x0a], [0, 0, 0], [0, 0, 0])).unwrap();
    assert_eq!(s.tick, 10);
}

#[test]
fn tick_sign_bit_gives_negative() {
    let s = decode_slot0(&slot0_response(1, [0xff, 0x00, 0x00], [0, 0, 0], [0, 0, 0])).unwrap();
    assert_eq!(s.tick, -65536);
    let s = decode_slot0(&slot0_response(1, [0x80, 0x00, 0x00], [0, 0, 0], [0, 0, 0])).unwrap();
    assert_eq!(s.tick, -8_388_608);
    let s = decode_slot0(&slot0_response(1, [0xff, 0xff, 0xff], [0, 0, 0], [0, 0, 0])).unwrap();
    assert_eq!(s.tick, -1);
}

#[test]
fn tick_without_sign_bit_is_non_negative() {
    let s = decode_slot0(&slot0_response(1, [0x7f, 0xff, 0xff], [0, 0, 0], [0, 0, 0])).unwrap();
    assert_eq!(s.tick, 8_388_607);
    let s = decode_slot0(&slot0_response(1, [0x00, 0x80, 0x00], [0, 0, 0], [0, 0, 0])).unwrap();
    assert_eq!(s.tick, 32768);
}

#[test]
fn slot0_fees_and_sqrt_price() {
    let s = decode_slot0(&slot0_response(4_339_505_179_874_779_489_431_521, [0, 0, 1], [0x01, 0x02, 0x03], [0x00, 0x01, 0xf4]))
        .unwrap();
    assert_eq!(s.sqrt_price_x96, 4_339_505_179_874_779_489_431_521);
    assert_eq!(s.protocol_fee, 0x010203);
    assert_eq!(s.lp_fee, 500);
}

#[test]
fn slot0_short_response_is_decode_error() {
    let data = vec![0u8; 127];
    assert_eq!(decode_slot0(&data), Err(ArgusError::DecodeError { expected: 128, actual: 127 }));
}

#[test]
fn liquidity_decodes_and_checks_width() {
    assert_eq!(decode_liquidity(&word_u128(123_456)), Ok(123_456));
    assert_eq!(decode_liquidity(&[0u8; 31]), Err(ArgusError::DecodeError { expected: 32, actual: 31 }));
}

#[test]
fn decoding_twice_gives_identical_state() {
    let slot0 = slot0_response(79_228_162_514_264_337_593_543_950_336, [0xfe, 0xdc, 0xba], [0, 0, 0], [0, 0x0b, 0xb8]);
    let liquidity = word_u128(42);
    let a = decode_concentrated_pool_state(&slot0, &liquidity);
    let b = decode_concentrated_pool_state(&slot0, &liquidity);
    assert_eq!(a, b);
    assert_eq!(
        a,
        Ok(PoolState { sqrt_price_x96: 79_228_162_514_264_337_593_543_950_336, tick: -74_566, liquidity: 42, fee: 3000 })
    );
    let mut reserves = word_u128(11);
    reserves.extend(word_u128(13));
    assert_eq!(decode_reserves(&reserves), decode_reserves(&reserves));
}

#[test]
fn zero_liquidity_is_rejected() {
    let slot0 = slot0_response(1, [0, 0, 0], [0, 0, 0], [0, 0, 0]);
    assert_eq!(decode_concentrated_pool_state(&slot0, &word_u128(0)), Err(ArgusError::InsufficientLiquidity));
}
