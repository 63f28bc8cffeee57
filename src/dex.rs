//! Pool snapshots and the decoding of raw contract responses into them.
//!
//! Contract responses are sequences of 32-byte big-endian words; only the
//! low-order bytes of each word carry a value.

use vstd::prelude::*;
use crate::decimal::Dec;
use crate::error::ArgusError;

verus! {

/// Venue-agnostic pool snapshot.
#[derive(Clone, Copy, Debug, PartialEq, Eq, Structural)]
pub struct PoolState {
    /// Square root of the price, as a Q64.96 fixed-point number.
    pub sqrt_price_x96: u128,
    /// Log-spaced price index; zero for the constant-product venue.
    pub tick: i32,
    pub liquidity: u128,
    /// Fee in parts per million.
    pub fee: u32,
}

impl PoolState {
    /// Usable pool data: zero liquidity signals a pool that cannot quote.
    pub open spec fn wf(self) -> bool {
        self.liquidity > 0
    }
}

/// The fields of a concentrated-liquidity pool's `slot0` read.
#[derive(Clone, Copy, Debug, PartialEq, Eq, Structural)]
pub struct Slot0 {
    pub sqrt_price_x96: u128,
    pub tick: i32,
    pub protocol_fee: u32,
    pub lp_fee: u32,
}

/// Result of a quote computation.
#[derive(Clone, Copy, Debug, PartialEq, Eq)]
pub struct SwapQuote {
    pub amount_out: Dec,
    pub effective_price: Dec,
    pub price_impact: Dec,
    pub gas_estimate: u64,
}

pub const WORD: usize = 32;

/// `256^n`.
pub open spec fn pow256(n: nat) -> nat
    decreases n,
{
    if n == 0 {
        1
    } else {
        256 * pow256((n - 1) as nat)
    }
}

/// Big-endian unsigned value of a byte sequence.
pub open spec fn be_value(b: Seq<u8>) -> nat
    decreases b.len(),
{
    if b.len() == 0 {
        0
    } else {
        (be_value(b.drop_last()) * 256 + b.last()) as nat
    }
}

/// The value of word `w` truncated to its low 128 bits.
pub open spec fn word_low128(b: Seq<u8>, w: int) -> nat {
    be_value(b.subrange(WORD * w + 16, WORD * w + 32))
}

/// Unsigned value of the low three bytes of word `w`.
pub open spec fn word_low24(b: Seq<u8>, w: int) -> nat {
    be_value(b.subrange(WORD * w + 29, WORD * w + 32))
}

/// Two's-complement value of the low three bytes of word `w`.
pub open spec fn word_low24_signed(b: Seq<u8>, w: int) -> int {
    let v = word_low24(b, w);
    if b[WORD * w + 29] >= 0x80 {
        v - 0x100_0000
    } else {
        v as int
    }
}

pub open spec fn short_response(expected: usize, b: Seq<u8>) -> ArgusError {
    ArgusError::DecodeError { expected, actual: b.len() as usize }
}

/// Two reserves, each from a word truncated to 128 bits; both must be nonzero.
pub open spec fn spec_decode_reserves(b: Seq<u8>) -> Result<(u128, u128), ArgusError> {
    if b.len() < 2 * WORD {
        Err(short_response(64, b))
    } else if word_low128(b, 0) == 0 || word_low128(b, 1) == 0 {
        Err(ArgusError::InsufficientLiquidity)
    } else {
        Ok((word_low128(b, 0) as u128, word_low128(b, 1) as u128))
    }
}

/// Sqrt price, tick, protocol fee and LP fee from four words.
pub open spec fn spec_decode_slot0(b: Seq<u8>) -> Result<Slot0, ArgusError> {
    if b.len() < 4 * WORD {
        Err(short_response(128, b))
    } else {
        Ok(
            Slot0 {
                sqrt_price_x96: word_low128(b, 0) as u128,
                tick: word_low24_signed(b, 1) as i32,
                protocol_fee: word_low24(b, 2) as u32,
                lp_fee: word_low24(b, 3) as u32,
            },
        )
    }
}

/// Liquidity from one word truncated to 128 bits.
pub open spec fn spec_decode_liquidity(b: Seq<u8>) -> Result<u128, ArgusError> {
    if b.len() < WORD {
        Err(short_response(32, b))
    } else {
        Ok(word_low128(b, 0) as u128)
    }
}

proof fn lemma_pow256_16()
    ensures
        pow256(16) == 0x1_0000_0000_0000_0000_0000_0000_0000_0000nat,
{
    reveal_with_fuel(pow256, 17);
}

proof fn lemma_be_value_bound(b: Seq<u8>)
    ensures
        be_value(b) < pow256(b.len()),
    decreases b.len(),
{
    if b.len() > 0 {
        let p = b.drop_last();
        lemma_be_value_bound(p);
        let v = be_value(p);
        let q = pow256(p.len());
        let l = b.last();
        assert(v * 256 + l < 256 * q) by (nonlinear_arith)
            requires
                v < q,
                l < 256,
        ;
    }
}

/// Big-endian value of `n` bytes from `start`, `n` at most 16.
pub(crate) fn read_be(data: &[u8], start: usize, n: usize) -> (r: u128)
    requires
        n <= 16,
        start + n <= data@.len(),
    ensures
        r == be_value(data@.subrange(start as int, start + n)),
{
    let mut acc: u128 = 0;
    let mut i: usize = start;
    let len = data.len();
    let end: usize = start + n;
    while i < end
        invariant
            end == start + n,
            start <= i <= start + n <= data@.len(),
            n <= 16,
            acc == be_value(data@.subrange(start as int, i as int)),
        decreases end - i,
    {
        proof {
            let s = data@.subrange(start as int, i as int);
            let t = data@.subrange(start as int, i + 1);
            assert(t.drop_last() =~= s);
            lemma_be_value_bound(t);
            lemma_pow256_16();
            assert(pow256(t.len()) <= pow256(16)) by {
                lemma_pow256_mono(t.len(), 16);
            }
        }
        acc = acc * 256 + data[i] as u128;
        i = i + 1;
    }
    acc
}

proof fn lemma_pow256_mono(a: nat, b: nat)
    requires
        a <= b,
    ensures
        pow256(a) <= pow256(b),
    decreases b,
{
    if a < b {
        lemma_pow256_mono(a, (b - 1) as nat);
    }
}

/// Decodes a two-reserve response.
pub fn decode_reserves(data: &[u8]) -> (r: Result<(u128, u128), ArgusError>)
    ensures
        r == spec_decode_reserves(data@),
{
    if data.len() < 2 * WORD {
        return Err(ArgusError::DecodeError { expected: 2 * WORD, actual: data.len() });
    }
    let r0 = read_be(data, 16, 16);
    let r1 = read_be(data, WORD + 16, 16);
    if r0 == 0 || r1 == 0 {
        return Err(ArgusError::InsufficientLiquidity);
    }
    Ok((r0, r1))
}

/// Decodes a sqrt-price / tick / fee response.
pub fn decode_slot0(data: &[u8]) -> (r: Result<Slot0, ArgusError>)
    ensures
        r == spec_decode_slot0(data@),
{
    if data.len() < 4 * WORD {
        return Err(ArgusError::DecodeError { expected: 4 * WORD, actual: data.len() });
    }
    let sqrt_price_x96 = read_be(data, 16, 16);
    let tick_raw = read_be(data, WORD + 29, 3);
    proof {
        lemma_be_value_bound(data@.subrange(WORD + 29, WORD + 32));
        reveal_with_fuel(pow256, 4);
    }
    let tick: i32 = if data[WORD + 29] >= 0x80 {
        (tick_raw as i32) - 0x100_0000
    } else {
        tick_raw as i32
    };
    let protocol_fee = read_be(data, 2 * WORD + 29, 3);
    let lp_fee = read_be(data, 3 * WORD + 29, 3);
    proof {
        lemma_be_value_bound(data@.subrange(2 * WORD + 29, 2 * WORD + 32));
        lemma_be_value_bound(data@.subrange(3 * WORD + 29, 3 * WORD + 32));
    }
    Ok(
        Slot0 {
            sqrt_price_x96,
            tick,
            protocol_fee: protocol_fee as u32,
            lp_fee: lp_fee as u32,
        },
    )
}

/// Decodes a liquidity-only response.
pub fn decode_liquidity(data: &[u8]) -> (r: Result<u128, ArgusError>)
    ensures
        r == spec_decode_liquidity(data@),
{
    if data.len() < WORD {
        return Err(ArgusError::DecodeError { expected: WORD, actual: data.len() });
    }
    Ok(read_be(data, 16, 16))
}

/// Decoding is a function of the bytes alone: the same response decodes to
/// the same values every time.
pub proof fn lemma_decoding_is_deterministic(a: Seq<u8>, b: Seq<u8>)
    requires
        a == b,
    ensures
        spec_decode_reserves(a) == spec_decode_reserves(b),
        spec_decode_slot0(a) == spec_decode_slot0(b),
        spec_decode_liquidity(a) == spec_decode_liquidity(b),
{
}

/// A reserve pair holding a zero is always rejected with
/// `InsufficientLiquidity`, and every accepted pair is strictly positive.
pub proof fn lemma_zero_reserve_rejected(b: Seq<u8>)
    ensures
        b.len() >= 64 && (word_low128(b, 0) == 0 || word_low128(b, 1) == 0)
            ==> spec_decode_reserves(b) == Err::<(u128, u128), ArgusError>(ArgusError::InsufficientLiquidity),
        spec_decode_reserves(b) is Ok ==> spec_decode_reserves(b)->Ok_0.0 > 0 && spec_decode_reserves(b)->Ok_0.1 > 0,
{
    if b.len() >= 64 {
        lemma_be_value_bound(b.subrange(16, 32));
        lemma_be_value_bound(b.subrange(48, 64));
        lemma_pow256_16();
    }
}

/// The decoded tick is negative exactly when the sign bit (bit 23 of the
/// tick word's low three bytes) is set, and lies in the 24-bit range.
pub proof fn lemma_tick_sign(b: Seq<u8>)
    requires
        b.len() >= 128,
    ensures
        spec_decode_slot0(b)->Ok_0.tick < 0 <==> b[61] >= 0x80,
        -0x80_0000 <= spec_decode_slot0(b)->Ok_0.tick < 0x80_0000,
        spec_decode_slot0(b)->Ok_0.tick == word_low24_signed(b, 1),
{
    let t = b.subrange(61, 64);
    reveal_with_fuel(be_value, 4);
    assert(t.drop_last().drop_last().drop_last().len() == 0);
    assert(t.drop_last().last() == b[62]);
    assert(t.drop_last().drop_last().last() == b[61]);
    assert(be_value(t) == b[61] * 65536 + b[62] * 256 + b[63]);
}

/// Decodes the concentrated-liquidity pool from its `slot0` and liquidity
/// responses.
pub fn decode_concentrated_pool_state(slot0_data: &[u8], liquidity_data: &[u8]) -> (r: Result<PoolState, ArgusError>)
    ensures
        spec_decode_slot0(slot0_data@) is Err ==> r == Err::<PoolState, ArgusError>(spec_decode_slot0(slot0_data@)->Err_0),
        spec_decode_slot0(slot0_data@) is Ok && spec_decode_liquidity(liquidity_data@) is Err
            ==> r == Err::<PoolState, ArgusError>(spec_decode_liquidity(liquidity_data@)->Err_0),
        spec_decode_slot0(slot0_data@) is Ok && spec_decode_liquidity(liquidity_data@) is Ok ==> {
            let s = spec_decode_slot0(slot0_data@)->Ok_0;
            let l = spec_decode_liquidity(liquidity_data@)->Ok_0;
            &&& l == 0 ==> r == Err::<PoolState, ArgusError>(ArgusError::InsufficientLiquidity)
            &&& l > 0 ==> r == Ok::<PoolState, ArgusError>(
                PoolState { sqrt_price_x96: s.sqrt_price_x96, tick: s.tick, liquidity: l, fee: s.lp_fee },
            )
        },
{
    let slot0 = decode_slot0(slot0_data)?;
    let liquidity = decode_liquidity(liquidity_data)?;
    crate::concentrated::concentrated_pool_state(slot0, liquidity)
}

} // verus!
