//! The two venues' on-chain reads: pool identity and call data.

use vstd::prelude::*;
use vstd::string::StringSliceAdditionalSpecFns;
use crate::abi::{
    call_data, keccak256, keccak_of, selector, spec_selector, spec_word_address, spec_word_i32, spec_word_u64,
    word_address, word_i32, word_u64, Address,
};

verus! {

/// Identity of a concentrated-liquidity pool.
#[derive(Clone, Copy, Debug, PartialEq, Eq)]
pub struct PoolKey {
    pub currency0: Address,
    pub currency1: Address,
    /// Fee tier in parts per million.
    pub fee: u32,
    pub tick_spacing: i32,
    pub hooks: Address,
}

/// The stablecoin of the monitored pair.
pub open spec fn usdc_bytes() -> Seq<u8> {
    seq![
        0xa0u8, 0xb8, 0x69, 0x91, 0xc6, 0x21, 0x8b, 0x36, 0xc1, 0xd1,
        0x9d, 0x4a, 0x2e, 0x9e, 0xb0, 0xce, 0x36, 0x06, 0xeb, 0x48,
    ]
}

impl PoolKey {
    /// The native-ETH / USDC pool: native ETH is the zero address, fee tier
    /// 500, tick spacing 10, no hooks.
    pub fn new_weth_usdc() -> (r: PoolKey)
        ensures
            r.currency0.bytes@ == Seq::new(20, |i: int| 0u8),
            r.currency1.bytes@ == usdc_bytes(),
            r.fee == 500,
            r.tick_spacing == 10,
            r.hooks.bytes@ == Seq::new(20, |i: int| 0u8),
    {
        let usdc = Address {
            bytes: [
                0xa0, 0xb8, 0x69, 0x91, 0xc6, 0x21, 0x8b, 0x36, 0xc1, 0xd1,
                0x9d, 0x4a, 0x2e, 0x9e, 0xb0, 0xce, 0x36, 0x06, 0xeb, 0x48,
            ],
        };
        assert(usdc.bytes@ =~= usdc_bytes());
        PoolKey { currency0: Address::zero(), currency1: usdc, fee: 500, tick_spacing: 10, hooks: Address::zero() }
    }

    /// ABI encoding of the five fields.
    pub open spec fn spec_encoding(self) -> Seq<u8> {
        spec_word_address(self.currency0) + spec_word_address(self.currency1) + spec_word_u64(self.fee as u64)
            + spec_word_i32(self.tick_spacing) + spec_word_address(self.hooks)
    }

    /// The pool identifier: digest of the encoded key.
    pub fn to_id(&self) -> (r: Vec<u8>)
        ensures
            r@ == keccak_of(self.spec_encoding()),
            r@.len() == 32,
    {
        let mut encoded = word_address(&self.currency0);
        encoded.append(&mut word_address(&self.currency1));
        encoded.append(&mut word_u64(self.fee as u64));
        encoded.append(&mut word_i32(self.tick_spacing));
        encoded.append(&mut word_address(&self.hooks));
        assert(encoded@ =~= self.spec_encoding());
        keccak256(encoded.as_slice())
    }
}

/// Call data of `getSlot0(bytes32)` for a pool identifier.
pub fn slot0_calldata(pool_id: &[u8]) -> (r: Vec<u8>)
    requires
        pool_id@.len() == 32,
    ensures
        r@ == spec_selector("getSlot0(bytes32)".spec_bytes()) + pool_id@,
{
    let s = selector("getSlot0(bytes32)");
    call_data(s.as_slice(), pool_id)
}

/// Call data of `getLiquidity(bytes32)` for a pool identifier.
pub fn liquidity_calldata(pool_id: &[u8]) -> (r: Vec<u8>)
    requires
        pool_id@.len() == 32,
    ensures
        r@ == spec_selector("getLiquidity(bytes32)".spec_bytes()) + pool_id@,
{
    let s = selector("getLiquidity(bytes32)");
    call_data(s.as_slice(), pool_id)
}

/// Call data of the constant-product pool's `getReserves()`.
pub fn reserves_calldata() -> (r: Vec<u8>)
    ensures
        r@ == spec_selector("getReserves()".spec_bytes()),
{
    selector("getReserves()")
}

} // verus!
