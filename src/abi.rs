//! Contract call data: function selectors and the ABI words of the few
//! argument kinds the engine sends.

use vstd::prelude::*;
use vstd::string::StringSliceAdditionalSpecFns;

verus! {

/// A 20-byte account address.
#[derive(Clone, Copy, Debug, PartialEq, Eq)]
pub struct Address {
    pub bytes: [u8; 20],
}

impl Address {
    pub fn zero() -> (r: Address)
        ensures
            r.bytes@ == Seq::new(20, |i: int| 0u8),
    {
        let r = Address { bytes: [0u8; 20] };
        assert(r.bytes@ =~= Seq::new(20, |i: int| 0u8));
        r
    }
}

/// What `ethers::utils::keccak256` gives for `data`.
pub uninterp spec fn keccak_of(data: Seq<u8>) -> Seq<u8>;

/// Relies on `ethers::utils::keccak256`: the 32-byte Keccak-256 digest.
#[verifier::external_body]
pub(crate) fn keccak256(data: &[u8]) -> (r: Vec<u8>)
    ensures
        r@ == keccak_of(data@),
        r@.len() == 32,
{
    ethers::utils::keccak256(data).to_vec()
}

/// First four bytes of the digest of a function signature.
pub open spec fn spec_selector(signature: Seq<u8>) -> Seq<u8> {
    keccak_of(signature).subrange(0, 4)
}

/// The selector of a function, from its signature such as `getReserves()`.
pub fn selector(signature: &str) -> (r: Vec<u8>)
    ensures
        r@ == spec_selector(signature.spec_bytes()),
{
    let digest = keccak256(signature.as_bytes());
    let mut r: Vec<u8> = Vec::new();
    let mut i: usize = 0;
    while i < 4
        invariant
            i <= 4,
            digest@.len() == 32,
            r@ == digest@.subrange(0, i as int),
        decreases 4 - i,
    {
        r.push(digest[i]);
        i = i + 1;
        assert(r@ =~= digest@.subrange(0, i as int));
    }
    r
}

/// Appends `n` copies of `fill`.
fn push_fill(v: &mut Vec<u8>, n: usize, fill: u8)
    ensures
        final(v)@ == old(v)@ + Seq::new(n as nat, |i: int| fill),
{
    let ghost start = v@;
    let mut i: usize = 0;
    while i < n
        invariant
            i <= n,
            v@ == start + Seq::new(i as nat, |j: int| fill),
        decreases n - i,
    {
        v.push(fill);
        i = i + 1;
        assert(v@ =~= start + Seq::new(i as nat, |j: int| fill));
    }
}

/// Appends the bytes of `b`.
fn push_all(v: &mut Vec<u8>, b: &[u8])
    ensures
        final(v)@ == old(v)@ + b@,
{
    let ghost start = v@;
    let mut i: usize = 0;
    while i < b.len()
        invariant
            i <= b@.len(),
            v@ == start + b@.subrange(0, i as int),
        decreases b@.len() - i,
    {
        v.push(b[i]);
        i = i + 1;
        assert(v@ =~= start + b@.subrange(0, i as int));
    }
    assert(b@.subrange(0, b@.len() as int) =~= b@);
}

/// ABI word of an unsigned 64-bit value: big-endian, left-padded with zeros.
pub open spec fn spec_word_u64(v: u64) -> Seq<u8> {
    Seq::new(24, |i: int| 0u8) + seq![
        (v >> 56u64) as u8, (v >> 48u64) as u8, (v >> 40u64) as u8, (v >> 32u64) as u8,
        (v >> 24u64) as u8, (v >> 16u64) as u8, (v >> 8u64) as u8, v as u8,
    ]
}

/// ABI word of a signed 32-bit value: two's complement, sign-extended.
pub open spec fn spec_word_i32(v: i32) -> Seq<u8> {
    Seq::new(28, |i: int| if v < 0 { 0xffu8 } else { 0u8 }) + seq![
        (v >> 24i32) as u8, (v >> 16i32) as u8, (v >> 8i32) as u8, v as u8,
    ]
}

/// ABI word of an address: left-padded with zeros.
pub open spec fn spec_word_address(a: Address) -> Seq<u8> {
    Seq::new(12, |i: int| 0u8) + a.bytes@
}

pub fn word_u64(v: u64) -> (r: Vec<u8>)
    ensures
        r@ == spec_word_u64(v),
{
    let mut r: Vec<u8> = Vec::new();
    push_fill(&mut r, 24, 0);
    r.push((v >> 56u64) as u8);
    r.push((v >> 48u64) as u8);
    r.push((v >> 40u64) as u8);
    r.push((v >> 32u64) as u8);
    r.push((v >> 24u64) as u8);
    r.push((v >> 16u64) as u8);
    r.push((v >> 8u64) as u8);
    r.push(v as u8);
    assert(r@ =~= spec_word_u64(v));
    r
}

pub fn word_i32(v: i32) -> (r: Vec<u8>)
    ensures
        r@ == spec_word_i32(v),
{
    let mut r: Vec<u8> = Vec::new();
    push_fill(&mut r, 28, if v < 0 { 0xff } else { 0 });
    r.push((v >> 24i32) as u8);
    r.push((v >> 16i32) as u8);
    r.push((v >> 8i32) as u8);
    r.push(v as u8);
    assert(r@ =~= spec_word_i32(v));
    r
}

pub fn word_address(a: &Address) -> (r: Vec<u8>)
    ensures
        r@ == spec_word_address(*a),
{
    let mut r: Vec<u8> = Vec::new();
    push_fill(&mut r, 12, 0);
    push_all(&mut r, &a.bytes);
    r
}

/// Zero bytes that pad `n` bytes to a whole number of words.
pub open spec fn padding(n: nat) -> nat {
    ((32 - n % 32) % 32) as nat
}

/// ABI encoding of a single dynamic `bytes` argument: offset word, length
/// word, then the data right-padded with zeros to a whole word.
pub open spec fn spec_encode_bytes(data: Seq<u8>) -> Seq<u8> {
    spec_word_u64(32) + spec_word_u64(data.len() as u64) + data + Seq::new(padding(data.len()), |i: int| 0u8)
}

pub fn encode_bytes(data: &[u8]) -> (r: Vec<u8>)
    requires
        data@.len() <= u64::MAX,
    ensures
        r@ == spec_encode_bytes(data@),
{
    let mut r = word_u64(32);
    let len_word = word_u64(data.len() as u64);
    push_all(&mut r, len_word.as_slice());
    push_all(&mut r, data);
    let pad: usize = (32 - data.len() % 32) % 32;
    push_fill(&mut r, pad, 0);
    r
}

/// A selector followed by the argument words.
pub fn call_data(selector: &[u8], arguments: &[u8]) -> (r: Vec<u8>)
    ensures
        r@ == selector@ + arguments@,
{
    let mut r: Vec<u8> = Vec::new();
    push_all(&mut r, selector);
    push_all(&mut r, arguments);
    assert(r@ =~= selector@ + arguments@);
    r
}

} // verus!
