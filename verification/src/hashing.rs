//! Commitment hashing: a bid commitment is the keccak-256 digest of the
//! 32-byte little-endian word of the bid followed by the 32-byte
//! little-endian word of the nonce.

use vstd::prelude::*;
use vstd::bytes::spec_u128_to_le_bytes;
use vstd::bytes::u128_to_le_bytes;

verus! {

/// The keccak-256 digest of a byte sequence, as a 32-byte sequence.
/// The digest is a function of the input bytes alone.
pub uninterp spec fn keccak_of(input: Seq<u8>) -> Seq<u8>;

/// Relies on stylus_sdk::crypto::keccak (alloy_primitives::keccak256):
/// the keccak-256 digest, 32 bytes, a function of the input bytes alone.
#[verifier::external_body]
fn keccak32(bytes: &Vec<u8>) -> (r: [u8; 32])
    ensures
        r@ == keccak_of(bytes@),
{
    stylus_sdk::crypto::keccak(bytes.as_slice()).0
}

/// The all-zero 32-byte word, used as "no commitment stored".
pub open spec fn zero_hash() -> Seq<u8> {
    Seq::new(32, |i: int| 0u8)
}

/// A 128-bit value widened to the 32-byte little-endian word that the
/// commitment scheme hashes: 16 value bytes, then 16 zero bytes.
pub open spec fn word_bytes(v: u128) -> Seq<u8> {
    spec_u128_to_le_bytes(v) + Seq::new(16, |i: int| 0u8)
}

/// The preimage a revealer must reproduce: the bid's word, then the nonce's.
pub open spec fn commitment_preimage(bid: u128, nonce: u128) -> Seq<u8> {
    word_bytes(bid) + word_bytes(nonce)
}

/// The 32-byte commitment that binds a bidder to `bid` and `nonce`.
pub open spec fn commitment_hash(bid: u128, nonce: u128) -> Seq<u8> {
    keccak_of(commitment_preimage(bid, nonce))
}

/// Appends the 32-byte little-endian word of `v` to `out`.
fn push_word_bytes(out: &mut Vec<u8>, v: u128)
    ensures
        final(out)@ == old(out)@ + word_bytes(v),
{
    let mut low = u128_to_le_bytes(v);
    let ghost mid = out@ + spec_u128_to_le_bytes(v);
    out.append(&mut low);
    assert(out@ == mid);
    let mut i: usize = 0;
    while i < 16
        invariant
            i <= 16,
            out@ == mid + Seq::new(i as nat, |j: int| 0u8),
        decreases 16 - i,
    {
        out.push(0u8);
        assert(mid + Seq::new((i + 1) as nat, |j: int| 0u8) == (mid + Seq::new(
            i as nat,
            |j: int| 0u8,
        )).push(0u8));
        i += 1;
    }
    assert(out@ == old(out)@ + word_bytes(v));
}

/// Computes the commitment a bidder must store to later reveal `(bid, nonce)`.
pub fn compute_commitment(bid: u128, nonce: u128) -> (r: [u8; 32])
    ensures
        r@ == commitment_hash(bid, nonce),
{
    let mut preimage: Vec<u8> = Vec::new();
    push_word_bytes(&mut preimage, bid);
    push_word_bytes(&mut preimage, nonce);
    assert(preimage@ == commitment_preimage(bid, nonce));
    keccak32(&preimage)
}

/// True exactly when the two 32-byte words hold the same bytes.
pub fn hash_eq(a: &[u8; 32], b: &[u8; 32]) -> (r: bool)
    ensures
        r <==> a@ == b@,
{
    let mut i: usize = 0;
    while i < 32
        invariant
            i <= 32,
            forall|j: int| 0 <= j < i ==> a@[j] == b@[j],
        decreases 32 - i,
    {
        if a[i] != b[i] {
            assert(a@ != b@);
            return false;
        }
        i += 1;
    }
    assert(a@ =~= b@);
    true
}

/// True exactly when the 32-byte word is all zeroes.
pub fn hash_is_zero(h: &[u8; 32]) -> (r: bool)
    ensures
        r <==> h@ == zero_hash(),
{
    let mut i: usize = 0;
    while i < 32
        invariant
            i <= 32,
            forall|j: int| 0 <= j < i ==> h@[j] == 0u8,
        decreases 32 - i,
    {
        if h[i] != 0 {
            assert(h@[i as int] != zero_hash()[i as int]);
            return false;
        }
        i += 1;
    }
    assert(h@ =~= zero_hash());
    true
}

} // verus!
