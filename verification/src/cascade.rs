//! Cascade transform: a prefix-sum-weighted, position-dependent diffusion
//! that expands every input byte into 16 little-endian bytes of a wrapping
//! 128-bit product, prefixed by a digest of the expanded buffer.

use vstd::prelude::*;
use vstd::bytes::{spec_u128_to_le_bytes, u128_to_le_bytes};
use vstd::wrapping::u128_specs;
use crate::digest::{sha256_of, sha256_bytes};

verus! {

/// Wrapping sum of the first `n` bytes of `s`.
pub open spec fn prefix_sum(s: Seq<u8>, n: int) -> u128
    decreases n,
{
    if n <= 0 {
        0u128
    } else {
        u128_specs::wrapping_add(prefix_sum(s, n - 1), s[n - 1] as u128)
    }
}

/// The weighted word for position `i`: the wrapping product of the prefix sum
/// through `i` and the 1-based position.
pub open spec fn weighted(s: Seq<u8>, i: int) -> u128 {
    u128_specs::wrapping_mul(prefix_sum(s, i + 1), (i + 1) as u128)
}

/// The cascade body after `n` input bytes: 16 little-endian bytes per byte.
pub open spec fn cascade_body(s: Seq<u8>, n: int) -> Seq<u8>
    decreases n,
{
    if n <= 0 {
        Seq::empty()
    } else {
        cascade_body(s, n - 1) + spec_u128_to_le_bytes(weighted(s, n - 1))
    }
}

/// The full transform: the digest of the body, then the body.
pub open spec fn endolium_spec(s: Seq<u8>) -> Seq<u8> {
    sha256_of(cascade_body(s, s.len() as int)) + cascade_body(s, s.len() as int)
}

/// Expand the blob: keep a wrapping 128-bit prefix sum of the byte values,
/// weight it by the 1-based position, and serialize each weighted value into
/// 16 little-endian bytes; finally prepend the SHA-256 digest of the expanded
/// buffer.  A one-byte change at position `i` changes the output from
/// position `i` on (the running sum carries it forward).
pub fn endolium_transform(blob: &Vec<u8>) -> (r: Vec<u8>)
    ensures
        r@ == endolium_spec(blob@),
        r@.len() == 32 + 16 * blob@.len(),
{
    let mut accum: Vec<u8> = Vec::new();
    let mut ps: u128 = 0;
    let mut i: usize = 0;
    while i < blob.len()
        invariant
            i <= blob@.len(),
            ps == prefix_sum(blob@, i as int),
            accum@ == cascade_body(blob@, i as int),
            accum@.len() == 16 * i,
        decreases blob@.len() - i,
    {
        let b = blob[i];
        ps = ps.wrapping_add(b as u128);
        let n = (i as u128).wrapping_add(1);
        let en = ps.wrapping_mul(n);
        let folded = u128_to_le_bytes(en);
        accum.extend_from_slice(folded.as_slice());
        i = i + 1;
    }
    let digest = sha256_bytes(&accum);
    let mut out = digest;
    out.extend_from_slice(accum.as_slice());
    out
}

} // verus!
