//! Progressive-difficulty proof-of-work gate: a numeric acceptance threshold
//! that shrinks as the accumulated character count grows, and the check of a
//! submitted nonce against it.

use vstd::prelude::*;
use vstd::arithmetic::power2::{pow2, lemma_pow2_unfold, lemma2_to64, lemma2_to64_rest};
use vstd::bytes::{spec_u64_to_le_bytes, spec_u128_from_le_bytes, u64_to_le_bytes, u128_from_le_bytes};
use vstd::slice::slice_subrange;
use crate::digest::{keccak_of, keccak256};

verus! {

/// Floor of the base-2 logarithm; 0 for arguments below 2.
pub open spec fn log2_floor(x: int) -> int
    decreases x,
{
    if x <= 1 {
        0
    } else {
        1 + log2_floor(x / 2)
    }
}

pub proof fn lemma_log2_nonneg(x: int)
    ensures
        log2_floor(x) >= 0,
    decreases x,
{
    if x > 1 {
        lemma_log2_nonneg(x / 2);
    }
}

pub proof fn lemma_log2_monotonic(x: int, y: int)
    requires
        x <= y,
    ensures
        log2_floor(x) <= log2_floor(y),
    decreases y,
{
    if y <= 1 {
    } else if x <= 1 {
        lemma_log2_nonneg(y);
    } else {
        lemma_log2_monotonic(x / 2, y / 2);
    }
}

/// Below `pow2(n)` the floor logarithm stays below `n`.
pub proof fn lemma_log2_bound(x: int, n: nat)
    requires
        x < pow2(n),
    ensures
        log2_floor(x) < n || n == 0,
    decreases n,
{
    if n == 0 {
    } else if x <= 1 {
    } else {
        lemma2_to64();
        if n > 1 {
            lemma_pow2_unfold(n);
            lemma_log2_bound(x / 2, (n - 1) as nat);
        }
    }
}

/// The bit count the threshold is shifted by: base bits plus the floor logarithm of
/// `1 + total_chars`, saturating at 255.
pub open spec fn threshold_bits(total_chars: u64, base_bits: u8) -> int {
    let extra = log2_floor(1 + total_chars as int);
    if base_bits + extra > 255 {
        255int
    } else {
        base_bits + extra
    }
}

/// Numeric acceptance threshold: `u128::MAX >> bits`, or 0 once the bit count
/// reaches 127 (the deliberate "max difficulty" ceiling).
pub open spec fn threshold_spec(total_chars: u64, base_bits: u8) -> u128 {
    let bits = threshold_bits(total_chars, base_bits);
    if bits >= 127 {
        0u128
    } else {
        u128::MAX >> (bits as u128)
    }
}

/// Floor of the base-2 logarithm, by repeated halving.
pub fn integer_log2(x: u128) -> (r: u128)
    ensures
        r == log2_floor(x as int),
        r <= 127,
{
    proof {
        lemma2_to64();
        lemma2_to64_rest();
        vstd::arithmetic::power2::lemma_pow2_adds(64, 64);
        lemma_log2_bound(x as int, 128);
        lemma_log2_nonneg(x as int);
    }
    let mut v = x;
    let mut r: u128 = 0;
    while v > 1
        invariant
            r + log2_floor(v as int) == log2_floor(x as int),
            log2_floor(v as int) >= 0,
            r <= 127,
        decreases v,
    {
        proof {
            lemma_log2_nonneg(v as int / 2);
        }
        v = v / 2;
        r = r + 1;
    }
    r
}

/// Threshold from the accumulated character count and the base difficulty:
/// difficulty grows logarithmically with `total_chars`.
pub fn compute_threshold(total_chars: u64, base_bits: u8) -> (r: u128)
    ensures
        r == threshold_spec(total_chars, base_bits),
{
    let x: u128 = 1 + total_chars as u128;
    let extra_wide = integer_log2(x);
    proof {
        lemma2_to64();
        lemma2_to64_rest();
        vstd::arithmetic::power2::lemma_pow2_adds(64, 1);
        lemma_log2_bound(x as int, 65);
    }
    let extra = extra_wide as u8;
    let bits = base_bits.saturating_add(extra);
    if bits >= 127 {
        0
    } else {
        u128::MAX >> (bits as u128)
    }
}

/// The 128-bit value a nonce hashes to: the first 16 bytes of
/// keccak(identity ‖ text ‖ le(nonce)), read little-endian.
pub open spec fn work_value(identity: Seq<u8>, text: Seq<u8>, nonce: u64) -> u128 {
    spec_u128_from_le_bytes(keccak_of(identity + text + spec_u64_to_le_bytes(nonce)).take(16))
}

pub open spec fn verify_spec(identity: Seq<u8>, text: Seq<u8>, nonce: u64, threshold: u128) -> bool {
    work_value(identity, text, nonce) <= threshold
}

/// Accept a submitted proof-of-work nonce iff its hash value does not exceed
/// the threshold.
pub fn verify_work(identity: &[u8], text: &[u8], nonce: u64, threshold: u128) -> (r: bool)
    ensures
        r == verify_spec(identity@, text@, nonce, threshold),
{
    let mut seed: Vec<u8> = Vec::new();
    seed.extend_from_slice(identity);
    seed.extend_from_slice(text);
    let nonce_bytes = u64_to_le_bytes(nonce);
    seed.extend_from_slice(nonce_bytes.as_slice());
    proof {
        assert(seed@ =~= identity@ + text@ + spec_u64_to_le_bytes(nonce));
    }
    let h = keccak256(&seed);
    let head = slice_subrange(h.as_slice(), 0, 16);
    proof {
        assert(head@ =~= keccak_of(identity@ + text@ + spec_u64_to_le_bytes(nonce)).take(16));
    }
    let val = u128_from_le_bytes(head);
    val <= threshold
}

/// Raising the accumulated character count never raises the threshold:
/// difficulty is monotone for a fixed base.
pub proof fn lemma_threshold_monotonic(total_chars1: u64, total_chars2: u64, base_bits: u8)
    requires
        total_chars1 <= total_chars2,
    ensures
        threshold_spec(total_chars2, base_bits) <= threshold_spec(total_chars1, base_bits),
{
    lemma_log2_monotonic(1 + total_chars1 as int, 1 + total_chars2 as int);
    lemma_log2_nonneg(1 + total_chars1 as int);
    let b1 = threshold_bits(total_chars1, base_bits);
    let b2 = threshold_bits(total_chars2, base_bits);
    assert(b1 <= b2);
    if b2 < 127 {
        lemma_shr_monotonic(b1 as u128, b2 as u128);
    }
}

/// Shifting the all-ones value further right never enlarges it.
pub proof fn lemma_shr_monotonic(a: u128, b: u128)
    requires
        a <= b,
        b < 128,
    ensures
        (u128::MAX >> b) <= (u128::MAX >> a),
{
    assert((u128::MAX >> b) <= (u128::MAX >> a)) by (bit_vector)
        requires
            a <= b,
            b < 128,
    ;
}

/// With a zero threshold, proof verification rejects every nonce except one
/// whose hash value is the degenerate 0.
pub proof fn lemma_zero_threshold(identity: Seq<u8>, text: Seq<u8>, nonce: u64)
    ensures
        verify_spec(identity, text, nonce, 0) <==> work_value(identity, text, nonce) == 0,
{
}

} // verus!
