//! Alloy cipher: an iterated keyed-hash key schedule, a 12-byte IV from a
//! secondary digest, a stream-cipher pass over the blob, and a digest of the
//! ciphertext prepended to it.

use vstd::prelude::*;
use vstd::bytes::{spec_u64_to_le_bytes, u64_to_le_bytes};
use vstd::slice::{slice_subrange, slice_to_vec};
use crate::digest::{sha256_of, sha256_bytes, hmac_sha256_of, hmac_sha256};
use crate::stream::{chacha20_xor_of, chacha20_apply};

verus! {

/// Byte-wise XOR of two byte strings, over the length of the first.
pub open spec fn xor_bytes(a: Seq<u8>, b: Seq<u8>) -> Seq<u8> {
    Seq::new(a.len(), |i: int| a[i] ^ b[i])
}

/// How many keyed-hash rounds the key absorbs.
pub const KEY_ROUNDS: u64 = 8;

/// The cipher key after `n` absorption rounds: round `n` XORs into the key
/// the HMAC, under the current key, of le(n) ‖ salt.
pub open spec fn alloy_key(blob: Seq<u8>, salt: Seq<u8>, n: int) -> Seq<u8>
    decreases n,
{
    if n <= 0 {
        sha256_of(blob + salt)
    } else {
        let prev = alloy_key(blob, salt, n - 1);
        xor_bytes(prev, hmac_sha256_of(prev, spec_u64_to_le_bytes((n - 1) as u64) + salt))
    }
}

/// The IV: the first 12 bytes of the digest of salt ‖ blob.
pub open spec fn alloy_iv(blob: Seq<u8>, salt: Seq<u8>) -> Seq<u8> {
    sha256_of(salt + blob).take(12)
}

/// The ciphertext: the stream-cipher transform of the blob under the absorbed
/// key and the IV.
pub open spec fn alloy_cipher(blob: Seq<u8>, salt: Seq<u8>) -> Seq<u8> {
    chacha20_xor_of(alloy_key(blob, salt, KEY_ROUNDS as int), alloy_iv(blob, salt), blob)
}

/// The full alloy blob: the digest of the ciphertext, then the ciphertext.
pub open spec fn alloy_spec(blob: Seq<u8>, salt: Seq<u8>) -> Seq<u8> {
    sha256_of(alloy_cipher(blob, salt)) + alloy_cipher(blob, salt)
}

/// Derive the key by eight chained keyed-hash rounds, derive the IV from the
/// digest of salt ‖ blob, run the stream cipher over the blob, and prepend
/// the digest of the ciphertext.  Identical (blob, salt) always yield an
/// identical output of 32 + len(blob) bytes.
pub fn singular_alloy_encrypt(blob: &Vec<u8>, salt: &Vec<u8>) -> (r: Vec<u8>)
    ensures
        r@ == alloy_spec(blob@, salt@),
        r@.len() == 32 + blob@.len(),
{
    let mut key_seed: Vec<u8> = Vec::new();
    key_seed.extend_from_slice(blob.as_slice());
    key_seed.extend_from_slice(salt.as_slice());
    proof {
        assert(key_seed@ =~= blob@ + salt@);
    }
    let mut key = sha256_bytes(&key_seed);
    let mut i: u64 = 0;
    while i < KEY_ROUNDS
        invariant
            i <= KEY_ROUNDS,
            key@ == alloy_key(blob@, salt@, i as int),
            key@.len() == 32,
        decreases KEY_ROUNDS - i,
    {
        let mut msg = u64_to_le_bytes(i);
        msg.extend_from_slice(salt.as_slice());
        proof {
            assert(msg@ =~= spec_u64_to_le_bytes(i) + salt@);
        }
        let tag = hmac_sha256(&key, &msg);
        let ghost key_before = key@;
        let mut j: usize = 0;
        while j < 32
            invariant
                j <= 32,
                key@.len() == 32,
                tag@ == hmac_sha256_of(key_before, spec_u64_to_le_bytes(i) + salt@),
                tag@.len() == 32,
                forall|k: int| 0 <= k < j ==> key@[k] == key_before[k] ^ tag@[k],
                forall|k: int| j <= k < 32 ==> key@[k] == key_before[k],
            decreases 32 - j,
        {
            let a = key[j];
            let t = tag[j];
            key[j] = a ^ t;
            j = j + 1;
        }
        proof {
            assert(key@ =~= alloy_key(blob@, salt@, i as int + 1));
        }
        i = i + 1;
    }
    let mut iv_seed: Vec<u8> = Vec::new();
    iv_seed.extend_from_slice(salt.as_slice());
    iv_seed.extend_from_slice(blob.as_slice());
    proof {
        assert(iv_seed@ =~= salt@ + blob@);
    }
    let iv_digest = sha256_bytes(&iv_seed);
    let iv = slice_to_vec(slice_subrange(iv_digest.as_slice(), 0, 12));
    proof {
        assert(iv@ =~= alloy_iv(blob@, salt@));
    }
    let ciphertext = chacha20_apply(&key, &iv, blob);
    let digest = sha256_bytes(&ciphertext);
    let mut out = digest;
    out.extend_from_slice(ciphertext.as_slice());
    out
}

} // verus!
