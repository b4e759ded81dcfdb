//! Trusted view of the stream cipher the alloy layer applies.

use vstd::prelude::*;
use chacha20::cipher::{KeyIvInit, StreamCipher};

verus! {

/// The ChaCha20 transform of `data` under `key` and `iv` (data XOR the
/// keystream), named; it depends on the three byte strings alone.
pub uninterp spec fn chacha20_stream(key: Seq<u8>, iv: Seq<u8>, data: Seq<u8>) -> Seq<u8>;

/// The ChaCha20 transform, as long as the data by construction.
pub open spec fn chacha20_xor_of(key: Seq<u8>, iv: Seq<u8>, data: Seq<u8>) -> Seq<u8> {
    Seq::new(data.len(), |i: int| chacha20_stream(key, iv, data)[i])
}

/// Relies on chacha20::ChaCha20::apply_keystream (with new_from_slices): a
/// length-preserving transform determined by key, IV and data.
#[verifier::external_body]
pub fn chacha20_apply(key: &Vec<u8>, iv: &Vec<u8>, data: &Vec<u8>) -> (r: Vec<u8>)
    requires
        key@.len() == 32,
        iv@.len() == 12,
    ensures
        r@ == chacha20_xor_of(key@, iv@, data@),
        forall|i: int| 0 <= i < data@.len() ==> r@[i] == chacha20_stream(key@, iv@, data@)[i],
{
    let mut out = data.clone();
    let mut cipher = chacha20::ChaCha20::new_from_slices(key.as_slice(), iv.as_slice())
        .expect("the key and IV lengths are fixed");
    cipher.apply_keystream(&mut out);
    out
}

} // verus!
