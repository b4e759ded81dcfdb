//! Key picker: seed a deterministic generator from a keyed hash of the blob
//! and the epoch, and draw nine characters from the blob's base64 pool.

use vstd::prelude::*;
use vstd::bytes::{spec_u64_to_le_bytes, u64_to_le_bytes};
use crate::digest::{hmac_sha256_of, hmac_sha256};
use crate::encoding::{b64_of, b64_encode, b64_len, is_b64url_byte, ascii_string};
use crate::rng::{rng_draw, KeyStream};

verus! {

/// How many characters the derived key holds.
pub const KEY_LENGTH: usize = 9;

/// The fixed domain-separation HMAC key, "endolium-seed-key-derivation".
pub open spec fn seed_label() -> Seq<u8> {
    seq![
        101u8, 110u8, 100u8, 111u8, 108u8, 105u8, 117u8, 109u8, 45u8, 115u8, 101u8, 101u8, 100u8,
        45u8, 107u8, 101u8, 121u8, 45u8, 100u8, 101u8, 114u8, 105u8, 118u8, 97u8, 116u8, 105u8,
        111u8, 110u8,
    ]
}

/// The generator seed: the HMAC, under the fixed label, of blob ‖ le(epoch).
pub open spec fn key_seed(blob: Seq<u8>, epoch: u64) -> Seq<u8> {
    hmac_sha256_of(seed_label(), blob + spec_u64_to_le_bytes(epoch))
}

/// The first `n` picked pool bytes: draw `k` of the seeded stream, reduced
/// modulo the pool length, indexes the base64 pool of the blob.
pub open spec fn picks(blob: Seq<u8>, epoch: u64, n: int) -> Seq<u8>
    decreases n,
{
    if n <= 0 {
        Seq::empty()
    } else {
        let pool = b64_of(blob);
        picks(blob, epoch, n - 1).push(
            pool[rng_draw(key_seed(blob, epoch), (n - 1) as nat) as int % (pool.len() as int)],
        )
    }
}

/// The derived key: nine picked pool bytes, as characters.
pub open spec fn key_spec(blob: Seq<u8>, epoch: u64) -> Seq<char> {
    picks(blob, epoch, 9).map_values(|b: u8| b as char)
}

/// The characters a derived key may hold: the URL-safe base64 alphabet.
pub open spec fn is_b64url_char(c: char) -> bool {
    ('A' <= c <= 'Z') || ('a' <= c <= 'z') || ('0' <= c <= '9') || c == '-' || c == '_'
}

/// The label "endolium-seed-key-derivation" as bytes.
pub fn seed_label_bytes() -> (r: Vec<u8>)
    ensures
        r@ == seed_label(),
{
    let mut v: Vec<u8> = Vec::new();
    v.push(101);
    v.push(110);
    v.push(100);
    v.push(111);
    v.push(108);
    v.push(105);
    v.push(117);
    v.push(109);
    v.push(45);
    v.push(115);
    v.push(101);
    v.push(101);
    v.push(100);
    v.push(45);
    v.push(107);
    v.push(101);
    v.push(121);
    v.push(45);
    v.push(100);
    v.push(101);
    v.push(114);
    v.push(105);
    v.push(118);
    v.push(97);
    v.push(116);
    v.push(105);
    v.push(111);
    v.push(110);
    proof {
        assert(v@ =~= seed_label());
    }
    v
}

/// Derive the nine-character rotating key from the blob and the epoch: an
/// HMAC seeds the generator, the blob's base64 encoding forms the character
/// pool, and nine draws pick one pool character each (repeats allowed).
/// Every character comes from the URL-safe base64 alphabet.
pub fn derive_endolium_key(blob: &Vec<u8>, epoch: u64) -> (r: String)
    requires
        blob@.len() > 0,
    ensures
        r@ == key_spec(blob@, epoch),
        r@.len() == 9,
        forall|i: int| 0 <= i < r@.len() ==> is_b64url_char(#[trigger] r@[i]),
{
    let label = seed_label_bytes();
    let mut msg: Vec<u8> = Vec::new();
    msg.extend_from_slice(blob.as_slice());
    let epoch_bytes = u64_to_le_bytes(epoch);
    msg.extend_from_slice(epoch_bytes.as_slice());
    proof {
        assert(msg@ =~= blob@ + spec_u64_to_le_bytes(epoch));
    }
    let seed = hmac_sha256(&label, &msg);
    let mut ks = KeyStream::from_seed(&seed);
    let pool = b64_encode(blob);
    let mut out: Vec<u8> = Vec::new();
    let mut k: usize = 0;
    while k < KEY_LENGTH
        invariant
            k <= KEY_LENGTH,
            ks.seed() == key_seed(blob@, epoch),
            ks.drawn() == k,
            pool@ == b64_of(blob@),
            pool@.len() > 0,
            out@ == picks(blob@, epoch, k as int),
            out@.len() == k,
            forall|t: int| 0 <= t < out@.len() ==> is_b64url_byte(#[trigger] out@[t]),
        decreases KEY_LENGTH - k,
    {
        let draw = ks.next_u64();
        let idx = (draw % (pool.len() as u64)) as usize;
        let c = pool[idx];
        out.push(c);
        proof {
            assert(out@ =~= picks(blob@, epoch, k as int + 1));
        }
        k = k + 1;
    }
    let key = ascii_string(&out);
    proof {
        assert(key@ =~= key_spec(blob@, epoch));
    }
    key
}

} // verus!
