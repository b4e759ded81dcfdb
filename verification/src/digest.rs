//! Trusted views of the outside digest primitives the pipeline builds on.
//! Each digest is named as a pure function of its input bytes; the wrappers
//! below are the only places the outside calls are made.

use vstd::prelude::*;
use sha2::Digest;
use hmac::Mac;

verus! {

/// The SHA-256 digest of `data`, named; it depends on the bytes alone.
pub uninterp spec fn sha256_digest(data: Seq<u8>) -> Seq<u8>;

/// The Keccak-256 digest of `data`, named; it depends on the bytes alone.
pub uninterp spec fn keccak_digest(data: Seq<u8>) -> Seq<u8>;

/// The HMAC-SHA-256 tag of `msg` under `key`, named; it depends on the two
/// byte strings alone.
pub uninterp spec fn hmac_digest(key: Seq<u8>, msg: Seq<u8>) -> Seq<u8>;

/// The SHA-256 digest, 32 bytes long by construction.
pub open spec fn sha256_of(data: Seq<u8>) -> Seq<u8> {
    Seq::new(32, |i: int| sha256_digest(data)[i])
}

/// The Keccak-256 digest, 32 bytes long by construction.
pub open spec fn keccak_of(data: Seq<u8>) -> Seq<u8> {
    Seq::new(32, |i: int| keccak_digest(data)[i])
}

/// The HMAC-SHA-256 tag, 32 bytes long by construction.
pub open spec fn hmac_sha256_of(key: Seq<u8>, msg: Seq<u8>) -> Seq<u8> {
    Seq::new(32, |i: int| hmac_digest(key, msg)[i])
}

/// Relies on sha2::Sha256::digest: a 32-byte digest of the input bytes.
#[verifier::external_body]
pub fn sha256_bytes(data: &Vec<u8>) -> (r: Vec<u8>)
    ensures
        r@ == sha256_of(data@),
        forall|i: int| 0 <= i < 32 ==> r@[i] == sha256_digest(data@)[i],
{
    sha2::Sha256::digest(data.as_slice()).to_vec()
}

/// Relies on anchor_lang::solana_program::keccak::hashv: a 32-byte Keccak-256
/// digest of the input bytes.
#[verifier::external_body]
pub fn keccak256(data: &Vec<u8>) -> (r: Vec<u8>)
    ensures
        r@ == keccak_of(data@),
        forall|i: int| 0 <= i < 32 ==> r@[i] == keccak_digest(data@)[i],
{
    anchor_lang::solana_program::keccak::hashv(&[data.as_slice()]).0.to_vec()
}

/// Relies on hmac::Hmac over sha2::Sha256: a 32-byte tag of `msg` under
/// `key`; `new_from_slice` accepts a key of any length for an HMAC.
#[verifier::external_body]
pub fn hmac_sha256(key: &Vec<u8>, msg: &Vec<u8>) -> (r: Vec<u8>)
    ensures
        r@ == hmac_sha256_of(key@, msg@),
        forall|i: int| 0 <= i < 32 ==> r@[i] == hmac_digest(key@, msg@)[i],
{
    let mut mac = <hmac::Hmac<sha2::Sha256> as Mac>::new_from_slice(key.as_slice())
        .expect("an HMAC key of any length is accepted");
    mac.update(msg.as_slice());
    mac.finalize().into_bytes().to_vec()
}

} // verus!
