//! Recompute the whole derivation directly with the outside crates and hold
//! the library's output to it byte for byte.

use base64::Engine;
use chacha20::cipher::{KeyIvInit, StreamCipher};
use hmac::Mac;
use rand::{RngCore, SeedableRng};
use sha2::Digest;

use endolium::pipeline::generate_endolium_for;

const LANGS: [&str; 17] = [
    "en", "es", "fr", "de", "ru", "ja", "zh", "ar", "hi", "pt", "it", "nl", "sv", "no", "fi",
    "ko", "tr",
];

fn sha256(data: &[u8]) -> Vec<u8> {
    sha2::Sha256::digest(data).to_vec()
}

fn b64(v: &[u8]) -> String {
    base64::engine::general_purpose::URL_SAFE_NO_PAD.encode(v)
}

fn oracle_fuse(address: &str, text: &str) -> Vec<u8> {
    let mut acc = Vec::new();
    for (i, lang) in LANGS.iter().enumerate() {
        let mid = [
            address.as_bytes(),
            b"|",
            text.as_bytes(),
            b"|",
            lang.as_bytes(),
            b"|",
            &(i as u64).to_le_bytes(),
        ]
        .concat();
        acc.extend_from_slice(&sha256(&mid));
    }
    let entropy = b"ENDOLIUM_COMPILED_CONST_V1";
    for i in 0..acc.len() {
        acc[i] ^= entropy[i % entropy.len()];
    }
    acc
}

fn oracle_cascade(blob: &[u8]) -> Vec<u8> {
    let mut accum: Vec<u8> = Vec::with_capacity(blob.len() * 16);
    let mut prefix_sum: u128 = 0;
    for (i, &b) in blob.iter().enumerate() {
        prefix_sum = prefix_sum.wrapping_add(b as u128);
        let en = prefix_sum.wrapping_mul(i as u128 + 1);
        accum.extend_from_slice(&en.to_le_bytes());
    }
    let mut out = sha256(&accum);
    out.extend_from_slice(&accum);
    out
}

fn oracle_alloy(blob: &[u8], salt: &[u8]) -> Vec<u8> {
    let mut key = vec![0u8; 32];
    key.copy_from_slice(&sha256(&[blob, salt].concat())[..32]);
    for i in 0..8u64 {
        let mut mac = hmac::Hmac::<sha2::Sha256>::new_from_slice(&key).unwrap();
        mac.update(&i.to_le_bytes());
        mac.update(salt);
        let out = mac.finalize().into_bytes();
        for j in 0..32 {
            key[j] ^= out[j];
        }
    }
    let iv = &sha256(&[salt, blob].concat())[0..12];
    let mut out = blob.to_vec();
    let mut cipher = chacha20::ChaCha20::new_from_slices(&key, iv).unwrap();
    cipher.apply_keystream(&mut out);
    let mut final_blob = sha256(&out);
    final_blob.extend_from_slice(&out);
    final_blob
}

fn oracle_key(blob: &[u8], epoch: u64) -> String {
    let mut mac =
        hmac::Hmac::<sha2::Sha256>::new_from_slice(b"endolium-seed-key-derivation").unwrap();
    mac.update(blob);
    mac.update(&epoch.to_le_bytes());
    let seed = mac.finalize().into_bytes();
    let mut rng = rand::rngs::StdRng::from_seed(seed[..32].try_into().unwrap());
    let text = b64(blob);
    let pool: Vec<char> = text.chars().collect();
    let mut pick = String::new();
    for _ in 0..9 {
        let idx = (rng.next_u64() % pool.len() as u64) as usize;
        pick.push(pool[idx]);
    }
    pick
}

fn oracle_generate(address: &str, text: &str, created_at: u64, now: u64) -> (String, String) {
    let fused = oracle_fuse(address, text);
    let blob = oracle_cascade(&fused);
    let salt = [address.as_bytes(), &[0u8], &now.to_le_bytes()].concat();
    let alloy = oracle_alloy(&blob, &salt);
    let years = now.saturating_sub(created_at) / (365 * 24 * 3600);
    let interval = std::cmp::max(33i64 - 3 * years as i64, 3) as u64;
    let epoch = now / interval;
    let key = oracle_key(&alloy, epoch);
    let envelope = base64::engine::general_purpose::URL_SAFE_NO_PAD.encode(
        [
            address.as_bytes(),
            b"|",
            &created_at.to_le_bytes(),
            b"|",
            &epoch.to_le_bytes(),
            b"|",
            hex::encode(&alloy).as_bytes(),
        ]
        .concat(),
    );
    (key, envelope)
}

#[test]
fn library_matches_the_direct_computation() {
    let cases: [(&str, &str, u64, u64); 3] = [
        ("4kXz...SOLADDR_EXAMPLE...abc", "a first text", 1_600_000_000, 1_600_000_000),
        ("another-address", "", 1_500_000_000, 1_700_000_000),
        ("x", "unicode too: 鍵は詩であり、詩は鍵である。", 0, 123_456_789),
    ];
    for (address, text, created_at, now) in cases {
        let (key, envelope) = generate_endolium_for(address, text, created_at, now);
        let (oracle_k, oracle_e) = oracle_generate(address, text, created_at, now);
        assert_eq!(key, oracle_k);
        assert_eq!(envelope, oracle_e);
    }
}

#[test]
fn fused_vector_is_17_hash_rounds_with_the_entropy_overlay() {
    let fused = endolium::fusion::condinus_fuse(b"id-bytes", b"text-bytes");
    assert_eq!(fused.len(), 17 * 32);
    // the first 32 bytes are sha256(id | text | en | le(0)) xored with the tag
    let mid = [
        &b"id-bytes"[..],
        b"|",
        b"text-bytes",
        b"|",
        b"en",
        b"|",
        &0u64.to_le_bytes(),
    ]
    .concat();
    let digest = sha256(&mid);
    let entropy = b"ENDOLIUM_COMPILED_CONST_V1";
    for i in 0..32 {
        assert_eq!(fused[i], digest[i] ^ entropy[i % entropy.len()]);
    }
}

#[test]
fn cascade_expands_16_to_1_with_a_digest_prefix() {
    let input: Vec<u8> = vec![1, 2, 250, 251];
    let out = endolium::cascade::endolium_transform(&input);
    assert_eq!(out.len(), 32 + 16 * input.len());
    // position 0: prefix sum 1, weight 1
    assert_eq!(&out[32..48], &1u128.to_le_bytes());
    // position 1: prefix sum 3, weight 2
    assert_eq!(&out[48..64], &6u128.to_le_bytes());
    // the digest prefix matches the body
    assert_eq!(&out[0..32], sha256(&out[32..]).as_slice());
}
