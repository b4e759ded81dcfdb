use endolium::difficulty::{compute_threshold, integer_log2, verify_work};

#[test]
fn threshold_for_a_fresh_archive() {
    // total_chars = 0: log2(1) = 0, so the threshold is exactly u128::MAX >> 16
    assert_eq!(compute_threshold(0, 16), u128::MAX >> 16);
}

#[test]
fn threshold_at_1023_chars() {
    // extra_bits = floor(log2(1024)) = 10, bits = 26
    assert_eq!(compute_threshold(1023, 16), u128::MAX >> 26);
}

#[test]
fn threshold_is_monotone_in_total_chars() {
    let mut previous = compute_threshold(0, 16);
    for total_chars in [1u64, 2, 10, 1023, 1024, 1_000_000, u64::MAX] {
        let next = compute_threshold(total_chars, 16);
        assert!(next <= previous);
        previous = next;
    }
}

#[test]
fn threshold_caps_at_zero_difficulty() {
    assert_eq!(compute_threshold(0, 127), 0);
    assert_eq!(compute_threshold(u64::MAX, 120), 0);
    assert_eq!(compute_threshold(0, 255), 0);
}

#[test]
fn integer_log2_exact_values() {
    assert_eq!(integer_log2(0), 0);
    assert_eq!(integer_log2(1), 0);
    assert_eq!(integer_log2(2), 1);
    assert_eq!(integer_log2(3), 1);
    assert_eq!(integer_log2(1024), 10);
    assert_eq!(integer_log2(u128::MAX), 127);
}

#[test]
fn zero_threshold_rejects_ordinary_nonces() {
    let identity = [7u8; 32];
    for nonce in 0..64u64 {
        assert!(!verify_work(&identity, b"some page text", nonce, 0));
    }
}

#[test]
fn verify_work_matches_the_keccak_value() {
    // recompute the proof-of-work value with the hash crate directly
    let identity = [3u8; 32];
    let text = b"oracle text";
    let nonce = 12345u64;
    let seed: Vec<u8> = [&identity[..], &text[..], &nonce.to_le_bytes()[..]].concat();
    let h = anchor_lang::solana_program::keccak::hashv(&[&seed]);
    let mut val_bytes = [0u8; 16];
    val_bytes.copy_from_slice(&h.0[0..16]);
    let val = u128::from_le_bytes(val_bytes);
    assert!(verify_work(&identity, text, nonce, val));
    if val > 0 {
        assert!(!verify_work(&identity, text, nonce, val - 1));
    }
    assert!(verify_work(&identity, text, nonce, u128::MAX));
}
