use endolium::pipeline::generate_endolium_for;
use endolium::rotation::{rotation_interval_seconds, epoch_of};
use base64::Engine;

fn now_seconds() -> u64 {
    std::time::SystemTime::now()
        .duration_since(std::time::UNIX_EPOCH)
        .unwrap()
        .as_secs()
}

#[test]
fn showcase_endolium() {
    let addr = "4kXz...SOLADDR_EXAMPLE...abc";
    let text = "This is a test NFB content that will be transformed and bound to an Endolium key.";
    let created = now_seconds() - (3600 * 24 * 400); // created ~400 days ago
    let now = now_seconds();
    let (key, envelope) = generate_endolium_for(addr, text, created, now);
    println!("Endolium Key: {}", key);
    println!("Envelope: {}", envelope);
    assert!(key.len() == 9);
}

#[test]
fn generation_is_deterministic() {
    let addr = "determinism-check-address";
    let text = "the same inputs must give byte-identical outputs";
    let (key1, env1) = generate_endolium_for(addr, text, 1_600_000_000, 1_700_000_000);
    let (key2, env2) = generate_endolium_for(addr, text, 1_600_000_000, 1_700_000_000);
    assert_eq!(key1, key2);
    assert_eq!(env1, env2);
}

#[test]
fn key_characters_come_from_the_base64_url_alphabet() {
    let (key, _) = generate_endolium_for("alphabet", "check", 5, 1_000_000);
    assert_eq!(key.len(), 9);
    for c in key.chars() {
        assert!(
            c.is_ascii_uppercase()
                || c.is_ascii_lowercase()
                || c.is_ascii_digit()
                || c == '-'
                || c == '_'
        );
    }
}

#[test]
fn fresh_record_rotates_on_33_second_buckets() {
    // identity of 32 zero bytes, zero age: interval 33, epoch = now / 33
    let now = 1_600_000_000u64;
    let interval = rotation_interval_seconds(now, now);
    assert_eq!(interval, 33);
    assert_eq!(epoch_of(now, interval), now / 33);
}

#[test]
fn interval_shrinks_3_seconds_per_year_down_to_3() {
    let year = 365 * 24 * 3600u64;
    assert_eq!(rotation_interval_seconds(0, year - 1), 33);
    assert_eq!(rotation_interval_seconds(0, year), 30);
    assert_eq!(rotation_interval_seconds(0, 5 * year), 18);
    assert_eq!(rotation_interval_seconds(0, 10 * year), 3);
    assert_eq!(rotation_interval_seconds(0, 1000 * year), 3);
    // a clock before the creation time counts as age zero
    assert_eq!(rotation_interval_seconds(1_600_000_000, 42), 33);
}

#[test]
fn zero_identity_envelope_round_trips() {
    let identity = "\u{0}".repeat(32);
    let created_at = 1_600_000_000u64;
    let now = 1_600_000_000u64;
    let (key, envelope) = generate_endolium_for(&identity, "hello", created_at, now);
    assert_eq!(key.len(), 9);

    let env_bytes: Vec<u8> = envelope.as_bytes().to_vec();
    let parts = endolium::envelope::decode_envelope(&env_bytes).expect("a fresh envelope decodes");
    assert_eq!(parts.identity, vec![0u8; 32]);
    assert_eq!(parts.created_at, created_at);
    assert_eq!(parts.epoch, now / 33);

    // the decoded payload starts with the 32 zero bytes followed by '|'
    let payload = base64::engine::general_purpose::URL_SAFE_NO_PAD
        .decode(envelope.as_bytes())
        .expect("the envelope is valid unpadded url-safe base64");
    assert_eq!(&payload[0..32], &[0u8; 32]);
    assert_eq!(payload[32], b'|');
}

#[test]
fn envelope_blob_is_lowercase_hex() {
    // a 32-character ASCII address, so the envelope parses at fixed offsets
    let (_, envelope) = generate_endolium_for("ABCDEFGHIJKLMNOPQRSTUVWXYZ012345", "payload", 7, 77);
    let env_bytes: Vec<u8> = envelope.as_bytes().to_vec();
    let parts = endolium::envelope::decode_envelope(&env_bytes).unwrap();
    assert!(!parts.blob_hex.is_empty());
    assert_eq!(parts.blob_hex.len() % 2, 0);
    for b in parts.blob_hex.iter() {
        assert!(b.is_ascii_digit() || (b'a'..=b'f').contains(b));
    }
}
