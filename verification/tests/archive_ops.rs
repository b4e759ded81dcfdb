use endolium::archive::{initialize_archive, create_nfb, append_page, ArchiveError};
use endolium::difficulty::{compute_threshold, verify_work};
use endolium::shuffle::fisher_yates_shuffle;

/// Find a nonce that passes proof verification at the given state (the base
/// difficulty of 16 bits needs a few ten thousand tries on average).
fn mine(author: &[u8], text: &str, total_chars: u64, difficulty: u8) -> u64 {
    let threshold = compute_threshold(total_chars, difficulty);
    let mut nonce = 0u64;
    loop {
        if verify_work(author, text.as_bytes(), nonce, threshold) {
            return nonce;
        }
        nonce += 1;
    }
}

#[test]
fn a_fresh_archive_has_the_base_difficulty() {
    let archive = initialize_archive(vec![9u8; 32], 254);
    assert_eq!(archive.total_chars, 0);
    assert_eq!(archive.total_pages, 0);
    assert_eq!(archive.litrium_pool, 0);
    assert_eq!(archive.difficulty, 16);
    assert_eq!(archive.bump, 254);
    assert!(archive.created_at.is_none());
}

#[test]
fn create_rejects_a_bad_proof_and_changes_nothing() {
    let mut archive = initialize_archive(vec![1u8; 32], 0);
    let threshold = compute_threshold(0, 16);
    let mut bad_nonce = 0u64;
    while verify_work(&archive.author, b"some text", bad_nonce, threshold) {
        bad_nonce += 1;
    }
    let r = create_nfb(&mut archive, "title".to_owned(), "some text", 100, bad_nonce, 100);
    assert_eq!(r.err(), Some(ArchiveError::InvalidProofOfWork));
    assert_eq!(archive.total_chars, 0);
    assert_eq!(archive.total_pages, 0);
}

#[test]
fn create_then_append_update_the_counters() {
    let author = vec![1u8; 32];
    let mut archive = initialize_archive(author.clone(), 0);
    // lower the difficulty so mining stays cheap; the value formula and the
    // counters under test do not depend on it
    archive.difficulty = 4;
    let text = "twelve chars";
    let nonce = mine(&author, text, 0, 4);
    let nfb = create_nfb(&mut archive, "title".to_owned(), text, 50, nonce, 150);
    let mut nfb = nfb.expect("a mined nonce passes");
    assert_eq!(nfb.total_chars, 12);
    assert_eq!(nfb.page_count, 1);
    assert_eq!(nfb.encrypted.len(), 17 * 32);
    // archive.created_at is unset, so the time delta counts as 1: 12 * 1 / 2
    assert_eq!(nfb.litrium_earned, 6);
    assert_eq!(archive.total_chars, 12);
    assert_eq!(archive.total_pages, 1);
    assert_eq!(archive.litrium_pool, 6);
    assert_eq!(archive.difficulty, 4);

    let page = "four";
    let nonce2 = mine(&author, page, archive.total_chars, archive.difficulty);
    let before = nfb.encrypted.clone();
    append_page(&mut archive, &mut nfb, page, nonce2, 150).expect("a mined nonce passes");
    assert_eq!(nfb.page_count, 2);
    assert_eq!(nfb.total_chars, 16);
    assert_eq!(archive.total_chars, 16);
    assert_eq!(archive.total_pages, 2);
    // the merged blob grew by one transform and was re-shuffled
    assert_eq!(nfb.encrypted.len(), before.len() + 17 * 32);
    // diminishing returns: s=4, t=150-50=100, denom=1+log2(13)=4 -> 100
    assert_eq!(nfb.litrium_earned, 6 + 100);
    assert_eq!(archive.litrium_pool, 106);
}

#[test]
fn shuffle_is_a_permutation() {
    let input: Vec<u8> = (0u8..=255).chain(0u8..100).collect();
    let out = fisher_yates_shuffle(&input);
    assert_eq!(out.len(), input.len());
    let mut sorted_in = input.clone();
    let mut sorted_out = out.clone();
    sorted_in.sort_unstable();
    sorted_out.sort_unstable();
    assert_eq!(sorted_in, sorted_out);
    assert_ne!(out, input, "356 bytes do not shuffle to themselves");
}

#[test]
fn shuffle_leaves_tiny_buffers_alone() {
    assert_eq!(fisher_yates_shuffle(&vec![]), vec![]);
    assert_eq!(fisher_yates_shuffle(&vec![42u8]), vec![42u8]);
}

#[test]
fn difficulty_rises_when_the_char_count_lands_on_the_step() {
    let author = vec![5u8; 32];
    let mut archive = initialize_archive(author.clone(), 0);
    archive.difficulty = 4;
    let text = "a".repeat(1000);
    let nonce = mine(&author, &text, 0, 4);
    let mut nfb =
        create_nfb(&mut archive, "t".to_owned(), &text, 0, nonce, 0).expect("mined");
    assert_eq!(archive.total_chars, 1000);
    // creation never raises the difficulty
    assert_eq!(archive.difficulty, 4);

    // 24 more characters land exactly on 1024: one extra bit
    let page = "b".repeat(24);
    let nonce2 = mine(&author, &page, archive.total_chars, archive.difficulty);
    append_page(&mut archive, &mut nfb, &page, nonce2, 0).expect("mined");
    assert_eq!(archive.total_chars, 1024);
    assert_eq!(archive.difficulty, 5);

    // off the step, the difficulty stays
    let page2 = "c";
    let nonce3 = mine(&author, page2, archive.total_chars, archive.difficulty);
    append_page(&mut archive, &mut nfb, page2, nonce3, 0).expect("mined");
    assert_eq!(archive.total_chars, 1025);
    assert_eq!(archive.difficulty, 5);
}
