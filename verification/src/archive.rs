//! The aggregate record and its write operations: record creation and page
//! appending, both gated by the proof-of-work check, with the accumulated
//! counters and the progressive difficulty.  Counters saturate at their
//! maximum rather than wrap.

use vstd::prelude::*;
use vstd::string::StringSliceAdditionalSpecFns;
use vstd::string::StrSliceExecFns;
use crate::difficulty::{threshold_spec, verify_spec, compute_threshold, verify_work, log2_floor, integer_log2};
use crate::shuffle::{condinus_spec, condinus_transform, shuffle_spec, fisher_yates_shuffle};

verus! {

/// The base difficulty, in bits, a fresh archive starts with.
pub const BASE_DIFFICULTY_BITS: u8 = 16;

/// The modulus at which the accumulated character count raises the global
/// difficulty by one bit.
pub const DIFFICULTY_STEP_CHARS: u64 = 1024;

/// The persistent aggregate: accumulated counters and the difficulty state.
pub struct Archive {
    pub author: Vec<u8>,
    pub bump: u8,
    pub total_chars: u64,
    pub total_pages: u64,
    pub litrium_pool: u64,
    pub difficulty: u8,
    pub created_at: Option<i64>,
}

/// One record: immutable author link, dynamic pages, the mixed blob.
pub struct Nfb {
    pub author: Vec<u8>,
    pub title: String,
    pub created_at: i64,
    pub total_chars: u64,
    pub page_count: u64,
    pub litrium_earned: u64,
    pub encrypted: Vec<u8>,
}

/// The one recoverable, caller-facing failure.
#[derive(Debug, Clone, Copy, PartialEq, Eq)]
pub enum ArchiveError {
    InvalidProofOfWork,
}

/// The time-delta factor of the value formula: the elapsed seconds, at
/// least 1 (a clock not past the reference counts as 1).
pub open spec fn time_factor(reference: i64, now: i64) -> int {
    if now > reference {
        now - reference
    } else {
        1
    }
}

/// Clamp a value into u64.
pub open spec fn sat_u64(x: int) -> u64 {
    if x > u64::MAX {
        u64::MAX as u64
    } else if x < 0 {
        0u64
    } else {
        x as u64
    }
}

/// The value a fresh record earns: (chars × time delta) / (fatigue + heat),
/// the two latter fixed at 1 each.
pub open spec fn litrium_create(chars: nat, reference: i64, now: i64) -> u64 {
    sat_u64((chars * time_factor(reference, now)) / 2)
}

/// The value an appended page earns, with diminishing returns: the divisor
/// grows with the logarithm of the accumulated character count.
pub open spec fn litrium_append(chars: nat, reference: i64, now: i64, prior_chars: u64) -> u64 {
    sat_u64((chars * time_factor(reference, now)) / (1 + log2_floor(1 + prior_chars as int)))
}

/// A fresh archive for an author: zero counters, the base difficulty.
pub fn initialize_archive(author: Vec<u8>, bump: u8) -> (archive: Archive)
    ensures
        archive.author@ == author@,
        archive.bump == bump,
        archive.total_chars == 0,
        archive.total_pages == 0,
        archive.litrium_pool == 0,
        archive.difficulty == BASE_DIFFICULTY_BITS,
        archive.created_at is None,
{
    Archive {
        author,
        bump,
        total_chars: 0,
        total_pages: 0,
        litrium_pool: 0,
        difficulty: BASE_DIFFICULTY_BITS,
        created_at: None,
    }
}

/// The elapsed-seconds factor, computed without overflow.
fn elapsed_factor(reference: i64, now: i64) -> (t: u128)
    ensures
        t == time_factor(reference, now),
{
    if now > reference {
        ((now as i128) - (reference as i128)) as u128
    } else {
        1
    }
}

/// chars × time fits in u128: both factors are below 2^64.
proof fn lemma_value_product_bound(s: u128, t: u128)
    requires
        s < 0x10000000000000000,
        t < 0x10000000000000000,
    ensures
        s * t <= u128::MAX,
{
    assert(s * t <= u128::MAX) by (nonlinear_arith)
        requires
            s < 0x10000000000000000,
            t < 0x10000000000000000,
    ;
}

/// Create a record: check the proof of work against the current threshold,
/// mix the text into the stored blob, credit the value, and raise the
/// archive's counters (saturating).  On a failed proof nothing changes.
pub fn create_nfb(
    archive: &mut Archive,
    title: String,
    initial_text: &str,
    timestamp: i64,
    work_proof: u64,
    now: i64,
) -> (r: Result<Nfb, ArchiveError>)
    ensures
        ({
            let required = threshold_spec(old(archive).total_chars, old(archive).difficulty);
            let passes = verify_spec(
                old(archive).author@,
                initial_text.spec_bytes(),
                work_proof,
                required,
            );
            let chars = initial_text@.len();
            let reference = if old(archive).created_at is Some {
                old(archive).created_at->0
            } else {
                now
            };
            &&& !passes ==> (r matches Err(e) && e == ArchiveError::InvalidProofOfWork && *final(archive)
                == *old(archive))
            &&& passes ==> (r matches Ok(nfb) && {
                &&& nfb.author@ == old(archive).author@
                &&& nfb.title@ == title@
                &&& nfb.created_at == timestamp
                &&& nfb.total_chars == chars as u64
                &&& nfb.page_count == 1
                &&& nfb.litrium_earned == litrium_create(chars, reference, now)
                &&& nfb.encrypted@ == condinus_spec(initial_text.spec_bytes())
                &&& final(archive).author == old(archive).author
                &&& final(archive).bump == old(archive).bump
                &&& final(archive).difficulty == old(archive).difficulty
                &&& final(archive).created_at == old(archive).created_at
                &&& final(archive).total_chars == old(archive).total_chars.saturating_add(
                    nfb.total_chars,
                )
                &&& final(archive).total_pages == old(archive).total_pages.saturating_add(1)
                &&& final(archive).litrium_pool == old(archive).litrium_pool.saturating_add(
                    nfb.litrium_earned,
                )
            })
        }),
{
    let required = compute_threshold(archive.total_chars, archive.difficulty);
    if !verify_work(archive.author.as_slice(), initial_text.as_bytes(), work_proof, required) {
        return Err(ArchiveError::InvalidProofOfWork);
    }
    let transformed = condinus_transform(initial_text.as_bytes());

    let char_count = initial_text.unicode_len();
    let reference = match archive.created_at {
        Option::Some(c) => c,
        Option::None => now,
    };
    let t = elapsed_factor(reference, now);
    let s = char_count as u128;
    proof {
        lemma_value_product_bound(s, t);
    }
    let lit = (s * t) / 2;
    let lit64 = if lit > u64::MAX as u128 {
        u64::MAX
    } else {
        lit as u64
    };

    let nfb = Nfb {
        author: archive.author.clone(),
        title,
        created_at: timestamp,
        total_chars: char_count as u64,
        page_count: 1,
        litrium_earned: lit64,
        encrypted: transformed,
    };
    proof {
        assert(nfb.author@ =~= old(archive).author@);
    }
    archive.total_chars = archive.total_chars.saturating_add(nfb.total_chars);
    archive.total_pages = archive.total_pages.saturating_add(1);
    archive.litrium_pool = archive.litrium_pool.saturating_add(nfb.litrium_earned);
    Ok(nfb)
}

/// Append a page to a record: check the proof of work at the current
/// difficulty, mix the page into the stored blob and re-shuffle the whole,
/// credit the diminished value, raise the counters (saturating), and raise
/// the global difficulty by one bit whenever the accumulated character count
/// lands on a multiple of the difficulty step.  On a failed proof nothing
/// changes.
pub fn append_page(
    archive: &mut Archive,
    nfb: &mut Nfb,
    page_text: &str,
    work_proof: u64,
    now: i64,
) -> (r: Result<(), ArchiveError>)
    ensures
        ({
            let required = threshold_spec(old(archive).total_chars, old(archive).difficulty);
            let passes = verify_spec(
                old(nfb).author@,
                page_text.spec_bytes(),
                work_proof,
                required,
            );
            let chars = page_text@.len();
            let earned = litrium_append(
                chars,
                old(nfb).created_at,
                now,
                old(archive).total_chars,
            );
            &&& !passes ==> (r matches Err(e) && e == ArchiveError::InvalidProofOfWork && *final(archive)
                == *old(archive) && *final(nfb) == *old(nfb))
            &&& passes ==> (r is Ok && {
                &&& final(nfb).author == old(nfb).author
                &&& final(nfb).title == old(nfb).title
                &&& final(nfb).created_at == old(nfb).created_at
                &&& final(nfb).encrypted@ == shuffle_spec(
                    old(nfb).encrypted@ + condinus_spec(page_text.spec_bytes()),
                )
                &&& final(nfb).total_chars == old(nfb).total_chars.saturating_add(chars as u64)
                &&& final(nfb).page_count == old(nfb).page_count.saturating_add(1)
                &&& final(nfb).litrium_earned == old(nfb).litrium_earned.saturating_add(earned)
                &&& final(archive).author == old(archive).author
                &&& final(archive).bump == old(archive).bump
                &&& final(archive).created_at == old(archive).created_at
                &&& final(archive).total_chars == old(archive).total_chars.saturating_add(chars as u64)
                &&& final(archive).total_pages == old(archive).total_pages.saturating_add(1)
                &&& final(archive).litrium_pool == old(archive).litrium_pool.saturating_add(earned)
                &&& final(archive).difficulty == (if final(archive).total_chars % DIFFICULTY_STEP_CHARS == 0 {
                    old(archive).difficulty.saturating_add(1)
                } else {
                    old(archive).difficulty
                })
            })
        }),
{
    let required = compute_threshold(archive.total_chars, archive.difficulty);
    if !verify_work(nfb.author.as_slice(), page_text.as_bytes(), work_proof, required) {
        return Err(ArchiveError::InvalidProofOfWork);
    }
    let new_blob = condinus_transform(page_text.as_bytes());

    let mut merged = nfb.encrypted.clone();
    proof {
        assert(merged@ =~= old(nfb).encrypted@);
    }
    merged.extend_from_slice(new_blob.as_slice());
    proof {
        assert(new_blob@ == condinus_spec(page_text.spec_bytes()));
        assert(merged@ == old(nfb).encrypted@ + condinus_spec(page_text.spec_bytes()));
    }
    let shuffled = fisher_yates_shuffle(&merged);
    proof {
        assert(shuffled@ == shuffle_spec(old(nfb).encrypted@ + condinus_spec(page_text.spec_bytes())));
    }
    nfb.encrypted = shuffled;
    proof {
        assert(nfb.encrypted@ == shuffle_spec(old(nfb).encrypted@ + condinus_spec(page_text.spec_bytes())));
    }

    let char_count = page_text.unicode_len();
    let t = elapsed_factor(nfb.created_at, now);
    let s = char_count as u128;
    proof {
        lemma_value_product_bound(s, t);
    }
    let denom = 1 + integer_log2(1 + archive.total_chars as u128);
    let lit = (s * t) / denom;
    let lit64 = if lit > u64::MAX as u128 {
        u64::MAX
    } else {
        lit as u64
    };

    nfb.total_chars = nfb.total_chars.saturating_add(char_count as u64);
    nfb.page_count = nfb.page_count.saturating_add(1);
    nfb.litrium_earned = nfb.litrium_earned.saturating_add(lit64);

    archive.total_chars = archive.total_chars.saturating_add(char_count as u64);
    archive.total_pages = archive.total_pages.saturating_add(1);
    archive.litrium_pool = archive.litrium_pool.saturating_add(lit64);

    if archive.total_chars % DIFFICULTY_STEP_CHARS == 0 {
        archive.difficulty = archive.difficulty.saturating_add(1);
    }
    Ok(())
}

} // verus!
