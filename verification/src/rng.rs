//! Trusted view of the seeded pseudo-random generator the key picker draws
//! from.  The stream is deterministic in the seed, so each draw can be named
//! as a pure function of the seed and the draw index.

use vstd::prelude::*;
use rand::{RngCore, SeedableRng};

verus! {

/// Draw number `i` of the 64-bit stream that rand's StdRng yields from a
/// 32-byte seed; the stream depends on the seed alone.
pub uninterp spec fn rng_draw(seed: Seq<u8>, i: nat) -> u64;

#[verifier::external_type_specification]
#[verifier::external_body]
pub struct ExStdRng(rand::rngs::StdRng);

/// A deterministic pseudo-random 64-bit stream, seeded once and drawn in
/// order.  The struct keeps the seed it was built from and counts the draws
/// taken, pinning each draw to `rng_draw`.
pub struct KeyStream {
    rng: rand::rngs::StdRng,
    seed_bytes: Vec<u8>,
    drawn_count: u64,
}

impl KeyStream {
    pub closed spec fn seed(&self) -> Seq<u8> {
        self.seed_bytes@
    }

    pub closed spec fn drawn(&self) -> nat {
        self.drawn_count as nat
    }

    /// Relies on rand::SeedableRng::from_seed for StdRng: a deterministic
    /// generator seeded from exactly 32 bytes, reproducible for a fixed rand
    /// version on every platform.
    #[verifier::external_body]
    pub fn from_seed(seed: &Vec<u8>) -> (r: KeyStream)
        requires
            seed@.len() == 32,
        ensures
            r.seed() == seed@,
            r.drawn() == 0,
    {
        let mut s = [0u8; 32];
        s.copy_from_slice(seed.as_slice());
        KeyStream { rng: rand::rngs::StdRng::from_seed(s), seed_bytes: seed.clone(), drawn_count: 0 }
    }

    /// Relies on rand::RngCore::next_u64 for StdRng: the next value of the
    /// stream determined by the seed and the position.
    #[verifier::external_body]
    pub fn next_u64(&mut self) -> (r: u64)
        requires
            old(self).drawn() < u64::MAX,
        ensures
            final(self).seed() == old(self).seed(),
            final(self).drawn() == old(self).drawn() + 1,
            r == rng_draw(old(self).seed(), old(self).drawn()),
    {
        self.drawn_count = self.drawn_count.wrapping_add(1);
        self.rng.next_u64()
    }
}

} // verus!
