//! A deterministic, content-bound key-derivation and data-transformation
//! pipeline.
//!
//! The library fuses an identity and a text payload into a fixed-size vector
//! through labeled hash rounds, diffuses it with a prefix-sum-weighted cascade,
//! enciphers it with an iterated keyed-hash key schedule and a stream cipher,
//! and draws a rotating nine-character key from the result on a shrinking
//! time-bucket schedule.  A progressive-difficulty proof-of-work gate guards
//! write operations against an accumulated character count.
//!
//! Every derivation is a pure function of its inputs: the contracts below pin
//! each output down to a specification-level value, so two invocations on the
//! same inputs are provably byte-identical.
#![verifier::loop_isolation(false)]

pub mod alloy;
pub mod archive;
pub mod cascade;
pub mod difficulty;
pub mod digest;
pub mod encoding;
pub mod envelope;
pub mod fusion;
pub mod keypick;
pub mod pipeline;
pub mod rng;
pub mod rotation;
pub mod shuffle;
pub mod stream;
