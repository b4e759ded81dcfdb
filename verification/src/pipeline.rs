//! The master pipeline: fuse, cascade, encipher, pick the rotating key, and
//! encode the envelope.  Every step is pinned to a specification-level value
//! of the inputs, so the whole derivation is provably deterministic.

use vstd::prelude::*;
use vstd::bytes::{spec_u64_to_le_bytes, u64_to_le_bytes};
use vstd::string::StringSliceAdditionalSpecFns;
use crate::alloy::{alloy_spec, singular_alloy_encrypt};
use crate::cascade::{endolium_spec, endolium_transform};
use crate::envelope::{envelope_spec, encode_envelope};
use crate::fusion::{fused_spec, condinus_fuse};
use crate::keypick::{key_spec, derive_endolium_key};
use crate::rotation::{interval_spec, epoch_spec, rotation_interval_seconds, epoch_of};

verus! {

/// The cipher salt: identity ‖ one zero byte ‖ le(now).
pub open spec fn salt_spec(identity: Seq<u8>, now: u64) -> Seq<u8> {
    identity + seq![0u8] + spec_u64_to_le_bytes(now)
}

/// The alloy blob the pipeline derives from identity, text and "now".
pub open spec fn alloy_of(identity: Seq<u8>, text: Seq<u8>, now: u64) -> Seq<u8> {
    alloy_spec(endolium_spec(fused_spec(identity, text)), salt_spec(identity, now))
}

/// The epoch the derivation keys on: "now" reduced by the rotation interval.
pub open spec fn epoch_for(created_at: u64, now: u64) -> u64 {
    epoch_spec(now, interval_spec(created_at, now))
}

/// The rotating nine-character key for the given inputs.
pub open spec fn endolium_key_of(
    identity: Seq<u8>,
    text: Seq<u8>,
    created_at: u64,
    now: u64,
) -> Seq<char> {
    key_spec(alloy_of(identity, text, now), epoch_for(created_at, now))
}

/// The envelope for the given inputs.
pub open spec fn endolium_envelope_of(
    identity: Seq<u8>,
    text: Seq<u8>,
    created_at: u64,
    now: u64,
) -> Seq<char> {
    envelope_spec(identity, created_at, epoch_for(created_at, now), alloy_of(identity, text, now))
}

/// Master generation pipeline: given an address and a text, produce the
/// rotating key and the envelope that can be anchored.  Both outputs are
/// exactly the specification values of the inputs — the derivation is a pure
/// function, so two invocations on the same inputs are byte-identical.
pub fn generate_endolium_for(address: &str, text: &str, created_at: u64, now: u64) -> (r: (
    String,
    String,
))
    ensures
        r.0@ == endolium_key_of(address.spec_bytes(), text.spec_bytes(), created_at, now),
        r.0@.len() == 9,
        r.1@ == endolium_envelope_of(address.spec_bytes(), text.spec_bytes(), created_at, now),
{
    let address_bytes = address.as_bytes();
    let text_bytes = text.as_bytes();
    let fused = condinus_fuse(address_bytes, text_bytes);
    let blob = endolium_transform(&fused);

    let mut salt: Vec<u8> = Vec::new();
    salt.extend_from_slice(address_bytes);
    salt.push(0);
    let now_bytes = u64_to_le_bytes(now);
    salt.extend_from_slice(now_bytes.as_slice());
    proof {
        assert(salt@ =~= salt_spec(address.spec_bytes(), now));
    }
    let alloy = singular_alloy_encrypt(&blob, &salt);

    let interval = rotation_interval_seconds(created_at, now);
    let epoch = epoch_of(now, interval);

    let key = derive_endolium_key(&alloy, epoch);
    let envelope = encode_envelope(address_bytes, created_at, epoch, &alloy);
    (key, envelope)
}

/// Determinism: any two (key, envelope) pairs that meet the generator's
/// contract for the same inputs are byte-identical.
pub proof fn lemma_generate_deterministic(
    identity: Seq<u8>,
    text: Seq<u8>,
    created_at: u64,
    now: u64,
    key1: Seq<char>,
    envelope1: Seq<char>,
    key2: Seq<char>,
    envelope2: Seq<char>,
)
    requires
        key1 == endolium_key_of(identity, text, created_at, now),
        envelope1 == endolium_envelope_of(identity, text, created_at, now),
        key2 == endolium_key_of(identity, text, created_at, now),
        envelope2 == endolium_envelope_of(identity, text, created_at, now),
    ensures
        key1 == key2,
        envelope1 == envelope2,
{
}

} // verus!
