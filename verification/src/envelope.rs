//! Envelope encoding: the anchor record embedding identity, creation time,
//! epoch and the hex of the alloy blob, wrapped in unpadded URL-safe base64.
//! The envelope is decodable by any party holding the same layout; it is an
//! anchor record, not ciphertext for confidentiality.

use vstd::prelude::*;
use vstd::bytes::{spec_u64_to_le_bytes, spec_u64_from_le_bytes, u64_to_le_bytes, u64_from_le_bytes};
use vstd::slice::{slice_subrange, slice_to_vec};
use crate::encoding::{hex_of, hex_lower, b64_of, b64_encode, b64_decode, is_b64url_byte, ascii_string};

verus! {

/// The payload before base64: identity(32) ‖ '|' ‖ le(created_at) ‖ '|' ‖
/// le(epoch) ‖ '|' ‖ hex(blob).
pub open spec fn payload_spec(identity: Seq<u8>, created_at: u64, epoch: u64, blob: Seq<u8>) -> Seq<
    u8,
> {
    identity + seq![124u8] + spec_u64_to_le_bytes(created_at) + seq![124u8] + spec_u64_to_le_bytes(
        epoch,
    ) + seq![124u8] + hex_of(blob)
}

/// The whole envelope, as characters: the unpadded URL-safe base64 of the
/// payload.
pub open spec fn envelope_spec(
    identity: Seq<u8>,
    created_at: u64,
    epoch: u64,
    blob: Seq<u8>,
) -> Seq<char> {
    b64_of(payload_spec(identity, created_at, epoch, blob)).map_values(|b: u8| b as char)
}

/// What a payload parses to: for the fixed layout (32 identity bytes, a
/// separator, two 8-byte little-endian words each followed by a separator,
/// then the hex tail), the embedded fields; otherwise nothing.
pub open spec fn parse_payload_spec(p: Seq<u8>) -> Option<(Seq<u8>, u64, u64, Seq<u8>)> {
    if p.len() >= 51 && p[32] == 124 && p[41] == 124 && p[50] == 124 {
        Some(
            (
                p.take(32),
                spec_u64_from_le_bytes(p.subrange(33, 41)),
                spec_u64_from_le_bytes(p.subrange(42, 50)),
                p.skip(51),
            ),
        )
    } else {
        None
    }
}

/// The fields recovered from an envelope.
pub struct EnvelopeParts {
    pub identity: Vec<u8>,
    pub created_at: u64,
    pub epoch: u64,
    pub blob_hex: Vec<u8>,
}

/// Encode the envelope for a 32-byte identity.
pub fn encode_envelope(identity: &[u8], created_at: u64, epoch: u64, blob: &Vec<u8>) -> (r: String)
    ensures
        r@ == envelope_spec(identity@, created_at, epoch, blob@),
{
    let mut payload: Vec<u8> = Vec::new();
    payload.extend_from_slice(identity);
    payload.push(124);
    let created_bytes = u64_to_le_bytes(created_at);
    payload.extend_from_slice(created_bytes.as_slice());
    payload.push(124);
    let epoch_bytes = u64_to_le_bytes(epoch);
    payload.extend_from_slice(epoch_bytes.as_slice());
    payload.push(124);
    let hex_tail = hex_lower(blob);
    payload.extend_from_slice(hex_tail.as_slice());
    proof {
        assert(payload@ =~= payload_spec(identity@, created_at, epoch, blob@));
    }
    let encoded = b64_encode(&payload);
    let envelope = ascii_string(&encoded);
    proof {
        assert(envelope@ =~= envelope_spec(identity@, created_at, epoch, blob@));
    }
    envelope
}

/// Parse a payload of the fixed layout back into its fields.
pub fn parse_payload(p: &Vec<u8>) -> (r: Option<EnvelopeParts>)
    ensures
        r is Some <==> parse_payload_spec(p@) is Some,
        r matches Some(parts) ==> (parse_payload_spec(p@) matches Some(t) && parts.identity@
            == t.0 && parts.created_at == t.1 && parts.epoch == t.2 && parts.blob_hex@ == t.3),
{
    if p.len() < 51 {
        return None;
    }
    if *vstd::slice::slice_index_get(p.as_slice(), 32) != 124 || *vstd::slice::slice_index_get(
        p.as_slice(),
        41,
    ) != 124 || *vstd::slice::slice_index_get(p.as_slice(), 50) != 124 {
        return None;
    }
    let identity = slice_to_vec(slice_subrange(p.as_slice(), 0, 32));
    let created_at = u64_from_le_bytes(slice_subrange(p.as_slice(), 33, 41));
    let epoch = u64_from_le_bytes(slice_subrange(p.as_slice(), 42, 50));
    let blob_hex = slice_to_vec(slice_subrange(p.as_slice(), 51, p.len()));
    proof {
        assert(identity@ =~= p@.take(32));
        assert(blob_hex@ =~= p@.skip(51));
    }
    Some(EnvelopeParts { identity, created_at, epoch, blob_hex })
}

/// Round trip at the payload level: the fixed layout parses back to exactly
/// the fields it was built from, for any 32-byte identity.
pub proof fn lemma_payload_round_trip(identity: Seq<u8>, created_at: u64, epoch: u64, blob: Seq<u8>)
    requires
        identity.len() == 32,
    ensures
        parse_payload_spec(payload_spec(identity, created_at, epoch, blob)) == Some(
            (identity, created_at, epoch, hex_of(blob)),
        ),
{
    vstd::bytes::lemma_auto_spec_u64_to_from_le_bytes();
    let p = payload_spec(identity, created_at, epoch, blob);
    assert(p.len() == 51 + 2 * blob.len());
    assert(p[32] == 124);
    assert(p[41] == 124);
    assert(p[50] == 124);
    assert(p.take(32) =~= identity);
    assert(p.subrange(33, 41) =~= spec_u64_to_le_bytes(created_at));
    assert(p.subrange(42, 50) =~= spec_u64_to_le_bytes(epoch));
    assert(p.skip(51) =~= hex_of(blob));
}

/// Decode an envelope given as ASCII bytes.  On the encoding of any 32-byte
/// identity, creation time, epoch and blob, it recovers exactly those fields
/// (the blob as its hex digits).
pub fn decode_envelope(envelope: &Vec<u8>) -> (r: Option<EnvelopeParts>)
    ensures
        forall|identity: Seq<u8>, created_at: u64, epoch: u64, blob: Seq<u8>|
            identity.len() == 32 && envelope@ == b64_of(
                payload_spec(identity, created_at, epoch, blob),
            ) ==> (r matches Some(parts) && parts.identity@ == identity && parts.created_at
                == created_at && parts.epoch == epoch && parts.blob_hex@ == hex_of(blob)),
{
    let decoded = b64_decode(envelope);
    match decoded {
        Option::None => {
            proof {
                assert forall|identity: Seq<u8>, created_at: u64, epoch: u64, blob: Seq<u8>|
                    !(identity.len() == 32 && envelope@ == b64_of(
                        payload_spec(identity, created_at, epoch, blob),
                    )) by {
                    assert(envelope@ != b64_of(payload_spec(identity, created_at, epoch, blob)));
                }
            }
            Option::None
        },
        Option::Some(payload) => {
            let parts = parse_payload(&payload);
            proof {
                assert forall|identity: Seq<u8>, created_at: u64, epoch: u64, blob: Seq<u8>|
                    identity.len() == 32 && envelope@ == b64_of(
                        payload_spec(identity, created_at, epoch, blob),
                    ) implies (parts matches Some(ps) && ps.identity@ == identity && ps.created_at
                    == created_at && ps.epoch == epoch && ps.blob_hex@ == hex_of(blob)) by {
                    assert(payload@ == payload_spec(identity, created_at, epoch, blob));
                    lemma_payload_round_trip(identity, created_at, epoch, blob);
                }
            }
            parts
        },
    }
}

} // verus!
