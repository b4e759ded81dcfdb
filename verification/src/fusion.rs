//! Hash fusion: combine an identity and a text payload into a fixed
//! 17 × 32-byte vector through labeled hash rounds, then overlay a fixed
//! self-entropy tag.

use vstd::prelude::*;
use vstd::bytes::{spec_u64_to_le_bytes, u64_to_le_bytes};
use crate::digest::{sha256_of, sha256_bytes};

verus! {

/// How many labeled rounds the fusion runs: one per language tag.
pub const LANG_COUNT: usize = 17;

/// The fixed language tags, in order, as ASCII bytes:
/// en es fr de ru ja zh ar hi pt it nl sv no fi ko tr.
pub open spec fn lang_tag(i: int) -> Seq<u8> {
    if i == 0 {
        seq![101u8, 110u8]
    } else if i == 1 {
        seq![101u8, 115u8]
    } else if i == 2 {
        seq![102u8, 114u8]
    } else if i == 3 {
        seq![100u8, 101u8]
    } else if i == 4 {
        seq![114u8, 117u8]
    } else if i == 5 {
        seq![106u8, 97u8]
    } else if i == 6 {
        seq![122u8, 104u8]
    } else if i == 7 {
        seq![97u8, 114u8]
    } else if i == 8 {
        seq![104u8, 105u8]
    } else if i == 9 {
        seq![112u8, 116u8]
    } else if i == 10 {
        seq![105u8, 116u8]
    } else if i == 11 {
        seq![110u8, 108u8]
    } else if i == 12 {
        seq![115u8, 118u8]
    } else if i == 13 {
        seq![110u8, 111u8]
    } else if i == 14 {
        seq![102u8, 105u8]
    } else if i == 15 {
        seq![107u8, 111u8]
    } else {
        seq![116u8, 114u8]
    }
}

/// The self-entropy tag: an explicit protocol version byte string
/// ("ENDOLIUM_COMPILED_CONST_V1"), cycled over the fused vector.
pub open spec fn entropy_tag() -> Seq<u8> {
    seq![
        69u8, 78u8, 68u8, 79u8, 76u8, 73u8, 85u8, 77u8, 95u8, 67u8, 79u8, 77u8, 80u8, 73u8, 76u8,
        69u8, 68u8, 95u8, 67u8, 79u8, 78u8, 83u8, 84u8, 95u8, 86u8, 49u8,
    ]
}

/// The message hashed in round `i`:
/// identity ‖ '|' ‖ text ‖ '|' ‖ tag ‖ '|' ‖ le(i).
pub open spec fn fuse_message(identity: Seq<u8>, text: Seq<u8>, i: int) -> Seq<u8> {
    identity + seq![124u8] + text + seq![124u8] + lang_tag(i) + seq![124u8] + spec_u64_to_le_bytes(
        i as u64,
    )
}

/// The accumulator after `n` rounds: 32 digest bytes per round.
pub open spec fn fuse_rounds(identity: Seq<u8>, text: Seq<u8>, n: int) -> Seq<u8>
    decreases n,
{
    if n <= 0 {
        Seq::empty()
    } else {
        fuse_rounds(identity, text, n - 1) + sha256_of(fuse_message(identity, text, n - 1))
    }
}

/// The fused vector: 17 rounds, each byte XORed with the entropy tag cycled
/// over its own length.
pub open spec fn fused_spec(identity: Seq<u8>, text: Seq<u8>) -> Seq<u8> {
    let acc = fuse_rounds(identity, text, 17);
    Seq::new(acc.len(), |i: int| acc[i] ^ entropy_tag()[i % 26])
}

/// A two-byte vector.
fn pair(a: u8, b: u8) -> (r: Vec<u8>)
    ensures
        r@ =~= seq![a, b],
{
    let mut v: Vec<u8> = Vec::new();
    v.push(a);
    v.push(b);
    v
}

/// The language tag for round `i`, as bytes.
pub fn lang_tag_bytes(i: usize) -> (r: Vec<u8>)
    requires
        i < 17,
    ensures
        r@ == lang_tag(i as int),
{
    if i == 0 {
        pair(101, 110)
    } else if i == 1 {
        pair(101, 115)
    } else if i == 2 {
        pair(102, 114)
    } else if i == 3 {
        pair(100, 101)
    } else if i == 4 {
        pair(114, 117)
    } else if i == 5 {
        pair(106, 97)
    } else if i == 6 {
        pair(122, 104)
    } else if i == 7 {
        pair(97, 114)
    } else if i == 8 {
        pair(104, 105)
    } else if i == 9 {
        pair(112, 116)
    } else if i == 10 {
        pair(105, 116)
    } else if i == 11 {
        pair(110, 108)
    } else if i == 12 {
        pair(115, 118)
    } else if i == 13 {
        pair(110, 111)
    } else if i == 14 {
        pair(102, 105)
    } else if i == 15 {
        pair(107, 111)
    } else {
        pair(116, 114)
    }
}

/// The self-entropy tag as bytes.
pub fn entropy_tag_bytes() -> (r: Vec<u8>)
    ensures
        r@ == entropy_tag(),
{
    let mut v: Vec<u8> = Vec::new();
    v.push(69);
    v.push(78);
    v.push(68);
    v.push(79);
    v.push(76);
    v.push(73);
    v.push(85);
    v.push(77);
    v.push(95);
    v.push(67);
    v.push(79);
    v.push(77);
    v.push(80);
    v.push(73);
    v.push(76);
    v.push(69);
    v.push(68);
    v.push(95);
    v.push(67);
    v.push(79);
    v.push(78);
    v.push(83);
    v.push(84);
    v.push(95);
    v.push(86);
    v.push(49);
    proof {
        assert(v@ =~= entropy_tag());
    }
    v
}

/// Fuse identity and text: one labeled SHA-256 round per language tag, the
/// digests concatenated, then the entropy tag XORed over the whole vector.
/// The output length is fixed at 17 × 32 bytes whatever the input lengths.
pub fn condinus_fuse(identity: &[u8], text: &[u8]) -> (r: Vec<u8>)
    ensures
        r@ == fused_spec(identity@, text@),
        r@.len() == 544,
{
    let mut acc: Vec<u8> = Vec::new();
    let mut i: usize = 0;
    while i < LANG_COUNT
        invariant
            i <= 17,
            acc@ == fuse_rounds(identity@, text@, i as int),
            acc@.len() == 32 * i,
        decreases 17 - i,
    {
        let mut msg: Vec<u8> = Vec::new();
        msg.extend_from_slice(identity);
        msg.push(124);
        msg.extend_from_slice(text);
        msg.push(124);
        let tag = lang_tag_bytes(i);
        msg.extend_from_slice(tag.as_slice());
        msg.push(124);
        let idx = u64_to_le_bytes(i as u64);
        msg.extend_from_slice(idx.as_slice());
        proof {
            assert(msg@ =~= fuse_message(identity@, text@, i as int));
        }
        let h = sha256_bytes(&msg);
        acc.extend_from_slice(h.as_slice());
        proof {
            assert(acc@ =~= fuse_rounds(identity@, text@, i as int + 1));
        }
        i = i + 1;
    }
    let ghost rounds = acc@;
    let entropy = entropy_tag_bytes();
    let mut j: usize = 0;
    while j < acc.len()
        invariant
            j <= acc@.len(),
            acc@.len() == rounds.len(),
            rounds == fuse_rounds(identity@, text@, 17),
            entropy@ == entropy_tag(),
            forall|k: int| 0 <= k < j ==> acc@[k] == rounds[k] ^ entropy_tag()[k % 26],
            forall|k: int| j <= k < acc@.len() ==> acc@[k] == rounds[k],
        decreases acc@.len() - j,
    {
        let e = entropy[j % 26];
        let a = acc[j];
        acc[j] = a ^ e;
        j = j + 1;
    }
    proof {
        assert(acc@ =~= fused_spec(identity@, text@));
    }
    acc
}

} // verus!
