//! Deterministic content mixing: a hash-driven Fisher–Yates permutation, a
//! chained-hash XOR noise overlay, and the transform that combines them with
//! labeled hash rounds.

use vstd::prelude::*;
use vstd::bytes::{spec_u64_to_le_bytes, spec_u64_from_le_bytes, u64_to_le_bytes, u64_from_le_bytes};
use vstd::slice::slice_subrange;
use crate::digest::{keccak_of, keccak256};
use crate::fusion::{lang_tag, lang_tag_bytes, LANG_COUNT};

verus! {

/// `s` with the values at `a` and `b` exchanged.
pub open spec fn swap_seq(s: Seq<u8>, a: int, b: int) -> Seq<u8> {
    s.update(a, s[b]).update(b, s[a])
}

/// The swap target for position `i` of buffer `cur`: the first 8 bytes of
/// keccak(le(i) ‖ cur), read little-endian, reduced modulo i + 1.
pub open spec fn swap_index(cur: Seq<u8>, i: int) -> int {
    (spec_u64_from_le_bytes(keccak_of(spec_u64_to_le_bytes(i as u64) + cur).take(8)) as int) % (
    i + 1)
}

/// The buffer after the descending passes for positions len-1 down to `k`.
pub open spec fn shuffle_state(s: Seq<u8>, k: int) -> Seq<u8>
    decreases s.len() - k,
{
    if 1 <= k < s.len() {
        let prev = shuffle_state(s, k + 1);
        swap_seq(prev, k, swap_index(prev, k))
    } else {
        s
    }
}

/// The full permutation: all passes, from the top index down to 1.  A buffer
/// of length 0 or 1 is unchanged.
pub open spec fn shuffle_spec(s: Seq<u8>) -> Seq<u8> {
    shuffle_state(s, 1)
}

/// Exchanging two positions keeps the multiset of values and the length.
pub proof fn lemma_swap_multiset(s: Seq<u8>, a: int, b: int)
    requires
        0 <= a < s.len(),
        0 <= b < s.len(),
    ensures
        swap_seq(s, a, b).to_multiset() == s.to_multiset(),
        swap_seq(s, a, b).len() == s.len(),
{
    broadcast use vstd::seq_lib::to_multiset_update;
    broadcast use vstd::seq_lib::group_to_multiset_ensures;
    broadcast use vstd::multiset::group_multiset_axioms;
    broadcast use vstd::multiset::group_multiset_properties;

    if a == b {
        assert(s.update(a, s[b]) =~= s);
        assert(swap_seq(s, a, b) =~= s);
    } else {
        let s1 = s.update(a, s[b]);
        let s2 = s1.update(b, s[a]);
        assert(s.contains(s[a]));
        assert(s.contains(s[b]));
        assert(s1[b] == s[b]);
        assert(s1.contains(s1[b]));
        assert(s2.to_multiset() =~= s.to_multiset());
    }
}

/// Every descending state keeps the multiset of values and the length.
pub proof fn lemma_shuffle_state_multiset(s: Seq<u8>, k: int)
    ensures
        shuffle_state(s, k).to_multiset() == s.to_multiset(),
        shuffle_state(s, k).len() == s.len(),
    decreases s.len() - k,
{
    if 1 <= k < s.len() {
        lemma_shuffle_state_multiset(s, k + 1);
        let prev = shuffle_state(s, k + 1);
        lemma_swap_multiset(prev, k, swap_index(prev, k));
    }
}

/// Deterministic Fisher–Yates over positions len-1 down to 1: the swap target
/// for each position comes from a keccak digest of the position and the
/// current buffer.  The output is a permutation of the input.
pub fn fisher_yates_shuffle(input: &Vec<u8>) -> (r: Vec<u8>)
    ensures
        r@ == shuffle_spec(input@),
        r@.len() == input@.len(),
        r@.to_multiset() == input@.to_multiset(),
{
    let n = input.len();
    let mut out: Vec<u8> = Vec::new();
    out.extend_from_slice(input.as_slice());
    proof {
        assert(out@ =~= input@);
        lemma_shuffle_state_multiset(input@, 1);
    }
    if n <= 1 {
        return out;
    }
    let mut i: usize = n - 1;
    while i >= 1
        invariant
            n == input@.len(),
            2 <= n,
            i <= n - 1,
            out@ == shuffle_state(input@, i as int + 1),
            out@.len() == n,
        decreases i,
    {
        let mut msg = u64_to_le_bytes(i as u64);
        msg.extend_from_slice(out.as_slice());
        proof {
            assert(msg@ =~= spec_u64_to_le_bytes(i as u64) + out@);
        }
        let h = keccak256(&msg);
        let head = slice_subrange(h.as_slice(), 0, 8);
        proof {
            assert(head@ =~= keccak_of(spec_u64_to_le_bytes(i as u64) + out@).take(8));
        }
        let w = u64_from_le_bytes(head);
        let j = (w % (i as u64 + 1)) as usize;
        let ghost prev = out@;
        proof {
            assert(j as int == swap_index(prev, i as int));
        }
        let vi = out[i];
        let vj = out[j];
        out[i] = vj;
        out[j] = vi;
        proof {
            assert(out@ =~= swap_seq(prev, i as int, j as int));
            assert(out@ == shuffle_state(input@, i as int));
        }
        i = i - 1;
    }
    out
}

/// The chained-keccak noise state before byte `i`: the seed itself for the
/// first byte, afterwards the digest of the previous state and the previous
/// position.
pub open spec fn noise_state(seed: Seq<u8>, i: int) -> Seq<u8>
    decreases i + 1,
{
    if i < 0 {
        seed
    } else {
        keccak_of(noise_state(seed, i - 1) + spec_u64_to_le_bytes(i as u64))
    }
}

/// `data` with byte `i` XORed against byte i % 32 of the i-th noise digest.
pub open spec fn noised(data: Seq<u8>, seed: Seq<u8>) -> Seq<u8> {
    Seq::new(data.len(), |i: int| data[i] ^ noise_state(seed, i)[i % 32])
}

pub proof fn lemma_noise_state_len(seed: Seq<u8>, i: int)
    requires
        seed.len() == 32,
    ensures
        noise_state(seed, i).len() == 32,
    decreases i + 1,
{
    if i >= 0 {
        lemma_noise_state_len(seed, i - 1);
    }
}

/// Overlay a pseudo-random stream generated by chaining keccak digests from
/// the seed: byte `i` is XORed with a byte of digest `i`, and each digest
/// becomes the state hashed for the next one.
pub fn deterministic_xor_noise(data: &Vec<u8>, seed: &Vec<u8>) -> (r: Vec<u8>)
    requires
        seed@.len() == 32,
    ensures
        r@ == noised(data@, seed@),
        r@.len() == data@.len(),
{
    let mut out: Vec<u8> = Vec::new();
    out.extend_from_slice(data.as_slice());
    let mut state: Vec<u8> = Vec::new();
    state.extend_from_slice(seed.as_slice());
    proof {
        assert(out@ =~= data@);
        assert(state@ =~= seed@);
    }
    let n = out.len();
    let mut i: usize = 0;
    while i < n
        invariant
            n == data@.len(),
            i <= n,
            out@.len() == n,
            state@ == noise_state(seed@, i as int - 1),
            state@.len() == 32,
            seed@.len() == 32,
            forall|k: int| 0 <= k < i ==> out@[k] == data@[k] ^ noise_state(seed@, k)[k % 32],
            forall|k: int| i <= k < n ==> out@[k] == data@[k],
        decreases n - i,
    {
        let mut msg: Vec<u8> = Vec::new();
        msg.extend_from_slice(state.as_slice());
        let ib = u64_to_le_bytes(i as u64);
        msg.extend_from_slice(ib.as_slice());
        proof {
            assert(msg@ =~= noise_state(seed@, i as int - 1) + spec_u64_to_le_bytes(i as u64));
        }
        let h = keccak256(&msg);
        proof {
            lemma_noise_state_len(seed@, i as int);
        }
        let e = h[i % 32];
        let a = out[i];
        out[i] = a ^ e;
        state = h;
        i = i + 1;
    }
    proof {
        assert(out@ =~= noised(data@, seed@));
    }
    out
}

/// The decimal ASCII digits of a round index below 17.
pub open spec fn dec_repr(i: int) -> Seq<u8>
    recommends
        0 <= i < 17,
{
    if i < 10 {
        seq![(48 + i) as u8]
    } else {
        seq![49u8, (48 + (i - 10)) as u8]
    }
}

/// The decimal digits of a round index, as bytes.
pub fn dec_repr_bytes(i: usize) -> (r: Vec<u8>)
    requires
        i < 17,
    ensures
        r@ == dec_repr(i as int),
{
    let mut v: Vec<u8> = Vec::new();
    if i < 10 {
        v.push(48 + i as u8);
        proof {
            assert(v@ =~= dec_repr(i as int));
        }
    } else {
        v.push(49);
        v.push(48 + (i as u8 - 10));
        proof {
            assert(v@ =~= dec_repr(i as int));
        }
    }
    v
}

/// The message hashed in round `i` of the transform:
/// input ‖ '|' ‖ tag ‖ '|' ‖ dec(i) ‖ '|' ‖ dec(i).
pub open spec fn transform_message(input: Seq<u8>, i: int) -> Seq<u8> {
    input + seq![124u8] + lang_tag(i) + seq![124u8] + dec_repr(i) + seq![124u8] + dec_repr(i)
}

/// The transform accumulator after `n` rounds: 32 keccak bytes per round.
pub open spec fn transform_rounds(input: Seq<u8>, n: int) -> Seq<u8>
    decreases n,
{
    if n <= 0 {
        Seq::empty()
    } else {
        transform_rounds(input, n - 1) + keccak_of(transform_message(input, n - 1))
    }
}

/// The full transform: 17 labeled keccak rounds, a noise overlay seeded by
/// the digest of the input, then the deterministic shuffle.
pub open spec fn condinus_spec(input: Seq<u8>) -> Seq<u8> {
    shuffle_spec(noised(transform_rounds(input, 17), keccak_of(input)))
}

/// Mix a text into a fixed 17 × 32-byte blob: one labeled keccak round per
/// language tag, a chained-hash noise overlay, and a deterministic shuffle.
pub fn condinus_transform(input: &[u8]) -> (r: Vec<u8>)
    ensures
        r@ == condinus_spec(input@),
        r@.len() == 544,
{
    let mut acc: Vec<u8> = Vec::new();
    let mut i: usize = 0;
    while i < LANG_COUNT
        invariant
            i <= 17,
            acc@ == transform_rounds(input@, i as int),
            acc@.len() == 32 * i,
        decreases 17 - i,
    {
        let mut msg: Vec<u8> = Vec::new();
        msg.extend_from_slice(input);
        msg.push(124);
        let tag = lang_tag_bytes(i);
        msg.extend_from_slice(tag.as_slice());
        msg.push(124);
        let dec = dec_repr_bytes(i);
        msg.extend_from_slice(dec.as_slice());
        msg.push(124);
        msg.extend_from_slice(dec.as_slice());
        proof {
            assert(msg@ =~= transform_message(input@, i as int));
        }
        let h = keccak256(&msg);
        acc.extend_from_slice(h.as_slice());
        proof {
            assert(acc@ =~= transform_rounds(input@, i as int + 1));
        }
        i = i + 1;
    }
    let mut input_vec: Vec<u8> = Vec::new();
    input_vec.extend_from_slice(input);
    proof {
        assert(input_vec@ =~= input@);
    }
    let seed = keccak256(&input_vec);
    let noisy = deterministic_xor_noise(&acc, &seed);
    fisher_yates_shuffle(&noisy)
}

} // verus!
