//! Byte-string encodings the pipeline uses: lowercase hex, URL-safe unpadded
//! base64, and the lift of ASCII bytes into a `String`.

use vstd::prelude::*;
use base64::Engine;

verus! {

/// The lowercase hex digit for a value below 16, as an ASCII byte.
pub open spec fn hex_digit(n: u8) -> u8
    recommends
        n < 16,
{
    if n < 10 {
        (48 + n) as u8
    } else {
        (87 + n) as u8
    }
}

/// Lowercase hex encoding: two ASCII digits per byte, high nibble first.
pub open spec fn hex_of(s: Seq<u8>) -> Seq<u8> {
    Seq::new(
        2 * s.len(),
        |i: int|
            if i % 2 == 0 {
                hex_digit(s[i / 2] / 16)
            } else {
                hex_digit(s[i / 2] % 16)
            },
    )
}

/// Relies on hex::encode: lowercase hex, two digits per byte, high nibble
/// first.
#[verifier::external_body]
pub fn hex_lower(v: &Vec<u8>) -> (r: Vec<u8>)
    ensures
        r@ == hex_of(v@),
{
    hex::encode(v.as_slice()).into_bytes()
}

/// The URL-safe, unpadded base64 encoding of `v`, as ASCII bytes.
pub uninterp spec fn b64_of(v: Seq<u8>) -> Seq<u8>;

/// Length of the unpadded base64 encoding of `n` input bytes: four output
/// characters per full group of three, two or three for a trailing remainder.
pub open spec fn b64_len(n: nat) -> nat {
    (n / 3) * 4 + if n % 3 == 0 {
        0nat
    } else {
        n % 3 + 1
    }
}

/// The URL-safe base64 alphabet: A-Z, a-z, 0-9, '-' and '_'.
pub open spec fn is_b64url_byte(b: u8) -> bool {
    (65 <= b <= 90) || (97 <= b <= 122) || (48 <= b <= 57) || b == 45 || b == 95
}

/// Relies on base64's URL_SAFE_NO_PAD engine: an unpadded encoding over the
/// URL-safe alphabet, four characters per three input bytes.
#[verifier::external_body]
pub fn b64_encode(v: &Vec<u8>) -> (r: Vec<u8>)
    ensures
        r@ == b64_of(v@),
        r@.len() == b64_len(v@.len()),
        forall|i: int| 0 <= i < r@.len() ==> is_b64url_byte(#[trigger] r@[i]),
{
    base64::engine::general_purpose::URL_SAFE_NO_PAD.encode(v.as_slice()).into_bytes()
}

/// Relies on base64's URL_SAFE_NO_PAD engine: decoding inverts encoding, so
/// it succeeds on the encoding of any byte string and returns exactly that
/// byte string.
#[verifier::external_body]
pub fn b64_decode(v: &Vec<u8>) -> (r: Option<Vec<u8>>)
    ensures
        r is None ==> (forall|s: Seq<u8>| v@ != b64_of(s)),
        r matches Some(d) ==> (forall|s: Seq<u8>| v@ == b64_of(s) ==> d@ == s),
{
    match base64::engine::general_purpose::URL_SAFE_NO_PAD.decode(v.as_slice()) {
        Ok(d) => Some(d),
        Err(_) => None,
    }
}

/// Relies on String::from_utf8: ASCII bytes are valid UTF-8 and decode to
/// exactly those characters.
#[verifier::external_body]
pub fn ascii_string(v: &Vec<u8>) -> (r: String)
    requires
        forall|i: int| 0 <= i < v@.len() ==> v@[i] < 128,
    ensures
        r@ == v@.map_values(|b: u8| b as char),
{
    String::from_utf8(v.clone()).expect("ASCII bytes are valid UTF-8")
}

} // verus!
