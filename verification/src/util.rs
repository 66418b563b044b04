//! Deterministic icon identifiers.
//!
//! An icon identity is an 8-character, lowercase, base32hex-encoded prefix of
//! the SHA-1 digest of the identifying bytes (a website URL, or an icon
//! name/style pair).  It is used both as a cache key and as an HTML/CSS
//! identifier fragment.

use vstd::prelude::*;

use sha1::{Digest, Sha1};

verus! {

use vstd::utf8::*;

/// SHA-1 digest of a byte sequence, as computed by the `sha1` crate.
pub uninterp spec fn sha1_of(bytes: Seq<u8>) -> Seq<u8>;

/// Base32hex encoding (RFC 4648, no padding) of a byte sequence, as computed
/// by `data_encoding::BASE32HEX_NOPAD`.
pub uninterp spec fn base32hex_of(bytes: Seq<u8>) -> Seq<u8>;

/// ASCII lowercasing of a single byte.
pub open spec fn lower_byte(b: u8) -> u8 {
    if 65 <= b && b <= 90 {
        (b + 32) as u8
    } else {
        b
    }
}

/// The identity of a byte sequence: the first 8 bytes of the base32hex
/// encoding of its SHA-1 digest, lowercased.
pub open spec fn identity_bytes(bytes: Seq<u8>) -> Seq<u8> {
    base32hex_of(sha1_of(bytes)).take(8).map(|i: int, b: u8| lower_byte(b))
}

/// The identity of a byte sequence, as the characters of the returned string.
pub open spec fn identity_chars(bytes: Seq<u8>) -> Seq<char> {
    identity_bytes(bytes).map(|i: int, b: u8| b as char)
}

/// Relies on `sha1::Sha1` (through the `Digest` trait): the digest depends on
/// the input bytes alone and is always 20 bytes long.
#[verifier::external_body]
fn sha1_digest(bytes: &[u8]) -> (r: Vec<u8>)
    ensures
        r@ == sha1_of(bytes@),
        r@.len() == 20,
{
    let mut hasher = Sha1::new();
    hasher.update(bytes);
    hasher.finalize().to_vec()
}

/// Relies on `data_encoding::BASE32HEX_NOPAD.encode`: the output is a
/// function of the input bytes alone, is `ceil(8n/5)` bytes long, and every
/// output byte is one of the symbols `'0'..='9'`, `'A'..='V'`.  The encoder
/// panics above `usize::MAX / 512` input bytes, so such inputs are excluded.
#[verifier::external_body]
fn base32hex_encode(bytes: &Vec<u8>) -> (r: Vec<u8>)
    requires
        bytes@.len() <= usize::MAX / 512,
    ensures
        r@ == base32hex_of(bytes@),
        r@.len() == (bytes@.len() * 8 + 4) / 5,
        forall|i: int|
            0 <= i < r@.len() ==> (48 <= #[trigger] r@[i] <= 57 || 65 <= r@[i] <= 86),
{
    data_encoding::BASE32HEX_NOPAD.encode(bytes.as_slice()).into_bytes()
}

/// Icon identities are stable: equal identifying bytes yield equal
/// identities, across calls and across builds.
pub proof fn lemma_identity_deterministic(a: Seq<u8>, b: Seq<u8>)
    requires
        a == b,
    ensures
        identity_chars(a) == identity_chars(b),
{
}

/// Relies on std's `String::from_utf8`: it succeeds exactly on valid UTF-8
/// and returns the string those bytes encode.
#[verifier::external_body]
pub(crate) fn string_from_utf8(bytes: Vec<u8>) -> (r: Option<String>)
    ensures
        r is Some <==> valid_utf8(bytes@),
        r matches Some(s) ==> s@ == decode_utf8(bytes@),
{
    match String::from_utf8(bytes) {
        Ok(s) => Some(s),
        Err(_) => None,
    }
}

/// A sequence of ASCII bytes is valid UTF-8 and decodes to one character per
/// byte.
pub proof fn lemma_ascii_bytes_utf8(bytes: Seq<u8>)
    requires
        forall|i: int| 0 <= i < bytes.len() ==> bytes[i] < 128,
    ensures
        valid_utf8(bytes),
        decode_utf8(bytes) =~= bytes.map(|i: int, b: u8| b as char),
    decreases bytes.len(),
{
    if bytes.len() != 0 {
        let b = bytes[0];
        assert(is_leading_byte_width_1(b));
        assert(b & 0x7f == b) by (bit_vector)
            requires
                b < 128,
        ;
        assert(valid_first_scalar(bytes));
        assert(length_of_first_scalar(bytes) == 1);
        assert(pop_first_scalar(bytes) =~= bytes.drop_first());
        lemma_ascii_bytes_utf8(bytes.drop_first());
        assert(decode_first_scalar(bytes) == b as u32);
        assert(decode_utf8(bytes) =~= bytes.map(|i: int, x: u8| x as char));
    }
}

/// Returns the 8-character lowercase base32hex-encoded identity of the
/// provided bytes, derived from their SHA-1 hash.
pub fn sha1_base32(bytes: &[u8]) -> (r: String)
    ensures
        r@ == identity_chars(bytes@),
        r@.len() == 8,
{
    let digest = sha1_digest(bytes);
    let b32 = base32hex_encode(&digest);
    let mut id: Vec<u8> = Vec::new();
    assert(b32@.len() == 32);
    for i in 0..8usize
        invariant
            b32@ == base32hex_of(sha1_of(bytes@)),
            b32@.len() == 32,
            forall|j: int|
                0 <= j < b32@.len() ==> (48 <= #[trigger] b32@[j] <= 57 || 65 <= b32@[j] <= 86),
            id@ =~= identity_bytes(bytes@).take(i as int),
            forall|j: int| 0 <= j < id@.len() ==> #[trigger] id@[j] < 128,
    {
        let b = b32[i];
        let low = if 65 <= b && b <= 90 {
            b + 32
        } else {
            b
        };
        assert(low == lower_byte(b32@[i as int]));
        id.push(low);
        assert(id@ =~= identity_bytes(bytes@).take(i + 1));
    }
    assert(id@ =~= identity_bytes(bytes@));
    proof {
        lemma_ascii_bytes_utf8(id@);
    }
    let s = string_from_utf8(id);
    match s {
        Some(s) => {
            assert(s@ =~= identity_chars(bytes@));
            s
        },
        None => {
            // Unreachable: every identity byte is ASCII.
            assert(false);
            String::new()
        },
    }
}

} // verus!
