//! Trusted boundary to the textual codecs the gateway relies on: whitespace
//! trimming, base58 and base64.  Each outside call is wrapped once; what a
//! call returns is either stated outright or given an uninterpreted name that
//! the callers' contracts are phrased over.
use vstd::prelude::*;
use base64::Engine as _;

verus! {

use vstd::utf8::encode_utf8;

/// What `str::trim` returns for the given characters.
pub uninterp spec fn trimmed_of(s: Seq<char>) -> Seq<char>;

/// What `bs58::decode` (default alphabet) returns for the given characters:
/// the decoded bytes, or nothing when the text is not valid base58.
pub uninterp spec fn base58_decoded(s: Seq<char>) -> Option<Seq<u8>>;

/// What `bs58::encode` (default alphabet) returns for the given bytes.
pub uninterp spec fn base58_of(b: Seq<u8>) -> Seq<char>;

/// What base64 (standard alphabet, padded) decoding returns for the given
/// characters: the decoded bytes, or nothing when the text is not valid base64.
pub uninterp spec fn base64_decoded(s: Seq<char>) -> Option<Seq<u8>>;

/// What base64 (standard alphabet, padded) encoding returns for the given bytes.
pub uninterp spec fn base64_of(b: Seq<u8>) -> Seq<char>;

/// Relies on `str::trim`: it removes leading and trailing whitespace, so the
/// result is a function of the input characters alone, no longer than the
/// input, and trimming it again changes nothing.  Like any string held in
/// memory, the result's byte length fits in `usize`.
#[verifier::external_body]
pub(crate) fn trim_text(s: &str) -> (r: String)
    ensures
        r@ == trimmed_of(s@),
        trimmed_of(r@) == r@,
        r@.len() <= s@.len(),
        encode_utf8(r@).len() <= usize::MAX,
{
    s.trim().to_owned()
}

/// Relies on `str::len`: the length of a string slice in bytes, which always
/// fits in `usize`.
#[verifier::external_body]
pub(crate) fn byte_len(s: &str) -> (r: usize)
    ensures
        r == encode_utf8(s@).len(),
{
    s.len()
}

/// Relies on `bs58::decode` with its default (Bitcoin) alphabet: the result is
/// a function of the input characters alone, and decoding fails on any
/// character outside that alphabet.
#[verifier::external_body]
pub(crate) fn base58_decode(s: &str) -> (r: Option<Vec<u8>>)
    ensures
        match r {
            Some(b) => base58_decoded(s@) == Some(b@),
            None => base58_decoded(s@) is None,
        },
{
    match bs58::decode(s).into_vec() {
        Ok(v) => Some(v),
        Err(_) => None,
    }
}

/// Relies on `bs58::encode` with its default (Bitcoin) alphabet: the result is
/// a function of the input bytes alone, and `bs58::decode` of the result gives
/// the bytes back.
#[verifier::external_body]
pub(crate) fn base58_encode(b: &[u8]) -> (r: String)
    ensures
        r@ == base58_of(b@),
        base58_decoded(r@) == Some(b@),
{
    bs58::encode(b).into_string()
}

/// Relies on base64's standard padded engine for decoding: the result is a
/// function of the input characters alone.
#[verifier::external_body]
pub(crate) fn base64_decode(s: &str) -> (r: Option<Vec<u8>>)
    ensures
        match r {
            Some(b) => base64_decoded(s@) == Some(b@),
            None => base64_decoded(s@) is None,
        },
{
    match base64::engine::general_purpose::STANDARD.decode(s) {
        Ok(v) => Some(v),
        Err(_) => None,
    }
}

/// Relies on base64's standard padded engine for encoding: the result is a
/// function of the input bytes alone, four characters for every three bytes
/// begun, and decoding the result gives the bytes back.
#[verifier::external_body]
pub(crate) fn base64_encode(b: &[u8]) -> (r: String)
    ensures
        r@ == base64_of(b@),
        r@.len() == 4 * ((b@.len() + 2) / 3),
        base64_decoded(r@) == Some(b@),
{
    base64::engine::general_purpose::STANDARD.encode(b)
}

} // verus!
