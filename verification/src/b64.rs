//! Base64 codecs, standard and URL-safe alphabets, both with padding.
//!
//! `Bytes` fields travel base64-encoded on the wire; session identifiers are
//! derived from URL-safe base64.  Both engines reject any input that is not
//! the exact encoding of some byte string (canonical padding, zero trailing
//! bits), so decoding succeeds exactly on canonical encodings and the two
//! directions are mutual inverses.

use vstd::prelude::*;

verus! {

/// The standard-alphabet, padded base64 encoding of a byte string.
pub uninterp spec fn b64_std_of(b: Seq<u8>) -> Seq<char>;

/// What standard-alphabet, padded base64 decoding accepts and yields.
pub uninterp spec fn b64_std_decode_of(s: Seq<char>) -> Option<Seq<u8>>;

/// The URL-safe-alphabet, padded base64 encoding of a byte string.
pub uninterp spec fn b64_url_of(b: Seq<u8>) -> Seq<char>;

/// What URL-safe-alphabet, padded base64 decoding accepts and yields.
pub uninterp spec fn b64_url_decode_of(s: Seq<char>) -> Option<Seq<u8>>;

/// Relies on base64's STANDARD engine: `encode` is a function of the bytes
/// alone, and `decode` inverts it.
#[verifier::external_body]
pub fn b64_std_encode(b: &Vec<u8>) -> (r: String)
    ensures
        r@ == b64_std_of(b@),
        b64_std_decode_of(r@) == Some(b@),
{
    base64::Engine::encode(&base64::engine::general_purpose::STANDARD, b)
}

/// Relies on base64's STANDARD engine: `decode` requires canonical padding
/// and zero trailing bits, so it accepts exactly the encodings that
/// `encode` produces, and returns the encoded bytes.
#[verifier::external_body]
pub fn b64_std_decode(s: &str) -> (r: Option<Vec<u8>>)
    ensures
        match r {
            Some(b) => b64_std_decode_of(s@) == Some(b@) && b64_std_of(b@) == s@,
            None => b64_std_decode_of(s@) is None,
        },
{
    base64::Engine::decode(&base64::engine::general_purpose::STANDARD, s).ok()
}

/// Relies on base64's URL_SAFE engine: `encode` is a function of the bytes
/// alone, and `decode` inverts it.
#[verifier::external_body]
pub fn b64_url_encode(b: &Vec<u8>) -> (r: String)
    ensures
        r@ == b64_url_of(b@),
        b64_url_decode_of(r@) == Some(b@),
{
    base64::Engine::encode(&base64::engine::general_purpose::URL_SAFE, b)
}

/// Relies on base64's URL_SAFE engine: `decode` requires canonical padding
/// and zero trailing bits, so it accepts exactly the encodings that
/// `encode` produces, and returns the encoded bytes.
#[verifier::external_body]
pub fn b64_url_decode(s: &str) -> (r: Option<Vec<u8>>)
    ensures
        match r {
            Some(b) => b64_url_decode_of(s@) == Some(b@) && b64_url_of(b@) == s@,
            None => b64_url_decode_of(s@) is None,
        },
{
    base64::Engine::decode(&base64::engine::general_purpose::URL_SAFE, s).ok()
}

} // verus!
