//! Base64 decoding and encoding of receipt payloads.
//!
//! The work is done by the `base64` crate's standard-alphabet engine;
//! this module gives its results names that the rest of the library
//! reasons with.  A payload is valid exactly when `b64_decode_of` on
//! its characters is `Ok`.

use base64::Engine;
use vstd::prelude::*;

verus! {

/// What the `base64` crate's standard engine makes of the text `s`:
/// the decoded bytes, or the display text of its decode error.  The
/// engine is deterministic, so this is a function of `s` alone.
pub uninterp spec fn b64_decode_of(s: Seq<char>) -> Result<Seq<u8>, Seq<char>>;

/// The base64 text that the standard engine produces for the bytes `b`.
pub uninterp spec fn b64_encode_of(b: Seq<u8>) -> Seq<char>;

/// Whether the text `s` decodes exactly to the bytes `b`.
pub open spec fn decodes_to(s: Seq<char>, b: Seq<u8>) -> bool {
    b64_decode_of(s) == Ok::<Seq<u8>, Seq<char>>(b)
}

/// Decode standard base64 with padding.
///
/// Relies on `base64::engine::general_purpose::STANDARD.decode`: it
/// returns the decoded bytes for valid standard base64 and a
/// `DecodeError` otherwise; the error's display text is returned here.
#[verifier::external_body]
pub(crate) fn b64_decode(s: &str) -> (r: Result<Vec<u8>, String>)
    ensures
        match r {
            Ok(bytes) => b64_decode_of(s@) == Ok::<Seq<u8>, Seq<char>>(bytes@),
            Err(detail) => b64_decode_of(s@) == Err::<Seq<u8>, Seq<char>>(detail@),
        },
{
    base64::engine::general_purpose::STANDARD
        .decode(s)
        .map_err(|e| format!("{}", e))
}

/// Encode bytes as standard base64 with padding.
///
/// Relies on `base64::engine::general_purpose::STANDARD.encode`; its
/// documentation shows that decoding with the same engine gives the
/// original bytes back.
#[verifier::external_body]
pub(crate) fn b64_encode(b: &[u8]) -> (r: String)
    ensures
        r@ == b64_encode_of(b@),
        decodes_to(r@, b@),
{
    base64::engine::general_purpose::STANDARD.encode(b)
}

} // verus!
