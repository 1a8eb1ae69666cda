//! Binary payloads cross the socket as base64 text. The codec itself is an
//! outside collaborator; its results are named here and the two calls are
//! wrapped, so that the splitter and assembler contracts can speak of them.

use vstd::prelude::*;

use base64::Engine;

verus! {

/// The standard base64 rendering (with padding) of a byte sequence.
pub uninterp spec fn b64_encode_of(b: Seq<u8>) -> Seq<char>;

/// The bytes a standard base64 text denotes, or `None` if the text is not
/// valid base64.
pub uninterp spec fn b64_decode_of(s: Seq<char>) -> Option<Seq<u8>>;

/// Relies on base64's standard engine `encode`: the rendering depends on
/// the bytes alone, decodes back to them, and is empty for empty input.
#[verifier::external_body]
pub(crate) fn b64_encode(b: &[u8]) -> (r: String)
    ensures
        r@ == b64_encode_of(b@),
        b64_decode_of(r@) == Some(b@),
        b@.len() == 0 ==> r@.len() == 0,
{
    base64::engine::general_purpose::STANDARD.encode(b)
}

/// Relies on base64's standard engine `decode`: it returns the bytes a
/// valid base64 text denotes and an error for any other text.
#[verifier::external_body]
pub(crate) fn b64_decode(s: &str) -> (r: Option<Vec<u8>>)
    ensures
        match r {
            Some(v) => b64_decode_of(s@) == Some(v@),
            None => b64_decode_of(s@) is None,
        },
{
    match base64::engine::general_purpose::STANDARD.decode(s.as_bytes()) {
        Ok(v) => Some(v),
        Err(_) => None,
    }
}

} // verus!
