//! Decoding the caller's base64 payload into raw image bytes. The decoder
//! itself is the base64 crate's; whether an input decodes, and to what, is
//! a function of the input characters alone, so the result carries a name
//! that the contract is exact over.

use base64::Engine;
use vstd::prelude::*;
use crate::error::OcrError;

verus! {

/// What base64's standard-alphabet decoder makes of an input: the decoded
/// bytes, or nothing when the input is not valid base64.
pub uninterp spec fn base64_decoding(s: Seq<char>) -> Option<Seq<u8>>;

/// Relies on base64's `STANDARD` engine (the RFC 4648 alphabet, padded):
/// decodes the input or reports its error as text; the outcome is a
/// function of the input characters alone.
#[verifier::external_body]
fn decode_base64(s: &str) -> (r: Result<Vec<u8>, String>)
    ensures
        r matches Ok(v) ==> base64_decoding(s@) == Some(v@),
        r is Err ==> base64_decoding(s@) is None,
{
    base64::engine::general_purpose::STANDARD.decode(s).map_err(|e| e.to_string())
}

/// Decodes a base64 image payload, or reports `DecodeError` exactly when
/// the payload is not valid base64.
pub fn decode_image(image_base64: &str) -> (r: Result<Vec<u8>, OcrError>)
    ensures
        r matches Ok(v) ==> base64_decoding(image_base64@) == Some(v@),
        r matches Err(e) ==> e is DecodeError && base64_decoding(image_base64@) is None,
{
    match decode_base64(image_base64) {
        Ok(v) => Ok(v),
        Err(msg) => Err(OcrError::DecodeError(msg)),
    }
}

} // verus!
