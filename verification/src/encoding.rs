//! Base64url decoding, at the interface of the `base64` crate.

use vstd::prelude::*;

verus! {

use crate::error::Error;
use crate::error::InvalidError;

/// What base64url (URL-safe alphabet, no padding) decoding yields on the
/// given bytes; `None` where the input is not valid base64url. The result
/// is a function of the input alone.
pub uninterp spec fn b64url_decoded(s: Seq<u8>) -> Option<Seq<u8>>;

/// Relies on the `base64` crate's `URL_SAFE_NO_PAD` engine: decoding is
/// deterministic in the input bytes, and rejects exactly the inputs that
/// are not in the URL-safe base64 alphabet without padding.
#[verifier::external_body]
pub(crate) fn base64_decode_bytes(s: &[u8]) -> (r: Result<Vec<u8>, String>)
    ensures
        r matches Ok(v) ==> b64url_decoded(s@) == Some(v@),
        r is Err ==> b64url_decoded(s@) is None,
{
    base64::Engine::decode(&base64::engine::general_purpose::URL_SAFE_NO_PAD, s)
        .map_err(|e| e.to_string())
}

/// Decode one base64url segment, mapping a decoder rejection to the
/// library's structural token error.
pub fn base64_decode(s: &str) -> (r: Result<Vec<u8>, Error>)
    ensures
        r matches Ok(v) ==> b64url_decoded(crate::text::str_bytes(s@)) == Some(v@),
        r matches Err(e) ==> b64url_decoded(crate::text::str_bytes(s@)) is None
            && e matches Error::InvalidToken(InvalidError::Base64(_)),
{
    match base64_decode_bytes(s.as_bytes()) {
        Ok(v) => Ok(v),
        Err(m) => Err(Error::InvalidToken(InvalidError::Base64(m))),
    }
}

} // verus!
