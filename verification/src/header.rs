//! The token header: the signing key identifier and the declared algorithm.

use vstd::prelude::*;

verus! {

use crate::error::Error;
use crate::error::InvalidError;
use crate::jsondoc::json_get_str;
use crate::jsondoc::json_str_field;

/// The parsed token header.
#[derive(Debug, PartialEq, Clone)]
pub struct Header {
    /// The key identifier, `kid` on the wire.
    pub key_id: String,
    /// The declared signing algorithm, `alg` on the wire.
    pub algorithm: String,
}

/// The header document carries both required members.
pub open spec fn header_fields_present(bytes: Seq<u8>) -> bool {
    json_str_field(bytes, "kid"@) is Some && json_str_field(bytes, "alg"@) is Some
}

impl Header {
    /// Parse the decoded header segment. Both members are required; a
    /// document missing either is a JSON-level rejection.
    pub fn parse(bytes: &[u8]) -> (r: Result<Header, Error>)
        ensures
            r matches Ok(h) ==> header_fields_present(bytes@)
                && json_str_field(bytes@, "kid"@) == Some(h.key_id@)
                && json_str_field(bytes@, "alg"@) == Some(h.algorithm@),
            r matches Err(e) ==> !header_fields_present(bytes@)
                && e matches Error::InvalidToken(InvalidError::Json(_)),
    {
        let key_id = match json_get_str(bytes, "kid") {
            Some(s) => s,
            None => {
                return Err(Error::InvalidToken(InvalidError::Json("kid".to_owned())));
            },
        };
        let algorithm = match json_get_str(bytes, "alg") {
            Some(s) => s,
            None => {
                return Err(Error::InvalidToken(InvalidError::Json("alg".to_owned())));
            },
        };
        Ok(Header { key_id, algorithm })
    }
}

} // verus!
