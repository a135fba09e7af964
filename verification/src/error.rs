//! The closed error taxonomy. No variant's payload is consulted by the
//! verification logic; the strings carry diagnostic detail only.

use vstd::prelude::*;

verus! {

/// Why a token is invalid in itself, apart from key retrieval.
#[derive(Debug, PartialEq)]
pub enum InvalidError {
    /// A segment is not valid base64url; the payload carries the decoder's message.
    Base64(String),
    /// A decoded segment is not the JSON the token format requires.
    Json(String),
    /// The signature does not verify under the named key. Deliberately
    /// opaque: never says why.
    Crypto,
    /// The compact serialization does not have its three segments; the
    /// payload names the first missing one.
    TokenFormat(String),
    /// A registered claim fails its check; the payload names the claim.
    InvalidClaims(String),
    /// The header names a key identifier absent from the key set.
    InvalidKeyId,
}

/// Everything `verify` can report.
#[derive(Debug, PartialEq)]
pub enum Error {
    /// The token itself is invalid.
    InvalidToken(InvalidError),
    /// The provider's key document could not be retrieved.
    RetrieveKeyFailure,
    /// The token declares a signing algorithm other than RS256; carries
    /// the declared value.
    UnsupportedAlgorithm(String),
    /// The token's expiry instant is in the past.
    Expired,
}

} // verus!
