//! The registered claims, the verified token, and the caller-chosen payload.

use vstd::prelude::*;

verus! {

use crate::jsondoc::json_bool_field;
use crate::jsondoc::json_str_field;

/// The registered claims every accepted token carries. Read-only after
/// parsing; never mutated.
#[derive(Debug, PartialEq, Clone)]
pub struct RequiredClaims {
    pub issuer: String,
    pub subject: String,
    pub audience: String,
    /// Seconds since the Unix epoch.
    pub expires_at: u64,
    /// Seconds since the Unix epoch.
    pub issued_at: u64,
}

/// The verified output: claims paired with the caller's payload. Only
/// constructed after every check, the signature included, has passed.
#[derive(Debug, PartialEq, Clone)]
pub struct Token<P> {
    pub claims: RequiredClaims,
    pub payload: P,
}

/// A caller-chosen payload shape, read from the same claims bytes as the
/// registered claims. Each implementation pins down, through the two spec
/// functions, when its parse succeeds and what value it yields.
pub trait JsonPayload: Sized {
    /// Whether parsing the given claims bytes as this payload succeeds.
    spec fn spec_parse_ok(bytes: Seq<u8>) -> bool;

    /// What holds of the value parsed from the given claims bytes.
    spec fn spec_parsed(bytes: Seq<u8>, payload: &Self) -> bool;

    fn from_json_bytes(bytes: &[u8]) -> (r: Result<Self, String>)
        ensures
            r matches Ok(p) ==> Self::spec_parse_ok(bytes@) && Self::spec_parsed(bytes@, &p),
            r is Err ==> !Self::spec_parse_ok(bytes@),
    ;
}

/// The empty payload: a caller that wants the registered claims only.
impl JsonPayload for () {
    open spec fn spec_parse_ok(bytes: Seq<u8>) -> bool {
        true
    }

    open spec fn spec_parsed(bytes: Seq<u8>, payload: &()) -> bool {
        true
    }

    fn from_json_bytes(bytes: &[u8]) -> (r: Result<Self, String>) {
        Ok(())
    }
}

/// The payload fields Google's identity tokens commonly carry. Every
/// field is optional; a field that is absent or not of the expected JSON
/// type reads as `None`.
#[derive(Debug, PartialEq, Clone)]
pub struct IdPayload {
    pub email: Option<String>,
    pub email_verified: Option<bool>,
    pub name: Option<String>,
    pub picture: Option<String>,
    pub given_name: Option<String>,
    pub family_name: Option<String>,
    pub locale: Option<String>,
    /// The hosted-domain claim, `hd` on the wire.
    pub domain: Option<String>,
}

/// An optional string field matches what the document holds under `key`.
pub open spec fn opt_str_matches(bytes: Seq<u8>, key: Seq<char>, field: Option<String>) -> bool {
    match field {
        Some(s) => json_str_field(bytes, key) == Some(s@),
        None => json_str_field(bytes, key) is None,
    }
}

impl JsonPayload for IdPayload {
    open spec fn spec_parse_ok(bytes: Seq<u8>) -> bool {
        true
    }

    open spec fn spec_parsed(bytes: Seq<u8>, payload: &IdPayload) -> bool {
        &&& opt_str_matches(bytes, "email"@, payload.email)
        &&& payload.email_verified == json_bool_field(bytes, "email_verified"@)
        &&& opt_str_matches(bytes, "name"@, payload.name)
        &&& opt_str_matches(bytes, "picture"@, payload.picture)
        &&& opt_str_matches(bytes, "given_name"@, payload.given_name)
        &&& opt_str_matches(bytes, "family_name"@, payload.family_name)
        &&& opt_str_matches(bytes, "locale"@, payload.locale)
        &&& opt_str_matches(bytes, "hd"@, payload.domain)
    }

    fn from_json_bytes(bytes: &[u8]) -> (r: Result<Self, String>) {
        Ok(IdPayload {
            email: crate::jsondoc::json_get_str(bytes, "email"),
            email_verified: crate::jsondoc::json_get_bool(bytes, "email_verified"),
            name: crate::jsondoc::json_get_str(bytes, "name"),
            picture: crate::jsondoc::json_get_str(bytes, "picture"),
            given_name: crate::jsondoc::json_get_str(bytes, "given_name"),
            family_name: crate::jsondoc::json_get_str(bytes, "family_name"),
            locale: crate::jsondoc::json_get_str(bytes, "locale"),
            domain: crate::jsondoc::json_get_str(bytes, "hd"),
        })
    }
}

} // verus!
