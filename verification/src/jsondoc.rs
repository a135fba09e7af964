//! Reading single members out of JSON documents, at the interface of
//! `serde_json`. Each reader is a function of the document bytes and the
//! member key alone, so its result carries a name that the callers'
//! contracts are stated over.

use vstd::prelude::*;

verus! {

/// The string value of the top-level member `key` of the JSON document
/// `doc`; `None` where `doc` is not a JSON object or the member is absent
/// or not a string.
pub uninterp spec fn json_str_field(doc: Seq<u8>, key: Seq<char>) -> Option<Seq<char>>;

/// The unsigned-integer value of the top-level member `key` of `doc`;
/// `None` where absent or not representable as a u64.
pub uninterp spec fn json_u64_field(doc: Seq<u8>, key: Seq<char>) -> Option<u64>;

/// The boolean value of the top-level member `key` of `doc`; `None`
/// where absent or not a boolean.
pub uninterp spec fn json_bool_field(doc: Seq<u8>, key: Seq<char>) -> Option<bool>;

/// How many entries the `keys` array of the key-set document `doc` holds;
/// `None` where `doc` is not a JSON object with a `keys` array.
pub uninterp spec fn jwks_entry_count(doc: Seq<u8>) -> Option<usize>;

/// The string member `key` of entry `index` of the `keys` array of `doc`.
pub uninterp spec fn jwks_entry_str_field(doc: Seq<u8>, index: usize, key: Seq<char>) -> Option<
    Seq<char>,
>;

/// Relies on `serde_json::from_slice` and `Value::{get, as_str}`: reading
/// a top-level string member is deterministic in the document bytes and key.
#[verifier::external_body]
pub(crate) fn json_get_str(doc: &[u8], key: &str) -> (r: Option<String>)
    ensures
        r matches Some(s) ==> json_str_field(doc@, key@) == Some(s@),
        r is None ==> json_str_field(doc@, key@) is None,
{
    serde_json::from_slice::<serde_json::Value>(doc).ok()?.get(key)?.as_str().map(
        |s| s.to_string(),
    )
}

/// Relies on `serde_json::from_slice` and `Value::{get, as_u64}`: reading
/// a top-level integer member is deterministic in the document bytes and key.
#[verifier::external_body]
pub(crate) fn json_get_u64(doc: &[u8], key: &str) -> (r: Option<u64>)
    ensures
        r == json_u64_field(doc@, key@),
{
    serde_json::from_slice::<serde_json::Value>(doc).ok()?.get(key)?.as_u64()
}

/// Relies on `serde_json::from_slice` and `Value::{get, as_bool}`: reading
/// a top-level boolean member is deterministic in the document bytes and key.
#[verifier::external_body]
pub(crate) fn json_get_bool(doc: &[u8], key: &str) -> (r: Option<bool>)
    ensures
        r == json_bool_field(doc@, key@),
{
    serde_json::from_slice::<serde_json::Value>(doc).ok()?.get(key)?.as_bool()
}

/// Relies on `serde_json::from_slice` and `Value::{get, as_array}`: the
/// length of the `keys` array is deterministic in the document bytes.
#[verifier::external_body]
pub(crate) fn jwks_count(doc: &[u8]) -> (r: Option<usize>)
    ensures
        r == jwks_entry_count(doc@),
{
    serde_json::from_slice::<serde_json::Value>(doc).ok()?.get("keys")?.as_array().map(
        |a| a.len(),
    )
}

/// Relies on `serde_json::from_slice` and `Value::{get, as_array, as_str}`:
/// reading a string member of one `keys` entry is deterministic in the
/// document bytes, the entry index and the key.
#[verifier::external_body]
pub(crate) fn jwks_entry_str(doc: &[u8], index: usize, key: &str) -> (r: Option<String>)
    ensures
        r matches Some(s) ==> jwks_entry_str_field(doc@, index, key@) == Some(s@),
        r is None ==> jwks_entry_str_field(doc@, index, key@) is None,
{
    serde_json::from_slice::<serde_json::Value>(doc).ok()?.get("keys")?.as_array()?.get(
        index,
    )?.get(key)?.as_str().map(|s| s.to_string())
}

} // verus!
