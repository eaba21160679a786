//! Reading JSON documents with `serde_json`.
//!
//! Nothing in this file is proved: each item states what the parser is
//! trusted to do, and the rest of the library is verified against these
//! statements.

use vstd::prelude::*;

verus! {

/// A parsed JSON value, as `serde_json` holds it. Opaque to the verifier.
#[verifier::external_type_specification]
#[verifier::external_body]
pub struct ExJsonValue(serde_json::Value);

/// The reason `serde_json` gives for refusing a document. Opaque to the
/// verifier.
#[verifier::external_type_specification]
#[verifier::external_body]
pub struct ExJsonError(serde_json::Error);

/// The members of a JSON object whose value is a string, each key with its
/// text. Empty for a value that is no object.
pub uninterp spec fn json_text_members(value: serde_json::Value) -> Map<Seq<char>, Seq<char>>;

/// What `serde_json::from_slice` makes of `body`: `None` where it refuses the
/// bytes as a JSON document, else the string-valued members of the value it
/// reads.
pub uninterp spec fn json_document(body: Seq<u8>) -> Option<Map<Seq<char>, Seq<char>>>;

/// Parses `body` with `serde_json::from_slice` into a `serde_json::Value`.
///
/// Trusted: the call succeeds exactly on the inputs for which
/// `json_document` is `Some`, and the value read then has the string members
/// that `json_document` names.
#[verifier::external_body]
pub(crate) fn parse_document(body: &[u8]) -> (r: Result<serde_json::Value, serde_json::Error>)
    ensures
        match r {
            Ok(value) => json_document(body@) == Some(json_text_members(value)),
            Err(_) => json_document(body@) is None,
        },
{
    serde_json::from_slice::<serde_json::Value>(body)
}

/// Looks `key` up with `serde_json::Value::get` and hands out the text of the
/// member found, if it is a string.
///
/// Trusted: the result is the entry of `json_text_members` under `key`; it is
/// `None` where the value is no object, has no such member, or holds
/// something other than a string there.
#[verifier::external_body]
pub(crate) fn text_member(value: &serde_json::Value, key: &str) -> (r: Option<String>)
    ensures
        match r {
            Some(text) => json_text_members(*value).contains_key(key@)
                && json_text_members(*value)[key@] == text@,
            None => !json_text_members(*value).contains_key(key@),
        },
{
    match value.get(key) {
        Some(serde_json::Value::String(text)) => Some(text.clone()),
        _ => None,
    }
}

/// The message of a parse error, as `serde_json::Error` displays it.
///
/// Trusted for nothing: no contract speaks of the text.
#[verifier::external_body]
pub(crate) fn error_text(error: &serde_json::Error) -> (text: String) {
    error.to_string()
}

} // verus!
