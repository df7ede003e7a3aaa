//! The trusted boundary to JSON parsing.
//!
//! The two documents the server consumes — a build manifest and the root
//! orchestration config — are parsed by `serde_json`. What a parse returns is
//! a function of the document text and the looked-up key alone; the two
//! uninterpreted names below stand for those results, and the wrappers'
//! contracts tie the runtime calls to them.

use vstd::prelude::*;

verus! {

/// Why a field extraction failed: the text was not a JSON document (carrying
/// the parser's own message), or it was one whose top-level object does not
/// hold the expected value under the key.
#[derive(Debug)]
pub enum JsonFieldFailure {
    Document(String),
    Shape,
}

/// The string the top-level object of the JSON document `body` holds under
/// `key`; `None` when `body` is not a JSON document whose top-level object
/// holds a string there.
pub uninterp spec fn json_string_field(body: Seq<char>, key: Seq<char>) -> Option<Seq<char>>;

/// The object of string values the top-level object of the JSON document
/// `body` holds under `key`, as a map; `None` when `body` is not a JSON
/// document whose top-level object holds an all-string object there.
pub uninterp spec fn json_string_map_field(body: Seq<char>, key: Seq<char>) -> Option<
    Map<Seq<char>, Seq<char>>,
>;

/// Relies on `serde_json::from_str`, `serde_json::Value::get` and
/// `serde_json::Value::as_str`: parses `body`, looks `key` up in the
/// top-level object and returns the string found there. Each step is a pure
/// function of `body` and `key`.
#[verifier::external_body]
pub(crate) fn parse_string_field(body: &str, key: &str) -> (r: Result<String, JsonFieldFailure>)
    ensures
        match r {
            Ok(s) => json_string_field(body@, key@) == Some(s@),
            Err(_) => json_string_field(body@, key@) is None,
        },
{
    let value: serde_json::Value = match serde_json::from_str(body) {
        Ok(v) => v,
        Err(e) => return Err(JsonFieldFailure::Document(e.to_string())),
    };
    match value.get(key) {
        Some(serde_json::Value::String(s)) => Ok(s.clone()),
        _ => Err(JsonFieldFailure::Shape),
    }
}

/// Relies on `serde_json::from_str`, `serde_json::Value::get` and the entry
/// iterator of `serde_json::Map`: parses `body`, looks `key` up in the
/// top-level object and returns that object's entries, every value a string.
/// The entries of a parsed `serde_json::Map` have unique keys, so the list
/// describes the named map exactly.
#[verifier::external_body]
pub(crate) fn parse_string_map_field(body: &str, key: &str) -> (r: Result<
    Vec<(String, String)>,
    JsonFieldFailure,
>)
    ensures
        match r {
            Ok(entries) => json_string_map_field(body@, key@) == Some(
                crate::string_map::assoc_map(entries.deep_view()),
            ),
            Err(_) => json_string_map_field(body@, key@) is None,
        },
{
    let value: serde_json::Value = serde_json::from_str(body).map_err(|e| {
        JsonFieldFailure::Document(e.to_string())
    })?;
    let object = match value.get(key) {
        Some(serde_json::Value::Object(m)) => m,
        _ => return Err(JsonFieldFailure::Shape),
    };
    let mut entries: Vec<(String, String)> = Vec::new();
    for (k, v) in object {
        match v {
            serde_json::Value::String(s) => entries.push((k.clone(), s.clone())),
            _ => return Err(JsonFieldFailure::Shape),
        }
    }
    Ok(entries)
}

} // verus!
