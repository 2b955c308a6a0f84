//! Reading string fields of JSON text, as tool-call arguments carry it.

use vstd::prelude::*;

verus! {

/// The string stored under `key` in the JSON object that `text` encodes:
/// `None` when `text` is not JSON, is not an object, lacks `key`, or holds
/// something other than a string there.
pub uninterp spec fn json_string_field(text: Seq<char>, key: Seq<char>) -> Option<Seq<char>>;

/// A string held in an `Option<String>`, as characters.
pub open spec fn opt_chars(o: Option<String>) -> Option<Seq<char>> {
    match o {
        Some(s) => Some(s@),
        None => None,
    }
}

/// Parses `text` with `serde_json::from_str::<serde_json::Value>` and reads the
/// string under `key` with `Value::get` and `Value::as_str`. The contract
/// claims only that the outcome is the value of `json_string_field` on the
/// two arguments, that is, that it depends on them alone.
#[verifier::external_body]
pub(crate) fn string_field(text: &str, key: &str) -> (r: Option<String>)
    ensures
        opt_chars(r) == json_string_field(text@, key@),
{
    serde_json::from_str::<serde_json::Value>(text)
        .ok()
        .and_then(|v| v.get(key).and_then(|f| f.as_str()).map(|s| s.to_string()))
}

} // verus!
