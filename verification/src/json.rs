//! Reading single members out of JSON documents.

use vstd::prelude::*;

verus! {

/// The string member `key` of the JSON document `doc`: `None` where `doc` is
/// not a JSON document, `Some(None)` where it is one without a string under
/// `key`, `Some(Some(s))` where it is an object whose member `key` is the
/// string `s`.
pub uninterp spec fn json_string_member(doc: Seq<u8>, key: Seq<char>) -> Option<Option<Seq<char>>>;

/// The integer member `key` of the JSON document `doc`: `None` where `doc` is
/// not a JSON document, `Some(None)` where it is one without an integer that
/// fits `i64` under `key`, `Some(Some(n))` where it is an object whose member
/// `key` is the integer `n`.
pub uninterp spec fn json_integer_member(doc: Seq<u8>, key: Seq<char>) -> Option<Option<i64>>;

/// The views of what a string lookup returned.
pub open spec fn member_text(found: Option<Option<String>>) -> Option<Option<Seq<char>>> {
    match found {
        None => None,
        Some(None) => Some(None),
        Some(Some(s)) => Some(Some(s@)),
    }
}

/// Parses `doc` with `serde_json::from_slice` into a `serde_json::Value` and
/// looks `key` up with `Value::get` and `Value::as_str`. The contract only
/// names the outcome: it is the same for the same bytes and key.
#[verifier::external_body]
pub(crate) fn string_member(doc: &[u8], key: &str) -> (found: Option<Option<String>>)
    ensures
        member_text(found) == json_string_member(doc@, key@),
{
    match serde_json::from_slice::<serde_json::Value>(doc) {
        Ok(value) => Some(
            match value.get(key) {
                Some(member) => member.as_str().map(String::from),
                None => None,
            },
        ),
        Err(_) => None,
    }
}

/// Parses `doc` with `serde_json::from_slice` into a `serde_json::Value` and
/// looks `key` up with `Value::get` and `Value::as_i64`. The contract only
/// names the outcome: it is the same for the same bytes and key.
#[verifier::external_body]
pub(crate) fn integer_member(doc: &[u8], key: &str) -> (found: Option<Option<i64>>)
    ensures
        found == json_integer_member(doc@, key@),
{
    match serde_json::from_slice::<serde_json::Value>(doc) {
        Ok(value) => Some(
            match value.get(key) {
                Some(member) => member.as_i64(),
                None => None,
            },
        ),
        Err(_) => None,
    }
}

} // verus!
