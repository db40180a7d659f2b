//! What the flow reads out of JSON documents: whether bytes parse as JSON,
//! and string values one or two keys deep. Each is a function of the
//! document and keys alone, named by an uninterpreted spec function.

use vstd::prelude::*;

verus! {

/// Whether a byte sequence parses as a JSON document; a function of the
/// bytes alone.
pub uninterp spec fn json_parse_ok(doc: Seq<u8>) -> bool;

/// Relies on serde_json::from_slice::<Value>: whether the bytes parse as
/// JSON depends on the bytes alone.
#[verifier::external_body]
pub(crate) fn json_parse_check(doc: &[u8]) -> (r: bool)
    ensures
        r == json_parse_ok(doc@),
{
    serde_json::from_slice::<serde_json::Value>(doc).is_ok()
}

/// The string value at a top-level key of a JSON document; `None` where the
/// document does not parse, is not an object, lacks the key, or holds a
/// non-string there. A function of the document and key alone.
pub uninterp spec fn json_top_str(doc: Seq<char>, key: Seq<char>) -> Option<Seq<char>>;

/// Relies on serde_json::from_str::<Value>, Value::get and Value::as_str:
/// what they find at a top-level key depends on the document and the key
/// alone.
#[verifier::external_body]
pub(crate) fn json_top_str_exec(doc: &str, key: &str) -> (r: Option<String>)
    ensures
        r is Some <==> json_top_str(doc@, key@) is Some,
        r matches Some(s) ==> json_top_str(doc@, key@) matches Some(t) && s@ == t,
{
    let v: serde_json::Value = match serde_json::from_str(doc) {
        Ok(v) => v,
        Err(_) => return None,
    };
    match v.get(key).and_then(|x| x.as_str()) {
        Some(s) => Some(s.to_string()),
        None => None,
    }
}

/// The string value two keys deep in a JSON document, the empty sequence
/// where anything along the path is missing or of the wrong shape. A
/// function of the document and keys alone.
pub uninterp spec fn json_nested_str(doc: Seq<u8>, outer: Seq<char>, inner: Seq<char>) -> Seq<char>;

/// Relies on serde_json::from_slice::<Value>, Value::get and Value::as_str:
/// what they find two keys deep depends on the document and the keys alone.
#[verifier::external_body]
pub(crate) fn json_nested_str_exec(doc: &[u8], outer: &str, inner: &str) -> (r: String)
    ensures
        r@ == json_nested_str(doc@, outer@, inner@),
{
    let v: serde_json::Value = match serde_json::from_slice(doc) {
        Ok(v) => v,
        Err(_) => return String::new(),
    };
    match v.get(outer).and_then(|x| x.get(inner)).and_then(|x| x.as_str()) {
        Some(s) => s.to_string(),
        None => String::new(),
    }
}

} // verus!
