//! The structured-output operations for the host build tool's replies.
//!
//! The host build tool's project-locate facility answers with a structured
//! JSON document; it is held as a `serde_json::Value`, opaque here. What is
//! read of it is named by `top_strs(v)`: the string-valued members of the
//! document's top-level object, as a map from member name to string; empty
//! when the document is not an object.

use vstd::prelude::*;

verus! {

#[verifier::external_type_specification]
#[verifier::external_body]
pub struct ExValue(serde_json::Value);

#[verifier::external_type_specification]
#[verifier::external_body]
pub struct ExJsonError(serde_json::Error);

pub uninterp spec fn top_strs(v: serde_json::Value) -> Map<Seq<char>, Seq<char>>;

/// Whether the bytes parse as one structured document; parsing is
/// deterministic, so this is a function of the bytes alone.
pub uninterp spec fn json_parses(bytes: Seq<u8>) -> bool;

/// The string-valued top-level members of the document the bytes parse to,
/// as a function of the bytes alone.
pub uninterp spec fn json_top_strs(bytes: Seq<u8>) -> Map<Seq<char>, Seq<char>>;

/// Relies on `serde_json::from_slice`: parses the bytes into a structured
/// document. Parsing is deterministic, so the outcome and the document's
/// string-valued top-level members are functions of the bytes, named
/// above.
#[verifier::external_body]
pub(crate) fn parse_json(bytes: &[u8]) -> (r: Result<serde_json::Value, serde_json::Error>)
    ensures
        r is Ok <==> json_parses(bytes@),
        r matches Ok(v) ==> top_strs(v) == json_top_strs(bytes@),
{
    serde_json::from_slice::<serde_json::Value>(bytes)
}

/// Relies on `serde_json::Value::get` and `serde_json::Value::as_str`:
/// reads the string bound to `key` in the document's top-level object, if
/// there is one.
#[verifier::external_body]
pub(crate) fn json_str_field(v: &serde_json::Value, key: &str) -> (r: Option<String>)
    ensures
        r is Some <==> top_strs(*v).contains_key(key@),
        r is Some ==> r.unwrap()@ == top_strs(*v)[key@],
{
    v.get(key).and_then(serde_json::Value::as_str).map(|s| s.to_owned())
}

} // verus!
