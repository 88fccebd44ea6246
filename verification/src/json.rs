//! The two calls into `serde_json` that reading Flathub's reply needs.
use vstd::prelude::*;

verus! {

/// `serde_json::Value`, held opaquely between the calls below.
#[verifier::external_type_specification]
#[verifier::external_body]
pub struct ExJsonValue(serde_json::Value);

/// What a JSON value holds at its top level as text: for an object, each
/// member whose value is a JSON string, by member name; for any other value,
/// nothing.
pub uninterp spec fn json_string_members(v: serde_json::Value) -> Map<Seq<char>, Seq<char>>;

/// What `serde_json::from_slice` makes of `bytes` when asked for a
/// `serde_json::Value`, seen through `json_string_members`: `None` when the
/// bytes are not one JSON document.
pub uninterp spec fn json_document_string_members(bytes: Seq<u8>) -> Option<
    Map<Seq<char>, Seq<char>>,
>;

/// Calls `serde_json::from_slice::<serde_json::Value>`. Claimed: it succeeds
/// exactly when `json_document_string_members` is `Some`, and the value it
/// gives holds those members. What the parser accepts is left to the name.
#[verifier::external_body]
pub(crate) fn parse_json_document(bytes: &[u8]) -> (r: Option<serde_json::Value>)
    ensures
        r is Some <==> json_document_string_members(bytes@) is Some,
        r matches Some(v) ==> json_string_members(v) == json_document_string_members(
            bytes@,
        ).unwrap(),
{
    serde_json::from_slice::<serde_json::Value>(bytes).ok()
}

/// Calls `serde_json::Value::get` with a member name and keeps the member only
/// when it is a JSON string (what `value[key].as_str()` gives). Claimed: the
/// result is the member that `json_string_members` holds under `key`.
#[verifier::external_body]
pub(crate) fn json_string_member(v: &serde_json::Value, key: &str) -> (r: Option<String>)
    ensures
        r is Some <==> json_string_members(*v).dom().contains(key@),
        r matches Some(s) ==> s@ == json_string_members(*v)[key@],
{
    match v.get(key) {
        Some(serde_json::Value::String(s)) => Some(s.to_string()),
        _ => None,
    }
}

} // verus!
