//! The JSON value type shared with the remote service, and the few reads of
//! it that the engine needs.
use vstd::prelude::*;

verus! {

/// A decoded JSON document. The engine carries it without looking inside.
#[verifier::external_type_specification]
#[verifier::external_body]
pub struct ExValue(serde_json::Value);

/// Relies on the derived `Clone` of `serde_json::Value`: a copy equal to its source.
pub assume_specification[ <serde_json::Value as Clone>::clone ](v: &serde_json::Value) -> (r: serde_json::Value)
    ensures
        r == *v,
;

/// The member stored under a key, when the value is an object that has it.
pub uninterp spec fn json_member(v: serde_json::Value, key: Seq<char>) -> Option<serde_json::Value>;

/// The text of a value, when it is a JSON string.
pub uninterp spec fn json_text(v: serde_json::Value) -> Option<Seq<char>>;

/// The document that a text encodes, when it is JSON.
pub uninterp spec fn json_parsed(text: Seq<char>) -> Option<serde_json::Value>;

/// Relies on `serde_json::Value::get`: a copy of the member stored under
/// `key`, when the value is an object that has that key.
#[verifier::external_body]
pub(crate) fn member(v: &serde_json::Value, key: &str) -> (r: Option<serde_json::Value>)
    ensures
        r == json_member(*v, key@),
{
    v.get(key).cloned()
}

/// Relies on `serde_json::Value::as_str`: the text of a JSON string.
#[verifier::external_body]
pub(crate) fn text_of(v: &serde_json::Value) -> (r: Option<String>)
    ensures
        r matches Some(t) ==> json_text(*v) == Some(t@),
        r is None ==> json_text(*v) is None,
{
    v.as_str().map(|s| s.to_string())
}

/// Relies on `serde_json::from_str`: the document that a text encodes, if any.
#[verifier::external_body]
pub(crate) fn parse_json(text: &str) -> (r: Option<serde_json::Value>)
    ensures
        r == json_parsed(text@),
{
    serde_json::from_str(text).ok()
}

/// Relies on `serde_json::Map::new` and `Value::get`: an object with no
/// members, so no key is found in it.
#[verifier::external_body]
pub(crate) fn empty_object() -> (r: serde_json::Value)
    ensures
        forall|key: Seq<char>| (#[trigger] json_member(r, key)) is None,
{
    serde_json::Value::Object(serde_json::Map::new())
}

/// What `string_member` reads: `None` when the key is absent, the text of a
/// string member, and an empty text for a member of any other kind.
pub open spec fn string_member_spec(v: serde_json::Value, key: Seq<char>) -> Option<Seq<char>> {
    match json_member(v, key) {
        None => None,
        Some(m) => match json_text(m) {
            Some(t) => Some(t),
            None => Some(Seq::empty()),
        },
    }
}

/// The texts of an optional string.
pub open spec fn text_view(o: Option<String>) -> Option<Seq<char>> {
    match o {
        Some(s) => Some(s@),
        None => None,
    }
}

/// A member that must hold a string: `None` when the key is absent, an empty
/// string when it holds something else.
pub fn string_member(v: &serde_json::Value, key: &str) -> (r: Option<String>)
    ensures
        text_view(r) == string_member_spec(*v, key@),
{
    match member(v, key) {
        None => None,
        Some(m) => match text_of(&m) {
            Some(s) => Some(s),
            None => Some(String::new()),
        },
    }
}

/// Decodes a reply body; a body that is not JSON reads as an empty object.
pub fn decode_body(text: &str) -> (r: serde_json::Value)
    ensures
        json_parsed(text@) matches Some(v) ==> r == v,
        json_parsed(text@) is None ==> forall|key: Seq<char>| (#[trigger] json_member(r, key)) is None,
{
    match parse_json(text) {
        Some(v) => v,
        None => empty_object(),
    }
}

} // verus!
