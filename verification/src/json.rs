//! JSON documents, parsed by `serde_json`.
//!
//! A parsed document is opaque to the verifier. What the library reads of
//! one is modelled by `Json`: a string, an object of members by key, or
//! anything else. Three calls reach into a document (parsing a text, taking
//! the member of a key, taking the text of a string) and each is stated over
//! that model; what the library makes of them is verified.

use vstd::prelude::*;

verus! {

/// A parsed JSON document.
#[verifier::external_type_specification]
#[verifier::external_body]
pub struct ExJsonValue(serde_json::Value);

/// A JSON value, as far as the library tells values apart.
pub enum Json {
    /// A string.
    Text(Seq<char>),
    /// An object: its members by key.
    Object(Map<Seq<char>, Json>),
    /// Null, a boolean, a number or an array.
    Other,
}

impl Json {
    /// The member under a key; none where the value is no object or has no
    /// such member.
    pub open spec fn member(self, key: Seq<char>) -> Option<Json> {
        match self {
            Json::Object(members) => if members.contains_key(key) {
                Some(members[key])
            } else {
                None
            },
            _ => None,
        }
    }

    /// The text of a string; none for any other value.
    pub open spec fn text(self) -> Option<Seq<char>> {
        match self {
            Json::Text(text) => Some(text),
            _ => None,
        }
    }

    /// The string under a key, where the member is there and is a string.
    pub open spec fn string_at(self, key: Seq<char>) -> Option<Seq<char>> {
        match self.member(key) {
            Some(member) => member.text(),
            None => None,
        }
    }

    /// The string under a key, or the empty string.
    pub open spec fn string_or_empty(self, key: Seq<char>) -> Seq<char> {
        match self.string_at(key) {
            Some(text) => text,
            None => Seq::empty(),
        }
    }

    /// Whether the member under `outer` has a member under `key`, of
    /// whatever kind.
    pub open spec fn has_nested(self, outer: Seq<char>, key: Seq<char>) -> bool {
        match self.member(outer) {
            Some(inner) => inner.member(key) is Some,
            None => false,
        }
    }

    /// The string under `key` in the member under `outer`.
    pub open spec fn nested_string(self, outer: Seq<char>, key: Seq<char>) -> Option<Seq<char>> {
        match self.member(outer) {
            Some(inner) => inner.string_at(key),
            None => None,
        }
    }
}

/// What `serde_json::from_str` makes of a text: the document that the text
/// writes, `None` for a text that is no JSON document.
pub uninterp spec fn json_document(text: Seq<char>) -> Option<Json>;

/// What a parsed value holds.
pub uninterp spec fn document(value: serde_json::Value) -> Json;

/// Whether a text is a JSON document.
pub open spec fn is_json(text: Seq<char>) -> bool {
    json_document(text) is Some
}

/// `serde_json::from_str` parses a text as one JSON value and fails on any
/// text that is not exactly one JSON document. Whether it succeeds, and the
/// value it returns, depend on the text alone.
#[verifier::external_body]
pub(crate) fn parse_json(text: &str) -> (r: Option<serde_json::Value>)
    ensures
        match json_document(text@) {
            Some(written) => r matches Some(value) && document(value) == written,
            None => r is None,
        },
{
    serde_json::from_str::<serde_json::Value>(text).ok()
}

/// `Value::get` with a string key returns the member of that key where the
/// value is an object that has it, and nothing for every other value and
/// key.
#[verifier::external_body]
pub(crate) fn member<'a>(value: &'a serde_json::Value, key: &str) -> (r: Option<
    &'a serde_json::Value,
>)
    ensures
        match document(*value).member(key@) {
            Some(held) => r matches Some(found) && document(*found) == held,
            None => r is None,
        },
{
    value.get(key)
}

/// `Value::as_str` returns the text of a value that is a string, and
/// nothing for every other value.
#[verifier::external_body]
pub(crate) fn as_text<'a>(value: &'a serde_json::Value) -> (r: Option<&'a str>)
    ensures
        match document(*value).text() {
            Some(held) => r matches Some(found) && found@ == held,
            None => r is None,
        },
{
    value.as_str()
}

/// The string under `key`, where the member is there and is a string.
pub(crate) fn string_member(value: &serde_json::Value, key: &str) -> (r: Option<String>)
    ensures
        crate::text::opt_text(r) == document(*value).string_at(key@),
{
    match member(value, key) {
        Some(found) => match as_text(found) {
            Some(text) => Some(text.to_owned()),
            None => None,
        },
        None => None,
    }
}

/// The string under `key`, or the empty string where there is none.
pub(crate) fn member_text(value: &serde_json::Value, key: &str) -> (text: String)
    ensures
        text@ == document(*value).string_or_empty(key@),
{
    match string_member(value, key) {
        Some(text) => text,
        None => String::new(),
    }
}

/// Whether the member under `outer` has a member under `key`.
pub(crate) fn has_nested_key(value: &serde_json::Value, outer: &str, key: &str) -> (r: bool)
    ensures
        r == document(*value).has_nested(outer@, key@),
{
    match member(value, outer) {
        Some(inner) => member(inner, key).is_some(),
        None => false,
    }
}

/// The string under `key` in the member under `outer`.
pub(crate) fn nested_string(value: &serde_json::Value, outer: &str, key: &str) -> (r: Option<
    String,
>)
    ensures
        crate::text::opt_text(r) == document(*value).nested_string(outer@, key@),
{
    match member(value, outer) {
        Some(inner) => string_member(inner, key),
        None => None,
    }
}

} // verus!
