//! The boundary to `serde_json`.
//!
//! JSON is read and written by `serde_json`; nothing in this library parses
//! or escapes it. This module declares the one type of `serde_json` that the
//! library handles, names what its functions return, and wraps the few calls
//! the library makes. The contracts here are taken on trust from
//! `serde_json`'s source and documentation; all other modules are proved
//! against them.

use vstd::prelude::*;

verus! {

/// `serde_json::Value`: a parsed JSON document. Opaque here; [`json_of`] says
/// what it holds.
#[verifier::external_type_specification]
#[verifier::external_body]
pub struct ExJsonValue(serde_json::Value);

/// A JSON document as a mathematical value, variant for variant what
/// `serde_json::Value` distinguishes. A number's numeral is not modelled.
pub enum Json {
    Null,
    Bool(bool),
    Number,
    Text(Seq<char>),
    Array(Seq<Json>),
    Object(Map<Seq<char>, Json>),
}

/// The document that a `serde_json::Value` holds.
pub uninterp spec fn json_of(value: serde_json::Value) -> Json;

/// What `serde_json::from_str` makes of a text: the document it reads from
/// it, or `None` where it reports an error. Where an object names a member
/// twice, `serde_json` keeps the last.
pub uninterp spec fn json_parsed(text: Seq<char>) -> Option<Json>;

/// What `serde_json::to_string` makes of a string: the JSON string literal
/// for it, quotes and escapes included.
pub uninterp spec fn json_quoted(text: Seq<char>) -> Seq<char>;

/// `serde_json::from_str::<Value>`: parses a whole text as one JSON document.
/// `None` stands for any error it reports. Trusted: the result is the one
/// [`json_parsed`] names, and the value handed back holds that document.
#[verifier::external_body]
pub(crate) fn parse(text: &str) -> (r: Option<serde_json::Value>)
    ensures
        match r {
            Some(value) => json_parsed(text@) == Some(json_of(value)),
            None => json_parsed(text@) is None,
        },
{
    serde_json::from_str::<serde_json::Value>(text).ok()
}

/// `Value::is_object`. Trusted: true exactly for an object.
#[verifier::external_body]
pub(crate) fn holds_object(value: &serde_json::Value) -> (r: bool)
    ensures
        r == (json_of(*value) is Object),
{
    value.is_object()
}

/// `Value::get` with a string index. Trusted: the member of that name where
/// the value is an object that has one, `None` for an object without it and
/// for anything that is not an object.
#[verifier::external_body]
pub(crate) fn member<'a>(
    value: &'a serde_json::Value,
    key: &str,
) -> (r: Option<&'a serde_json::Value>)
    ensures
        match json_of(*value) {
            Json::Object(members) => if members.contains_key(key@) {
                r matches Some(found) && json_of(*found) == members[key@]
            } else {
                r is None
            },
            _ => r is None,
        },
{
    value.get(key)
}

/// `Value::is_null`. Trusted: true exactly for `null`.
#[verifier::external_body]
pub(crate) fn holds_null(value: &serde_json::Value) -> (r: bool)
    ensures
        r == (json_of(*value) is Null),
{
    value.is_null()
}

/// `Value::as_str`. Trusted: the text of a string, `None` for anything else.
#[verifier::external_body]
pub(crate) fn text_of<'a>(value: &'a serde_json::Value) -> (r: Option<&'a str>)
    ensures
        match json_of(*value) {
            Json::Text(text) => r matches Some(found) && found@ == text,
            _ => r is None,
        },
{
    value.as_str()
}

/// `serde_json::to_string` on a string. `None` stands for any error it
/// reports. Trusted: it reports none, as it writes a string into a byte
/// vector, which takes whatever is written; and the result is the one
/// [`json_quoted`] names.
#[verifier::external_body]
pub(crate) fn quote(text: &str) -> (r: Option<String>)
    ensures
        match r {
            Some(quoted) => quoted@ == json_quoted(text@),
            None => false,
        },
{
    serde_json::to_string(text).ok()
}

} // verus!
