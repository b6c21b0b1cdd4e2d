//! The JSON payloads that errors carry, read and built through `serde_json`.

use vstd::prelude::*;

verus! {

/// `serde_json::Value`: a JSON document, opaque to the verifier.
#[verifier::external_type_specification]
#[verifier::external_body]
pub struct ExJsonValue(serde_json::Value);

/// The member that `serde_json::Value::get` finds in `value` under the string
/// index `key`: the entry of that name when `value` is a JSON object that has
/// one, and nothing otherwise.
pub uninterp spec fn json_member(value: serde_json::Value, key: Seq<char>) -> Option<
    serde_json::Value,
>;

/// The text that `serde_json::Value::as_str` reads from `value`: its contents
/// when `value` is a JSON string, and nothing otherwise.
pub uninterp spec fn json_text(value: serde_json::Value) -> Option<Seq<char>>;

/// Trusted: calls the `FromIterator<(K, V)>` impl of `serde_json::Value` on one
/// pair. It collects the pairs into a JSON object, each value converted with
/// `Into<Value>`, which for `&str` gives a JSON string; so the object holds
/// `text` as a string under `key`.
#[verifier::external_body]
pub(crate) fn object_with(key: &str, text: &str) -> (value: serde_json::Value)
    ensures
        text_at(value, key@) == Some(text@),
{
    serde_json::Value::from_iter([(key, text)])
}

/// Trusted: calls `serde_json::Value::get` with a string index. The result is
/// the named member of a JSON object, `None` for a missing member or a value
/// that is no object.
#[verifier::external_body]
pub(crate) fn member<'a>(value: &'a serde_json::Value, key: &str) -> (found: Option<
    &'a serde_json::Value,
>)
    ensures
        found matches Some(m) ==> json_member(*value, key@) == Some(*m),
        found is None ==> json_member(*value, key@) is None,
{
    value.get(key)
}

/// Trusted: calls `serde_json::Value::as_str`. The result is the contents of a
/// JSON string, `None` for any other kind of value.
#[verifier::external_body]
pub(crate) fn text_of<'a>(value: &'a serde_json::Value) -> (text: Option<&'a str>)
    ensures
        text matches Some(s) ==> json_text(*value) == Some(s@),
        text is None ==> json_text(*value) is None,
{
    value.as_str()
}

/// `serde_json::Error`: why a text is no JSON document, opaque to the verifier.
#[verifier::external_type_specification]
#[verifier::external_body]
pub struct ExJsonError(serde_json::Error);

/// What `serde_json::from_str` makes of `text` when a `serde_json::Value` is
/// asked for: the document that the text denotes, or the reason why it
/// denotes none.
pub uninterp spec fn json_parsed(text: Seq<char>) -> Result<serde_json::Value, serde_json::Error>;

/// Trusted: calls `serde_json::from_str` for a `serde_json::Value`. The parser
/// reads nothing but `text`, so its result is given the name `json_parsed`.
#[verifier::external_body]
pub(crate) fn parse(text: &str) -> (document: Result<serde_json::Value, serde_json::Error>)
    ensures
        document == json_parsed(text@),
{
    serde_json::from_str::<serde_json::Value>(text)
}

/// The line that the `Display` of a `serde_json::Error` writes: the kind of
/// the fault and, where known, the line and column at which it was met.
pub uninterp spec fn json_error_line(error: serde_json::Error) -> Seq<char>;

/// Trusted: calls `to_string` on a `serde_json::Error`; the line it writes is
/// given the name `json_error_line`.
#[verifier::external_body]
pub(crate) fn error_line(error: &serde_json::Error) -> (line: String)
    ensures
        line@ == json_error_line(*error),
{
    error.to_string()
}

/// The text found under `key` in `value`, if `value` is an object with a
/// string of that name.
pub open spec fn text_at(value: serde_json::Value, key: Seq<char>) -> Option<Seq<char>> {
    match json_member(value, key) {
        Some(m) => json_text(m),
        None => None,
    }
}

} // verus!
