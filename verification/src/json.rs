//! What the catalog has from its JSON library: the strings inside a
//! document and the text of a string literal.

use vstd::prelude::*;

verus! {

/// A parsed JSON value of `serde_json`.
#[verifier::external_type_specification]
#[verifier::external_body]
pub struct ExJsonValue(serde_json::Value);

/// The error of a failed parse in `serde_json`.
#[verifier::external_type_specification]
#[verifier::external_body]
pub struct ExJsonError(serde_json::Error);

/// The strings inside a JSON value: for every path that leads from the
/// value to a JSON string, that string. A path is the object keys to follow,
/// outermost first; the empty path leads to the value itself.
pub uninterp spec fn json_texts(value: serde_json::Value) -> Map<Seq<Seq<char>>, Seq<char>>;

/// The strings inside the JSON document that `text` is, or `None` where
/// `text` is not one JSON document.
pub uninterp spec fn json_parsed(text: Seq<char>) -> Option<Map<Seq<Seq<char>>, Seq<char>>>;

/// The JSON string literal for `text`: quoted, and escaped where JSON asks
/// for it.
pub uninterp spec fn json_quoted(text: Seq<char>) -> Seq<char>;

/// The string that `path` leads to in `texts`.
pub open spec fn text_at(texts: Map<Seq<Seq<char>>, Seq<char>>, path: Seq<Seq<char>>) -> Option<Seq<char>> {
    if texts.contains_key(path) {
        Some(texts[path])
    } else {
        None
    }
}

/// Parses `text` with `serde_json::from_str` as one JSON value.
///
/// Trusted: the call succeeds exactly on the texts that are one JSON
/// document, and the value it returns holds the strings of that document.
#[verifier::external_body]
pub(crate) fn parse_json(text: &str) -> (res: Result<serde_json::Value, serde_json::Error>)
    ensures
        match res {
            Ok(value) => json_parsed(text@) == Some(json_texts(value)),
            Err(_) => json_parsed(text@) is None,
        },
{
    serde_json::from_str::<serde_json::Value>(text)
}

/// Looks `key` up with `serde_json::Value::get`.
///
/// Trusted: a member is found exactly where `value` is an object with that
/// key, so the paths of the member are the paths of `value` that begin with
/// `key`, and lead to the same strings.
#[verifier::external_body]
pub(crate) fn json_member<'a>(value: &'a serde_json::Value, key: &str) -> (res: Option<&'a serde_json::Value>)
    ensures
        match res {
            Some(member) => forall|path: Seq<Seq<char>>| #[trigger]
                text_at(json_texts(*member), path) == text_at(json_texts(*value), seq![key@] + path),
            None => forall|path: Seq<Seq<char>>| #[trigger]
                text_at(json_texts(*value), seq![key@] + path) is None,
        },
{
    value.get(key)
}

/// Reads `value` as a string with `serde_json::Value::as_str`.
///
/// Trusted: the call gives the string exactly where `value` is a JSON
/// string, which is what the empty path leads to.
#[verifier::external_body]
pub(crate) fn json_text(value: &serde_json::Value) -> (res: Option<String>)
    ensures
        match res {
            Some(text) => text_at(json_texts(*value), Seq::empty()) == Some(text@),
            None => text_at(json_texts(*value), Seq::empty()) is None,
        },
{
    value.as_str().map(str::to_owned)
}

/// Writes `text` as a JSON string literal with `serde_json::to_string`.
///
/// Trusted: the result is the literal. The call fails only where a value
/// refuses to be written or holds a map with keys that are no strings; a
/// string does neither, so no failure is passed on.
#[verifier::external_body]
pub(crate) fn quote_json(text: &str) -> (res: String)
    ensures
        res@ == json_quoted(text@),
{
    match serde_json::to_string(text) {
        Ok(quoted) => quoted,
        Err(_) => String::new(),
    }
}

} // verus!
