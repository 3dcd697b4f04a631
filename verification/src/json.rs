//! JSON as the `serde_json` crate reads and writes it. A parsed value is
//! carried through as it is; what it holds is spoken of through its compact
//! text, and what the crate finds in it is named here.

use vstd::prelude::*;

verus! {

/// A parsed JSON value of `serde_json`. Nothing of its inside is known here
/// but through [`json_repr`].
#[verifier::external_type_specification]
#[verifier::external_body]
pub struct ExJsonValue(serde_json::Value);

/// The error of `serde_json`. It is only ever told apart from success.
#[verifier::external_type_specification]
#[verifier::external_body]
pub struct ExJsonError(serde_json::Error);

/// What a parsed value holds, as the compact JSON text that writes it.
pub uninterp spec fn json_repr(value: serde_json::Value) -> Seq<char>;

/// The value that `text` parses to, as compact JSON text; `None` where
/// `text` is not one JSON value.
pub uninterp spec fn json_parsed(text: Seq<char>) -> Option<Seq<char>>;

/// The member `key` of the value written by `repr`, as compact JSON text;
/// `None` where that value is no object or has no such member.
pub uninterp spec fn json_member(repr: Seq<char>, key: Seq<char>) -> Option<Seq<char>>;

/// The text of the value written by `repr`, where it is a JSON string.
pub uninterp spec fn json_text(repr: Seq<char>) -> Option<Seq<char>>;

/// `text` as a JSON string literal, quotes and escapes included.
pub uninterp spec fn json_quoted(text: Seq<char>) -> Seq<char>;

/// `serde_json::from_str` at the type `Value`: parses `text` as one JSON
/// value, and fails where it is none.
#[verifier::external_body]
pub(crate) fn parse_json(text: &str) -> (doc: Result<serde_json::Value, serde_json::Error>)
    ensures
        doc is Ok <==> json_parsed(text@) is Some,
        doc is Ok ==> Some(json_repr(doc->Ok_0)) == json_parsed(text@),
{
    serde_json::from_str::<serde_json::Value>(text)
}

/// `Value::get` with a string index: the member of that name, where the
/// value is an object that has it.
#[verifier::external_body]
pub(crate) fn get_member<'a>(value: &'a serde_json::Value, key: &str) -> (member: Option<
    &'a serde_json::Value,
>)
    ensures
        member is Some <==> json_member(json_repr(*value), key@) is Some,
        member is Some ==> Some(json_repr(*member->0)) == json_member(json_repr(*value), key@),
{
    value.get(key)
}

/// `Value::as_str`: the text of the value, where it is a JSON string.
#[verifier::external_body]
pub(crate) fn get_text<'a>(value: &'a serde_json::Value) -> (text: Option<&'a str>)
    ensures
        text is Some <==> json_text(json_repr(*value)) is Some,
        text is Some ==> Some(text->0@) == json_text(json_repr(*value)),
{
    value.as_str()
}

/// `serde_json::to_string` on a string slice: the slice as a JSON string
/// literal. It writes into a vector in memory, and a string slice has
/// nothing that cannot be written, so it succeeds.
#[verifier::external_body]
pub(crate) fn quote_json(text: &str) -> (quoted: Result<String, serde_json::Error>)
    ensures
        quoted is Ok,
        quoted->Ok_0@ == json_quoted(text@),
{
    serde_json::to_string(text)
}

} // verus!
