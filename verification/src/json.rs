//! The few JSON operations the client needs, carried out by `serde_json`.

use vstd::prelude::*;
use crate::cli::opt_str;

verus! {

#[verifier::external_type_specification]
#[verifier::external_body]
pub struct ExJsonValue(serde_json::Value);

/// What `serde_json::from_str::<Value>` makes of a text, `None` when the text
/// is not JSON.
pub uninterp spec fn json_parse(text: Seq<char>) -> Option<serde_json::Value>;

/// What `Value::get` finds under `key`: the member of an object, `None` for a
/// missing key or a value that is not an object.
pub uninterp spec fn json_member(v: serde_json::Value, key: Seq<char>) -> Option<
    serde_json::Value,
>;

/// What `Value::as_str` gives: the text of a JSON string, `None` for any
/// other value.
pub uninterp spec fn json_string(v: serde_json::Value) -> Option<Seq<char>>;

/// The lowercase hexadecimal digit for `n`, for `n` from 0 to 15.
pub open spec fn hex_digit(n: int) -> char {
    seq!['0', '1', '2', '3', '4', '5', '6', '7', '8', '9', 'a', 'b', 'c', 'd', 'e', 'f'][n]
}

/// How one character stands inside a JSON string literal: quote and
/// backslash behind a backslash, the five control characters with a short
/// escape by their letter, every other control character below U+0020 as
/// `\u00` and two lowercase hex digits, and anything else as itself.
pub open spec fn json_escape_char(c: char) -> Seq<char> {
    if c == '"' {
        seq!['\\', '"']
    } else if c == '\\' {
        seq!['\\', '\\']
    } else if c == '\u{8}' {
        seq!['\\', 'b']
    } else if c == '\t' {
        seq!['\\', 't']
    } else if c == '\n' {
        seq!['\\', 'n']
    } else if c == '\u{c}' {
        seq!['\\', 'f']
    } else if c == '\r' {
        seq!['\\', 'r']
    } else if (c as u32) < 0x20 {
        seq!['\\', 'u', '0', '0', hex_digit((c as int) / 16), hex_digit((c as int) % 16)]
    } else {
        seq![c]
    }
}

/// The characters of `s`, each escaped for a JSON string literal.
pub open spec fn json_escape(s: Seq<char>) -> Seq<char>
    decreases s.len(),
{
    if s.len() == 0 {
        seq![]
    } else {
        json_escape(s.drop_last()) + json_escape_char(s.last())
    }
}

/// The JSON string literal for a text, as `serde_json::to_string` writes it:
/// the escaped text between double quotes.
pub open spec fn json_quote(s: Seq<char>) -> Seq<char> {
    seq!['"'] + json_escape(s) + seq!['"']
}

/// `serde_json::from_str::<Value>(text).ok()`. The contract names the result
/// after the text and claims nothing else of it.
#[verifier::external_body]
pub(crate) fn parse_value(text: &str) -> (r: Option<serde_json::Value>)
    ensures
        r == json_parse(text@),
{
    serde_json::from_str::<serde_json::Value>(text).ok()
}

/// `Value::get(key)`, the member copied out. The contract names the result
/// after the value and the key and claims nothing else of it.
#[verifier::external_body]
pub(crate) fn member(v: &serde_json::Value, key: &str) -> (r: Option<serde_json::Value>)
    ensures
        r == json_member(*v, key@),
{
    v.get(key).cloned()
}

/// `Value::as_str`, the text copied out. The contract names the result after
/// the value and claims nothing else of it.
#[verifier::external_body]
pub(crate) fn as_string(v: &serde_json::Value) -> (r: Option<String>)
    ensures
        opt_str(r) == json_string(*v),
{
    v.as_str().map(String::from)
}

/// `serde_json::to_string` of a text: its JSON string literal, quotes
/// included, escaped as `json_quote` states. Serializing a `str` does not
/// fail.
#[verifier::external_body]
pub(crate) fn quote(s: &str) -> (r: String)
    ensures
        r@ == json_quote(s@),
{
    match serde_json::to_string(s) {
        Ok(t) => t,
        Err(_) => String::new(),
    }
}

/// The text at `outer.inner` of a JSON document, when that is a JSON string.
pub open spec fn nested_string(text: Seq<char>, outer: Seq<char>, inner: Seq<char>) -> Option<
    Seq<char>,
> {
    match json_parse(text) {
        Some(v) => match json_member(v, outer) {
            Some(o) => match json_member(o, inner) {
                Some(x) => json_string(x),
                None => None,
            },
            None => None,
        },
        None => None,
    }
}

/// The text at the top-level `key` of a JSON document, when that is a JSON
/// string.
pub open spec fn top_string(text: Seq<char>, key: Seq<char>) -> Option<Seq<char>> {
    match json_parse(text) {
        Some(v) => match json_member(v, key) {
            Some(x) => json_string(x),
            None => None,
        },
        None => None,
    }
}

/// Reads the string at `outer.inner` of the JSON document `text`.
pub fn nested_str(text: &str, outer: &str, inner: &str) -> (r: Option<String>)
    ensures
        opt_str(r) == nested_string(text@, outer@, inner@),
{
    match parse_value(text) {
        Some(v) => match member(&v, outer) {
            Some(o) => match member(&o, inner) {
                Some(x) => as_string(&x),
                None => None,
            },
            None => None,
        },
        None => None,
    }
}

/// Reads the string at the top-level `key` of the JSON document `text`.
pub fn top_str(text: &str, key: &str) -> (r: Option<String>)
    ensures
        opt_str(r) == top_string(text@, key@),
{
    match parse_value(text) {
        Some(v) => match member(&v, key) {
            Some(x) => as_string(&x),
            None => None,
        },
        None => None,
    }
}

} // verus!
