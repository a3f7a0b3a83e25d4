//! JSON documents, read through `serde_json` and modelled as a mathematical value.

use vstd::prelude::*;

verus! {

/// The mathematical content of a JSON document.
///
/// A number is kept as `Unsigned` where it is written as a non-negative
/// integer that fits 64 bits, and as `OtherNumber` otherwise: a negative
/// number, an integer beyond 64 bits, and any number written with a fraction
/// or an exponent, such as `256.0`.
pub enum Json {
    Null,
    Bool(bool),
    Unsigned(u64),
    OtherNumber,
    Text(Seq<char>),
    Array(Seq<Json>),
    Object(Map<Seq<char>, Json>),
}

#[verifier::external_type_specification]
#[verifier::external_body]
pub struct ExValue(serde_json::Value);

/// What `serde_json::from_slice` makes of a byte string: the document it
/// holds, or `None` where the bytes are no JSON text.
pub uninterp spec fn json_decoded(bytes: Seq<u8>) -> Option<Json>;

/// The document that a `serde_json::Value` holds.
pub uninterp spec fn json_model(value: serde_json::Value) -> Json;

/// The digit that stands for a number below sixteen in an escape.
pub open spec fn hex_digit(n: int) -> char {
    "0123456789abcdef"@[n]
}

/// How one character stands inside a JSON string: the double quote and the
/// backslash behind a backslash, the five control characters that have a
/// letter by that letter, every other character below the space as `\u00`
/// and two hexadecimal digits, and any other character as itself.
pub open spec fn escaped(c: char) -> Seq<char> {
    if c == '"' {
        seq!['\\', '"']
    } else if c == '\\' {
        seq!['\\', '\\']
    } else if c == '\u{8}' {
        seq!['\\', 'b']
    } else if c == '\t' {
        seq!['\\', 't']
    } else if c == '\n' {
        seq!['\\', 'n']
    } else if c == '\u{c}' {
        seq!['\\', 'f']
    } else if c == '\r' {
        seq!['\\', 'r']
    } else if (c as u32) < 0x20 {
        seq!['\\', 'u', '0', '0', hex_digit((c as u32) as int / 16), hex_digit((c as u32) as int % 16)]
    } else {
        seq![c]
    }
}

/// A piece of text with each of its characters escaped.
pub open spec fn escaped_text(text: Seq<char>) -> Seq<char>
    decreases text.len(),
{
    if text.len() == 0 {
        Seq::<char>::empty()
    } else {
        escaped(text[0]) + escaped_text(text.subrange(1, text.len() as int))
    }
}

/// The JSON string literal for a piece of text: the escaped text between
/// double quotes.
pub open spec fn json_quoted(text: Seq<char>) -> Seq<char> {
    seq!['"'] + escaped_text(text) + seq!['"']
}

/// The member of an object under a key; `None` for a missing key and for
/// anything that is not an object.
pub open spec fn member_of(doc: Json, key: Seq<char>) -> Option<Json> {
    match doc {
        Json::Object(members) => if members.contains_key(key) {
            Some(members[key])
        } else {
            None
        },
        _ => None,
    }
}

/// The text of a member, where the member is there and is a string.
pub open spec fn text_member(doc: Json, key: Seq<char>) -> Option<Seq<char>> {
    match member_of(doc, key) {
        Some(Json::Text(t)) => Some(t),
        _ => None,
    }
}

/// The number of a member, where the member is there and is a non-negative
/// integer of at most 64 bits.
pub open spec fn unsigned_member(doc: Json, key: Seq<char>) -> Option<u64> {
    match member_of(doc, key) {
        Some(Json::Unsigned(n)) => Some(n),
        _ => None,
    }
}

/// Calls `serde_json::from_slice` for a `serde_json::Value`. Trusted: the
/// value returned holds the document named by `json_decoded`, and `None`
/// comes exactly where the bytes hold no JSON text.
#[verifier::external_body]
pub(crate) fn decode(bytes: &[u8]) -> (r: Option<serde_json::Value>)
    ensures
        match r {
            Some(v) => json_decoded(bytes@) == Some(json_model(v)),
            None => json_decoded(bytes@) is None,
        },
{
    serde_json::from_slice::<serde_json::Value>(bytes).ok()
}

/// Calls `serde_json::Value::get` with a string key. Trusted: it hands out
/// the member under that key where the value is an object that has one, and
/// `None` otherwise.
#[verifier::external_body]
pub(crate) fn member<'a>(value: &'a serde_json::Value, key: &str) -> (r: Option<&'a serde_json::Value>)
    ensures
        match r {
            Some(m) => member_of(json_model(*value), key@) == Some(json_model(*m)),
            None => member_of(json_model(*value), key@) is None,
        },
{
    value.get(key)
}

/// Calls `serde_json::Value::as_str`. Trusted: `Some` with the text exactly
/// where the value is a string.
#[verifier::external_body]
pub(crate) fn as_text<'a>(value: &'a serde_json::Value) -> (r: Option<&'a str>)
    ensures
        match r {
            Some(t) => json_model(*value) == Json::Text(t@),
            None => !(json_model(*value) is Text),
        },
{
    value.as_str()
}

/// Calls `serde_json::Value::as_bool`. Trusted: `Some` with the boolean
/// exactly where the value is one.
#[verifier::external_body]
pub(crate) fn as_flag(value: &serde_json::Value) -> (r: Option<bool>)
    ensures
        match r {
            Some(b) => json_model(*value) == Json::Bool(b),
            None => !(json_model(*value) is Bool),
        },
{
    value.as_bool()
}

/// Calls `serde_json::Value::as_u64`. Trusted: `Some` with the number exactly
/// where the value is a non-negative integer that fits 64 bits.
#[verifier::external_body]
pub(crate) fn as_unsigned(value: &serde_json::Value) -> (r: Option<u64>)
    ensures
        match r {
            Some(n) => json_model(*value) == Json::Unsigned(n),
            None => !(json_model(*value) is Unsigned),
        },
{
    value.as_u64()
}

/// Calls `serde_json::Value::is_null`. Trusted: true exactly for `null`.
#[verifier::external_body]
pub(crate) fn is_null(value: &serde_json::Value) -> (r: bool)
    ensures
        r == (json_model(*value) is Null),
{
    value.is_null()
}

/// Prints a piece of text as a JSON string through `serde_json::Value`'s
/// `to_string`. Trusted: the result is the text between double quotes, each
/// character escaped as `serde_json`'s table of escapes has it, which
/// `json_quoted` writes out.
#[verifier::external_body]
pub(crate) fn quote(text: &str) -> (r: String)
    ensures
        r@ == json_quoted(text@),
{
    serde_json::Value::from(text).to_string()
}

} // verus!
