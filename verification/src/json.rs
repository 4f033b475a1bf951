//! JSON through `serde_json`: reading a document and walking it, and writing a string.
use vstd::prelude::*;

use crate::text;

verus! {

/// What a JSON value holds. An object keeps its members in order, and no two of them have the
/// same key; a number that is no integer stands as `serde_json` prints it.
pub enum Json {
    Null,
    Bool(bool),
    Integer(int),
    Fraction(Seq<char>),
    Text(Seq<char>),
    Array(Seq<Json>),
    Object(Seq<(Seq<char>, Json)>),
}

/// `serde_json::Value`, a JSON document in memory.
#[verifier::external_type_specification]
#[verifier::external_body]
pub struct ExValue(serde_json::Value);

/// What a `serde_json::Value` holds.
pub uninterp spec fn json_model(value: serde_json::Value) -> Json;

/// What `serde_json::from_slice` reads from a text: the document, or the error as it is printed.
pub uninterp spec fn json_document(bytes: Seq<u8>) -> Result<Json, Seq<char>>;

/// The error, as it is printed, with which `serde_json::from_value` refuses a document that is
/// not an array of bytes.
pub uninterp spec fn json_bytes_error(document: Json) -> Seq<char>;

/// A document as `serde_json` prints it.
pub uninterp spec fn json_print(document: Json) -> Seq<char>;

/// The value of the member of an object that has the key `key`.
pub open spec fn json_member(document: Json, key: Seq<char>) -> Option<Json> {
    match document {
        Json::Object(members) => if exists|i: int|
            0 <= i < members.len() && (#[trigger] members[i]).0 == key {
            let i = choose|i: int| 0 <= i < members.len() && (#[trigger] members[i]).0 == key;
            Some(members[i].1)
        } else {
            None
        },
        _ => None,
    }
}

/// The text that a document is, where it is a string.
pub open spec fn json_text(document: Json) -> Option<Seq<char>> {
    match document {
        Json::Text(s) => Some(s),
        _ => None,
    }
}

/// The text that a member of an object is, where there is such a member and it is a string.
pub open spec fn json_member_text(document: Json, key: Seq<char>) -> Option<Seq<char>> {
    match json_member(document, key) {
        Some(value) => json_text(value),
        None => None,
    }
}

/// The truth value that a document is, where it is one.
pub open spec fn json_bool(document: Json) -> Option<bool> {
    match document {
        Json::Bool(b) => Some(b),
        _ => None,
    }
}

/// A document that is an integer of one byte.
pub open spec fn is_json_byte(document: Json) -> bool {
    match document {
        Json::Integer(n) => 0 <= n < 256,
        _ => false,
    }
}

/// The bytes that a document lists, where it is an array of integers of one byte.
pub open spec fn json_bytes(document: Json) -> Option<Seq<u8>> {
    match document {
        Json::Array(items) => if forall|i: int|
            0 <= i < items.len() ==> is_json_byte(#[trigger] items[i]) {
            Some(Seq::new(items.len(), |i: int| items[i]->Integer_0 as u8))
        } else {
            None
        },
        _ => None,
    }
}

/// A character inside a JSON string.
pub open spec fn json_char(c: char) -> Seq<char> {
    if c == '"' || c == '\\' {
        seq!['\\', c]
    } else if c == '\u{8}' {
        seq!['\\', 'b']
    } else if c == '\u{9}' {
        seq!['\\', 't']
    } else if c == '\u{a}' {
        seq!['\\', 'n']
    } else if c == '\u{c}' {
        seq!['\\', 'f']
    } else if c == '\u{d}' {
        seq!['\\', 'r']
    } else if 31 >= c as int {
        seq![
            '\\',
            'u',
            '0',
            '0',
            crate::hex::hex_digit(c as int / 16, false),
            crate::hex::hex_digit(c as int % 16, false),
        ]
    } else {
        seq![c]
    }
}

/// The characters of a text inside a JSON string.
pub open spec fn json_chars(s: Seq<char>) -> Seq<char>
    decreases s.len(),
{
    if s.len() == 0 {
        Seq::empty()
    } else {
        json_chars(s.drop_last()) + json_char(s.last())
    }
}

/// A text as a JSON string.
pub open spec fn json_string(s: Seq<char>) -> Seq<char> {
    seq!['"'] + json_chars(s) + seq!['"']
}

/// `serde_json::from_slice` into a `serde_json::Value`: the result depends on the bytes alone and
/// is named `json_document`; an error is handed on as `serde_json` prints it.
#[verifier::external_body]
pub(crate) fn read_json(bytes: &[u8]) -> (r: Result<serde_json::Value, String>)
    ensures
        match r {
            Ok(value) => json_document(bytes@) == Ok::<Json, Seq<char>>(json_model(value)),
            Err(e) => json_document(bytes@) == Err::<Json, Seq<char>>(e@),
        },
{
    serde_json::from_slice(bytes).map_err(|e| e.to_string())
}

/// `serde_json::Value::get` with a string: the member of an object that has this key, and nothing
/// where the value is no object or has no such member.
#[verifier::external_body]
pub(crate) fn member<'a>(value: &'a serde_json::Value, key: &str) -> (r: Option<
    &'a serde_json::Value,
>)
    ensures
        match r {
            Some(found) => json_member(json_model(*value), key@) == Some(json_model(*found)),
            None => json_member(json_model(*value), key@) is None,
        },
{
    value.get(key)
}

/// `serde_json::Value::as_str`: the text of a value that is a string, and nothing for any other.
#[verifier::external_body]
pub(crate) fn as_text<'a>(value: &'a serde_json::Value) -> (r: Option<&'a str>)
    ensures
        match r {
            Some(s) => json_text(json_model(*value)) == Some(s@),
            None => json_text(json_model(*value)) is None,
        },
{
    value.as_str()
}

/// `serde_json::Value::as_bool`: the truth value of a value that is one, and nothing for any
/// other.
#[verifier::external_body]
pub(crate) fn as_truth(value: &serde_json::Value) -> (r: Option<bool>)
    ensures
        r == json_bool(json_model(*value)),
{
    value.as_bool()
}

/// `serde_json::from_value` into a `Vec<u8>`: the bytes of an array of integers from 0 to 255, and
/// an error for every other value. The error is named by how it is printed.
#[verifier::external_body]
pub(crate) fn as_byte_list(value: &serde_json::Value) -> (r: Result<Vec<u8>, String>)
    ensures
        match r {
            Ok(bytes) => json_bytes(json_model(*value)) == Some(bytes@),
            Err(e) => json_bytes(json_model(*value)) is None && e@ == json_bytes_error(
                json_model(*value),
            ),
        },
{
    serde_json::from_value(value.clone()).map_err(|e| e.to_string())
}

/// `serde_json::Value`'s `Display`, which prints the value as compact JSON; the text is named
/// `json_print`.
#[verifier::external_body]
pub(crate) fn print_json(value: &serde_json::Value) -> (r: String)
    ensures
        r@ == json_print(json_model(*value)),
{
    value.to_string()
}

/// `serde_json::to_string` of a string: the text between quotation marks, with quotation marks,
/// backslashes and control characters escaped. It does not fail on a string.
#[verifier::external_body]
pub(crate) fn quote_json(s: &str) -> (r: Result<String, serde_json::Error>)
    ensures
        r is Ok,
        r->Ok_0@ == json_string(s@),
{
    serde_json::to_string(s)
}

/// `serde_json::Error`, which this library only carries.
#[verifier::external_type_specification]
#[verifier::external_body]
pub struct ExJsonError(serde_json::Error);

/// The text of the member `key` of a document, where there is one and it is a string.
pub(crate) fn member_text(document: &serde_json::Value, key: &str) -> (r: Option<String>)
    ensures
        text::opt_view(r) == json_member_text(json_model(*document), key@),
{
    match member(document, key) {
        Some(value) => match as_text(value) {
            Some(found) => Some(found.to_owned()),
            None => None,
        },
        None => None,
    }
}

/// The text of the member `key` of the JSON object in a text; nothing where the text is no JSON or
/// has no such member that is a string.
pub open spec fn document_member_text(s: Seq<char>, key: Seq<char>) -> Option<Seq<char>> {
    match json_document(vstd::utf8::encode_utf8(s)) {
        Ok(document) => json_member_text(document, key),
        Err(_) => None,
    }
}

/// The text of the member `key` of the JSON object in `s`, where there is one and it is a string.
pub fn text_member(s: &str, key: &str) -> (r: Option<String>)
    ensures
        text::opt_view(r) == document_member_text(s@, key@),
{
    match read_json(s.as_bytes()) {
        Ok(document) => member_text(&document, key),
        Err(_) => None,
    }
}

} // verus!
