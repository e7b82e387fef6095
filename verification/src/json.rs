//! JSON strings on the wire: a message travels as one JSON string.
//!
//! Encoding and decoding are done by serde_json. What its encoder writes for
//! a string is short enough to state here in full; what its decoder accepts
//! is given a name, together with the fact that it reads back what the
//! encoder wrote.

use vstd::prelude::*;
use vstd::utf8::encode_utf8;

verus! {

/// The lower-case hexadecimal digit of a value below 16.
pub open spec fn hex_digit(n: int) -> char {
    seq!['0', '1', '2', '3', '4', '5', '6', '7', '8', '9', 'a', 'b', 'c', 'd', 'e', 'f'][n]
}

/// How one character stands inside a JSON string: `"` and `\` behind a
/// backslash, the control characters with a short escape as `\b`, `\t`,
/// `\n`, `\f`, `\r`, the other control characters below U+0020 as `\u00xx`,
/// every other character as itself.
pub open spec fn json_escape(c: char) -> Seq<char> {
    if c == '"' {
        seq!['\\', '"']
    } else if c == '\\' {
        seq!['\\', '\\']
    } else if c == '\u{8}' {
        seq!['\\', 'b']
    } else if c == '\t' {
        seq!['\\', 't']
    } else if c == '\n' {
        seq!['\\', 'n']
    } else if c == '\u{c}' {
        seq!['\\', 'f']
    } else if c == '\r' {
        seq!['\\', 'r']
    } else if (c as u32) < 0x20 {
        seq!['\\', 'u', '0', '0', hex_digit((c as int) / 16), hex_digit((c as int) % 16)]
    } else {
        seq![c]
    }
}

/// The escaped characters of a text, in order.
pub open spec fn json_escaped(text: Seq<char>) -> Seq<char>
    decreases text.len(),
{
    if text.len() == 0 {
        Seq::empty()
    } else {
        json_escaped(text.drop_last()) + json_escape(text.last())
    }
}

/// The JSON string that stands for a text: the escaped text between quotes.
pub open spec fn json_string(text: Seq<char>) -> Seq<char> {
    seq!['"'] + json_escaped(text) + seq!['"']
}

#[verifier::external_type_specification]
#[verifier::external_body]
pub struct ExJsonError(serde_json::Error);

/// What serde_json makes of bytes read as one JSON string: the text that the
/// document stands for, where the bytes are such a document (UTF-8, the
/// string possibly surrounded by JSON whitespace), and otherwise the error
/// that says where reading failed.
pub uninterp spec fn json_string_result(body: Seq<u8>) -> Result<Seq<char>, serde_json::Error>;

/// The message of a serde_json error, as its `Display` writes it: what was
/// wrong, then the line and column.
pub uninterp spec fn json_error_message(error: serde_json::Error) -> Seq<char>;

/// The text that bytes read as one JSON string stand for, or `None`.
pub open spec fn json_string_value(body: Seq<u8>) -> Option<Seq<char>> {
    match json_string_result(body) {
        Ok(text) => Some(text),
        Err(_) => None,
    }
}

/// The message of the error that reading bytes as one JSON string gives.
pub open spec fn json_error_text(body: Seq<u8>) -> Seq<char> {
    json_error_message(json_string_result(body)->Err_0)
}

/// `serde_json::to_string` on a `str`. Its source writes the quote, each
/// byte run that needs no escape as it is, the escapes of `json_escape` in
/// their place, and the closing quote into a `Vec`, which cannot fail; so
/// the result is `Ok` and holds `json_string` of the text.
#[verifier::external_body]
fn serde_json_to_string(text: &str) -> (result: Result<String, serde_json::Error>)
    ensures
        result is Ok,
        result matches Ok(encoded) ==> encoded@ == json_string(text@),
{
    serde_json::to_string(text)
}

/// `serde_json::from_slice` into a `String`. The result is what
/// `json_string_result` names, the text taken by its view; the UTF-8 bytes of `json_string(s)` read back
/// as `s`, as serde_json's string encoding and decoding are inverse.
#[verifier::external_body]
fn serde_json_from_slice(body: &[u8]) -> (result: Result<String, serde_json::Error>)
    ensures
        result is Ok <==> json_string_result(body@) is Ok,
        result matches Ok(text) ==> (json_string_result(body@) matches Ok(value) && value == text@),
        result matches Err(error) ==> (json_string_result(body@) matches Err(named) && named == error),
        result matches Ok(text) ==> forall|s: Seq<char>| encode_utf8(#[trigger] json_string(s)) == body@ ==> text@ == s,
        (exists|s: Seq<char>| encode_utf8(#[trigger] json_string(s)) == body@) ==> result is Ok,
{
    serde_json::from_slice(body)
}

/// The JSON string that stands for `text`, as serde_json writes it.
pub fn encode_json_string(text: &str) -> (encoded: String)
    ensures
        encoded@ == json_string(text@),
{
    match serde_json_to_string(text) {
        Ok(encoded) => encoded,
        Err(_) => String::new(),
    }
}

/// The message of a serde_json error, as its `Display` writes it: the text
/// that `json_error_message` names.
#[verifier::external_body]
fn serde_json_error_text(error: &serde_json::Error) -> (text: String)
    ensures
        text@ == json_error_message(*error),
{
    format!("{}", error)
}

/// Why a body was refused.
#[derive(Clone, Debug, PartialEq, Eq)]
pub enum BodyError {
    /// The body is not one JSON string; serde_json's message says why.
    NotJsonString(String),
}

/// Reads a body that holds one JSON string, as serde_json reads it.
pub fn decode_json_string(body: &[u8]) -> (result: Result<String, BodyError>)
    ensures
        result is Ok <==> json_string_value(body@) is Some,
        result matches Ok(text) ==> json_string_value(body@) == Some(text@),
        result matches Err(BodyError::NotJsonString(detail)) ==> detail@ == json_error_text(body@),
        forall|s: Seq<char>| encode_utf8(#[trigger] json_string(s)) == body@
            ==> (result matches Ok(text) && text@ == s),
{
    match serde_json_from_slice(body) {
        Ok(text) => Ok(text),
        Err(error) => Err(BodyError::NotJsonString(serde_json_error_text(&error))),
    }
}

} // verus!
