//! The JSON documents this library reads and writes, through serde_json.
//! A parsed document is opaque here; what the logic reads of it is named
//! below, one name for each serde_json function relied on. The string
//! literals serde_json writes are stated in full.
use vstd::prelude::*;

verus! {

#[verifier::external_type_specification]
#[verifier::external_body]
pub struct ExJsonValue(serde_json::Value);

#[verifier::external_type_specification]
#[verifier::external_body]
pub struct ExJsonError(serde_json::Error);

/// The document that serde_json parses from a text, if the text is JSON.
pub uninterp spec fn json_parse(text: Seq<char>) -> Option<serde_json::Value>;

/// The member of a JSON object under a key; none for a missing key or a
/// value that is not an object.
pub uninterp spec fn json_member(doc: serde_json::Value, key: Seq<char>) -> Option<serde_json::Value>;

/// The characters of a JSON string value; none for any other kind of value.
pub uninterp spec fn json_string(doc: serde_json::Value) -> Option<Seq<char>>;

/// The message of the error that serde_json reports for a text that is not
/// JSON.
pub uninterp spec fn json_error_text(text: Seq<char>) -> Seq<char>;

/// A lowercase hexadecimal digit.
pub open spec fn hex_digit(d: nat) -> char {
    seq!['0', '1', '2', '3', '4', '5', '6', '7', '8', '9', 'a', 'b', 'c', 'd', 'e', 'f'][d as int]
}

/// How one character stands inside a JSON string literal: the quote, the
/// backslash and the control characters are escaped, all else stands as is.
pub open spec fn escaped_char(c: char) -> Seq<char> {
    if c == '"' {
        seq!['\\', '"']
    } else if c == '\\' {
        seq!['\\', '\\']
    } else if c == '\x08' {
        seq!['\\', 'b']
    } else if c == '\t' {
        seq!['\\', 't']
    } else if c == '\n' {
        seq!['\\', 'n']
    } else if c == '\x0c' {
        seq!['\\', 'f']
    } else if c == '\r' {
        seq!['\\', 'r']
    } else if (c as u32) < 0x20 {
        seq!['\\', 'u', '0', '0', hex_digit((c as u32 / 16) as nat), hex_digit((c as u32 % 16) as nat)]
    } else {
        seq![c]
    }
}

/// The escaped characters of a text.
pub open spec fn escaped(text: Seq<char>) -> Seq<char>
    decreases text.len(),
{
    if text.len() == 0 {
        Seq::empty()
    } else {
        escaped_char(text[0]) + escaped(text.drop_first())
    }
}

/// The JSON string literal written for a text: its escaped characters
/// between quotes.
pub open spec fn json_quoted(text: Seq<char>) -> Seq<char> {
    seq!['"'] + escaped(text) + seq!['"']
}

/// Relies on `serde_json::from_str::<Value>`: the document parsed from a
/// text depends on the text alone, and an error means it is not JSON; the
/// error's message, which also depends on the text alone, is handed back.
#[verifier::external_body]
pub(crate) fn parse_document(text: &str) -> (r: Result<serde_json::Value, String>)
    ensures
        match r {
            Ok(doc) => json_parse(text@) == Some(doc),
            Err(m) => json_parse(text@) is None && m@ == json_error_text(text@),
        },
{
    serde_json::from_str::<serde_json::Value>(text).map_err(|e| e.to_string())
}

/// Relies on `serde_json::Value::get` with a string key: the member under
/// that key of an object, none otherwise.
#[verifier::external_body]
pub(crate) fn member<'a>(doc: &'a serde_json::Value, key: &str) -> (r: Option<&'a serde_json::Value>)
    ensures
        match r {
            Some(m) => json_member(*doc, key@) == Some(*m),
            None => json_member(*doc, key@) is None,
        },
{
    doc.get(key)
}

/// Relies on `serde_json::Value::as_str`: the text of a string value, none
/// for any other kind of value.
#[verifier::external_body]
pub(crate) fn string_value(doc: &serde_json::Value) -> (r: Option<&str>)
    ensures
        match r {
            Some(s) => json_string(*doc) == Some(s@),
            None => json_string(*doc) is None,
        },
{
    doc.as_str()
}

/// Relies on `serde_json::to_string` on a `str`: it writes the text between
/// quotes, escaping the quote, the backslash and the control characters, and
/// it cannot fail, since writing into a `Vec` cannot.
#[verifier::external_body]
pub(crate) fn quote(text: &str) -> (r: Result<String, serde_json::Error>)
    ensures
        r is Ok,
        r matches Ok(q) ==> q@ == json_quoted(text@),
{
    serde_json::to_string(text)
}

} // verus!
