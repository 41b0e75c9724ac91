//! JSON, as `serde_json` reads and writes it: the strings of a document
//! are looked up by JSON pointer, and a text is written as a JSON string.

use vstd::prelude::*;

verus! {

/// A JSON value of `serde_json`, carried through unread.
#[verifier::external_type_specification]
#[verifier::external_body]
pub struct ExJsonValue(serde_json::Value);

/// The error type of `serde_json`, carried through unread.
#[verifier::external_type_specification]
#[verifier::external_body]
pub struct ExJsonError(serde_json::Error);

/// The strings that a JSON value holds, each under the JSON pointer that
/// leads to it: a pointer is in the map exactly where `serde_json` finds a
/// string under it.
pub uninterp spec fn json_strings(value: serde_json::Value) -> Map<Seq<char>, Seq<char>>;

/// The strings of the JSON document that `serde_json` reads from a byte
/// sequence, or `None` where it rejects the bytes.
pub uninterp spec fn json_document(bytes: Seq<u8>) -> Option<Map<Seq<char>, Seq<char>>>;

/// Calls `serde_json::from_slice` for a `serde_json::Value`.
///
/// Trusted: the outcome depends on the bytes alone, so it is named
/// [`json_document`]; nothing is claimed of which bytes are accepted.
#[verifier::external_body]
fn parse_json(bytes: &[u8]) -> (parsed: Result<serde_json::Value, serde_json::Error>)
    ensures
        match parsed {
            Ok(value) => json_document(bytes@) == Some(json_strings(value)),
            Err(_) => json_document(bytes@) is None,
        },
{
    serde_json::from_slice(bytes)
}

/// Calls `serde_json::Value::pointer`, and hands out a copy of what it
/// finds where that is a string.
///
/// Trusted: this is what [`json_strings`] names, pointer by pointer.
#[verifier::external_body]
fn string_at(value: &serde_json::Value, pointer: &str) -> (found: Option<String>)
    ensures
        match found {
            Some(text) => json_strings(*value).contains_key(pointer@) && json_strings(
                *value,
            )[pointer@] == text@,
            None => !json_strings(*value).contains_key(pointer@),
        },
{
    match value.pointer(pointer) {
        Some(serde_json::Value::String(text)) => Some(text.clone()),
        _ => None,
    }
}

/// The string under a JSON pointer in the document that the bytes hold;
/// nothing where the bytes are no JSON document, or where the document has
/// no string there.
pub open spec fn string_field(body: Seq<u8>, pointer: Seq<char>) -> Option<Seq<char>> {
    match json_document(body) {
        Some(strings) => if strings.contains_key(pointer) {
            Some(strings[pointer])
        } else {
            None
        },
        None => None,
    }
}

/// Looks up the string under a JSON pointer in the document that the bytes
/// hold.
pub fn json_string_field(body: &[u8], pointer: &str) -> (found: Option<String>)
    ensures
        match string_field(body@, pointer@) {
            Some(text) => found is Some && found->Some_0@ == text,
            None => found is None,
        },
{
    match parse_json(body) {
        Ok(value) => string_at(&value, pointer),
        Err(_) => None,
    }
}

/// A text between double quotes.
pub open spec fn quoted(text: Seq<char>) -> Seq<char> {
    seq!['"'] + text + seq!['"']
}

/// The character of a hexadecimal digit, in lower case.
pub open spec fn hex_digit_char(digit: nat) -> char {
    if digit < 10 {
        ((48 + digit) as u8) as char
    } else {
        ((87 + digit) as u8) as char
    }
}

/// Whether a character stands in a JSON string as it is: every character
/// but the double quote, the backslash and the control characters below
/// the space.
pub open spec fn stands_unescaped(c: char) -> bool {
    c as u32 >= 0x20 && c != '"' && c != '\\'
}

/// How a character stands in a JSON string. The double quote and the
/// backslash get a backslash before them; backspace, tab, line feed, form
/// feed and carriage return are written `\b`, `\t`, `\n`, `\f`, `\r`; any
/// other character below the space is written `\u00` and its two
/// hexadecimal digits; every other character stands as it is.
pub open spec fn escaped_char(c: char) -> Seq<char> {
    let code = c as u32;
    if c == '"' {
        seq!['\\', '"']
    } else if c == '\\' {
        seq!['\\', '\\']
    } else if code == 0x08 {
        seq!['\\', 'b']
    } else if code == 0x09 {
        seq!['\\', 't']
    } else if code == 0x0A {
        seq!['\\', 'n']
    } else if code == 0x0C {
        seq!['\\', 'f']
    } else if code == 0x0D {
        seq!['\\', 'r']
    } else if code < 0x20 {
        seq![
            '\\',
            'u',
            '0',
            '0',
            hex_digit_char((code / 16) as nat),
            hex_digit_char((code % 16) as nat),
        ]
    } else {
        seq![c]
    }
}

/// A text with each of its characters as it stands in a JSON string.
pub open spec fn escaped_text(text: Seq<char>) -> Seq<char>
    decreases text.len(),
{
    if text.len() == 0 {
        Seq::empty()
    } else {
        escaped_text(text.drop_last()) + escaped_char(text.last())
    }
}

/// A text as a JSON string: its characters, escaped, between double
/// quotes.
pub open spec fn json_string_text(text: Seq<char>) -> Seq<char> {
    quoted(escaped_text(text))
}

/// Calls `serde_json::to_string` on a text.
///
/// Trusted: writing a text into memory has no way to fail, and what is
/// written is the text between double quotes, escaped by the table that
/// [`escaped_char`] states.
#[verifier::external_body]
fn write_json_string(text: &str) -> (written: Result<String, serde_json::Error>)
    ensures
        written is Ok,
        written->Ok_0@ == json_string_text(text@),
{
    serde_json::to_string(text)
}

/// Writes a text as a JSON string: between double quotes, and escaped.
pub fn json_string(text: &str) -> (token: String)
    ensures
        token@ == json_string_text(text@),
{
    match write_json_string(text) {
        Ok(token) => token,
        Err(_) => String::new(),
    }
}

/// A text none of whose characters needs escaping is, as a JSON string,
/// itself between double quotes.
pub proof fn lemma_plain_text_is_quoted(text: Seq<char>)
    requires
        forall|i: int| 0 <= i < text.len() ==> stands_unescaped(#[trigger] text[i]),
    ensures
        json_string_text(text) == quoted(text),
{
    lemma_plain_text_stands(text);
}

/// A text none of whose characters needs escaping stands as it is.
proof fn lemma_plain_text_stands(text: Seq<char>)
    requires
        forall|i: int| 0 <= i < text.len() ==> stands_unescaped(#[trigger] text[i]),
    ensures
        escaped_text(text) == text,
    decreases text.len(),
{
    if text.len() > 0 {
        lemma_plain_text_stands(text.drop_last());
        assert(text.drop_last() + seq![text.last()] =~= text);
    }
}

} // verus!
