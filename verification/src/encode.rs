use vstd::prelude::*;

use crate::text::digit_char;

verus! {

/// The lower-case hexadecimal digit for `d` (`d < 16`).
pub open spec fn hex_digit(d: nat) -> char {
    if d < 10 {
        digit_char(d)
    } else if d == 10 {
        'a'
    } else if d == 11 {
        'b'
    } else if d == 12 {
        'c'
    } else if d == 13 {
        'd'
    } else if d == 14 {
        'e'
    } else {
        'f'
    }
}

/// Two lower-case hexadecimal digits for each byte, in order.
pub open spec fn hex_bytes(b: Seq<u8>) -> Seq<char>
    decreases b.len(),
{
    if b.len() == 0 {
        Seq::empty()
    } else {
        hex_bytes(b.drop_last()) + seq![hex_digit(b.last() as nat / 16), hex_digit(b.last() as nat % 16)]
    }
}

/// The hyphenated text of a UUID given by its sixteen bytes, as in
/// `67e55044-10b1-426f-9247-bb680e5fe0c8`: groups of 8, 4, 4, 4 and 12
/// lower-case hexadecimal digits.
pub open spec fn uuid_text(b: Seq<u8>) -> Seq<char> {
    hex_bytes(b.subrange(0, 4)) + seq!['-'] + hex_bytes(b.subrange(4, 6)) + seq!['-']
        + hex_bytes(b.subrange(6, 8)) + seq!['-'] + hex_bytes(b.subrange(8, 10)) + seq!['-']
        + hex_bytes(b.subrange(10, 16))
}

/// How one character stands inside a JSON string: quote and backslash
/// escaped with a backslash, the control characters that have a short form
/// in that form, the other control characters below U+0020 as `\u00XX`, and
/// every other character as itself.
pub open spec fn json_escape_char(c: char) -> Seq<char> {
    if c == '"' {
        seq!['\\', '"']
    } else if c == '\\' {
        seq!['\\', '\\']
    } else if c as u32 == 8 {
        seq!['\\', 'b']
    } else if c == '\t' {
        seq!['\\', 't']
    } else if c == '\n' {
        seq!['\\', 'n']
    } else if c as u32 == 12 {
        seq!['\\', 'f']
    } else if c == '\r' {
        seq!['\\', 'r']
    } else if (c as u32) < 32 {
        seq!['\\', 'u', '0', '0', hex_digit(c as nat / 16), hex_digit(c as nat % 16)]
    } else {
        seq![c]
    }
}

/// The escaped characters of a text, in order.
pub open spec fn json_escape(s: Seq<char>) -> Seq<char>
    decreases s.len(),
{
    if s.len() == 0 {
        Seq::empty()
    } else {
        json_escape(s.drop_last()) + json_escape_char(s.last())
    }
}

/// A text as a JSON string literal: quoted and escaped.
pub open spec fn json_string_literal(s: Seq<char>) -> Seq<char> {
    seq!['"'] + json_escape(s) + seq!['"']
}

/// Calls `uuid::Uuid::from_bytes` and the `Display` of `Uuid` (the hyphenated
/// lower-case form). Trusted: the text is `uuid_text` of the bytes.
#[verifier::external_body]
pub(crate) fn uuid_to_string(bytes: [u8; 16]) -> (r: String)
    ensures
        r@ == uuid_text(bytes@),
{
    uuid::Uuid::from_bytes(bytes).to_string()
}

/// Calls `serde_json::to_string` on a text. Trusted: the result is the JSON
/// string literal of the text, and the call does not fail (serde_json writes
/// a string into a growing buffer, which has no failure path).
#[verifier::external_body]
pub(crate) fn json_string(s: &str) -> (r: Option<String>)
    ensures
        r is Some,
        r matches Some(t) ==> t@ == json_string_literal(s@),
{
    serde_json::to_string(s).ok()
}

} // verus!
