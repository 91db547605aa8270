//! The two JSON services the store needs from serde_json: quoting a string,
//! and reading how many rows a response array holds.

use vstd::prelude::*;

use crate::decimal::digit_char;

verus! {

/// How serde_json writes one character inside a string literal: a quote or
/// a backslash behind a backslash, five controls as short escapes, the other
/// characters below U+0020 as `\u00XX` in lower-case hex, the rest as is.
pub open spec fn escape_char(c: char) -> Seq<char> {
    if c == '"' {
        seq!['\\', '"']
    } else if c == '\\' {
        seq!['\\', '\\']
    } else if c == '\u{8}' {
        seq!['\\', 'b']
    } else if c == '\t' {
        seq!['\\', 't']
    } else if c == '\n' {
        seq!['\\', 'n']
    } else if c == '\u{c}' {
        seq!['\\', 'f']
    } else if c == '\r' {
        seq!['\\', 'r']
    } else if (c as u32) < 0x20 {
        seq!['\\', 'u', '0', '0', digit_char((c as u32 / 16) as nat), digit_char((c as u32 % 16) as nat)]
    } else {
        seq![c]
    }
}

/// Every character of `s`, escaped.
pub open spec fn escaped(s: Seq<char>) -> Seq<char>
    decreases s.len(),
{
    if s.len() == 0 {
        Seq::empty()
    } else {
        escaped(s.drop_last()) + escape_char(s.last())
    }
}

/// The JSON string literal for `s`, quotes and escapes included.
pub open spec fn json_quoted(s: Seq<char>) -> Seq<char> {
    "\""@ + escaped(s) + "\""@
}

/// The number of elements when `text` parses as a JSON array; `None` when it
/// does not parse, or parses as something other than an array.
pub uninterp spec fn json_array_len(text: Seq<char>) -> Option<usize>;

/// Relies on serde_json's `Display` for `Value::String`: writes the string as
/// a JSON string literal.
#[verifier::external_body]
pub(crate) fn quote(s: &str) -> (r: String)
    ensures
        r@ == json_quoted(s@),
{
    serde_json::Value::String(s.to_string()).to_string()
}

/// Relies on `serde_json::from_str` into a `Value`: an array is told apart
/// from every other outcome, and its length is read.
#[verifier::external_body]
pub(crate) fn array_len(text: &str) -> (r: Option<usize>)
    ensures
        r == json_array_len(text@),
{
    match serde_json::from_str::<serde_json::Value>(text) {
        Ok(serde_json::Value::Array(rows)) => Some(rows.len()),
        _ => None,
    }
}

} // verus!
