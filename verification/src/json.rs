//! JSON text of string and integer lists, as the material queries embed
//! them in statements and cells.
use vstd::prelude::*;
use crate::text::{join_with, signed_decimal};

verus! {

/// The lower-case hexadecimal digit for `n < 16`.
pub open spec fn hex_digit(n: nat) -> char {
    if n < 10 {
        (('0' as u32) + n) as char
    } else {
        (('a' as u32) + (n - 10)) as char
    }
}

/// How one character is written inside a JSON string: quote, back-slash
/// and control characters are escaped, everything else is kept.
pub open spec fn json_escaped_char(c: char) -> Seq<char> {
    if c == '"' {
        seq!['\\', '"']
    } else if c == '\\' {
        seq!['\\', '\\']
    } else if c == '\u{8}' {
        seq!['\\', 'b']
    } else if c == '\t' {
        seq!['\\', 't']
    } else if c == '\n' {
        seq!['\\', 'n']
    } else if c == '\u{c}' {
        seq!['\\', 'f']
    } else if c == '\r' {
        seq!['\\', 'r']
    } else if (c as u32) < 0x20 {
        seq!['\\', 'u', '0', '0', hex_digit((c as nat) / 16), hex_digit((c as nat) % 16)]
    } else {
        seq![c]
    }
}

/// The characters of `s` as written inside a JSON string.
pub open spec fn json_escaped(s: Seq<char>) -> Seq<char>
    decreases s.len(),
{
    if s.len() == 0 {
        Seq::empty()
    } else {
        json_escaped(s.drop_last()) + json_escaped_char(s.last())
    }
}

/// The JSON string literal of `s`.
pub open spec fn json_text(s: Seq<char>) -> Seq<char> {
    seq!['"'] + json_escaped(s) + seq!['"']
}

/// A JSON array of already written values, without spaces.
pub open spec fn json_list(values: Seq<Seq<char>>) -> Seq<char> {
    seq!['['] + join_with(values, seq![',']) + seq![']']
}

/// The JSON array of the strings `items`.
pub open spec fn json_strings(items: Seq<Seq<char>>) -> Seq<char> {
    json_list(items.map_values(|s: Seq<char>| json_text(s)))
}

/// The texts of a list of strings.
pub open spec fn string_views(v: Seq<String>) -> Seq<Seq<char>> {
    v.map_values(|s: String| s@)
}

/// The JSON array of arrays of the strings `rows`.
pub open spec fn json_string_rows(rows: Seq<Seq<Seq<char>>>) -> Seq<char> {
    json_list(rows.map_values(|r: Seq<Seq<char>>| json_strings(r)))
}

/// The JSON number of `i`.
pub open spec fn json_int(i: int) -> Seq<char> {
    signed_decimal(i)
}

/// The JSON array of the integers `items`.
pub open spec fn json_ints(items: Seq<i32>) -> Seq<char> {
    json_list(items.map_values(|i: i32| json_int(i as int)))
}

/// `serde_json::to_string` on a list of strings. Writing into memory cannot
/// fail, so the text is the compact array of the escaped strings.
#[verifier::external_body]
pub(crate) fn strings_to_json(v: &Vec<String>) -> (r: String)
    ensures
        r@ == json_strings(string_views(v@)),
{
    match serde_json::to_string(v) {
        Ok(s) => s,
        Err(_) => String::new(),
    }
}

/// `serde_json::to_string` on a list of lists of strings: the compact
/// array of the inner arrays.
#[verifier::external_body]
pub(crate) fn string_rows_to_json(v: &Vec<Vec<String>>) -> (r: String)
    ensures
        r@ == json_string_rows(v@.map_values(|row: Vec<String>| string_views(row@))),
{
    match serde_json::to_string(v) {
        Ok(s) => s,
        Err(_) => String::new(),
    }
}

/// `serde_json::to_string` on a list of `i32`: the compact array of the
/// decimal numbers.
#[verifier::external_body]
pub(crate) fn ints_to_json(v: &Vec<i32>) -> (r: String)
    ensures
        r@ == json_ints(v@),
{
    match serde_json::to_string(v) {
        Ok(s) => s,
        Err(_) => String::new(),
    }
}

} // verus!
