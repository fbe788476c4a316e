use vstd::prelude::*;

verus! {

/// A lower-case hexadecimal digit.
pub open spec fn hex_digit(n: u32) -> char {
    if n < 10 {
        (('0' as u32) + n) as char
    } else {
        (('a' as u32) + n - 10) as char
    }
}

/// One character inside a JSON string: quote and backslash escaped, the
/// control characters by their short escape or as `\u00XX`.
pub open spec fn escape_char(c: char) -> Seq<char> {
    if c == '"' {
        seq!['\\', '"']
    } else if c == '\\' {
        seq!['\\', '\\']
    } else if c == '\u{8}' {
        seq!['\\', 'b']
    } else if c == '\t' {
        seq!['\\', 't']
    } else if c == '\n' {
        seq!['\\', 'n']
    } else if c == '\u{c}' {
        seq!['\\', 'f']
    } else if c == '\r' {
        seq!['\\', 'r']
    } else if (c as u32) < 0x20 {
        seq!['\\', 'u', '0', '0', hex_digit((c as u32) / 16), hex_digit((c as u32) % 16)]
    } else {
        seq![c]
    }
}

/// The characters of a string, each escaped.
pub open spec fn escape(s: Seq<char>) -> Seq<char>
    decreases s.len(),
{
    if s.len() == 0 {
        Seq::empty()
    } else {
        escape(s.drop_last()) + escape_char(s.last())
    }
}

/// A JSON string literal.
pub open spec fn quoted(s: Seq<char>) -> Seq<char> {
    seq!['"'] + escape(s) + seq!['"']
}

/// The JSON string literals of a list, separated by commas.
pub open spec fn json_items(v: Seq<Seq<char>>) -> Seq<char>
    decreases v.len(),
{
    if v.len() == 0 {
        Seq::empty()
    } else if v.len() == 1 {
        quoted(v[0])
    } else {
        json_items(v.drop_last()) + seq![','] + quoted(v.last())
    }
}

/// The compact JSON array text that holds the given strings, in order.
pub open spec fn json_of_strings(v: Seq<Seq<char>>) -> Seq<char> {
    seq!['['] + json_items(v) + seq![']']
}

/// The characters of each string of a list.
pub open spec fn string_views(v: Seq<String>) -> Seq<Seq<char>> {
    v.map_values(|s: String| s@)
}

/// Relies on `serde_json::to_string`: a list of strings always serialises, as
/// a compact array with serde_json's string escapes.
#[verifier::external_body]
fn strings_to_json(v: &Vec<String>) -> (r: String)
    ensures
        r@ == json_of_strings(string_views(v@)),
{
    serde_json::to_string(v).unwrap_or_default()
}

/// Relies on `Reader::supported_mime_types`: the formats the engine reads.
#[verifier::external_body]
fn engine_formats() -> (r: Vec<String>) {
    c2pa::Reader::supported_mime_types()
}

/// The formats the engine can read, as a JSON array of strings.
pub fn supported_extensions() -> (r: String)
    ensures
        exists|v: Seq<String>| r@ == json_of_strings(string_views(v)),
{
    let formats = engine_formats();
    strings_to_json(&formats)
}

} // verus!
