//! JSON text for the library's own values: string literals written by `serde_json`,
//! and decimal numbers.

use vstd::prelude::*;

verus! {

/// The lowercase hexadecimal digits.
pub open spec fn spec_hex_digits() -> Seq<char> {
    seq!['0', '1', '2', '3', '4', '5', '6', '7', '8', '9', 'a', 'b', 'c', 'd', 'e', 'f']
}

/// A lowercase hexadecimal digit.
pub open spec fn spec_hex_digit(n: u32) -> char {
    spec_hex_digits()[n as int]
}

/// The JSON text that stands for one character inside a string literal: quote,
/// backslash and control characters are escaped, everything else stands for itself.
pub open spec fn spec_escape_char(c: char) -> Seq<char> {
    if c == '"' {
        seq!['\\', '"']
    } else if c == '\\' {
        seq!['\\', '\\']
    } else if c == '\n' {
        seq!['\\', 'n']
    } else if c == '\r' {
        seq!['\\', 'r']
    } else if c == '\t' {
        seq!['\\', 't']
    } else if c == '\x08' {
        seq!['\\', 'b']
    } else if c == '\x0c' {
        seq!['\\', 'f']
    } else if (c as u32) < 0x20 {
        seq!['\\', 'u', '0', '0', spec_hex_digit((c as u32) / 16), spec_hex_digit((c as u32) % 16)]
    } else {
        seq![c]
    }
}

/// The escaped form of a sequence of characters.
pub open spec fn spec_escape(s: Seq<char>) -> Seq<char>
    decreases s.len(),
{
    if s.len() == 0 {
        Seq::empty()
    } else {
        spec_escape(s.drop_last()) + spec_escape_char(s.last())
    }
}

/// A JSON string literal holding `s`.
pub open spec fn spec_json_string(s: Seq<char>) -> Seq<char> {
    seq!['"'] + spec_escape(s) + seq!['"']
}

/// A lowercase hexadecimal digit for `n < 16`.
pub fn hex_digit(n: u32) -> (r: char)
    requires
        n < 16,
    ensures
        r == spec_hex_digit(n),
{
    match n {
        0 => '0',
        1 => '1',
        2 => '2',
        3 => '3',
        4 => '4',
        5 => '5',
        6 => '6',
        7 => '7',
        8 => '8',
        9 => '9',
        10 => 'a',
        11 => 'b',
        12 => 'c',
        13 => 'd',
        14 => 'e',
        _ => 'f',
    }
}

/// `String::push`: appends one character.
#[verifier::external_body]
pub(crate) fn push_char(s: &mut String, c: char)
    ensures
        final(s)@ == old(s)@.push(c),
{
    s.push(c);
}

/// `serde_json::to_string` on a string: the JSON string literal holding it, written
/// as `serde_json`'s escape table has it (`"` and `\` after a backslash; backspace,
/// tab, line feed, form feed and carriage return as `\b \t \n \f \r`; any other
/// character below U+0020 as `\u00` and two lowercase hex digits; everything else as
/// itself). Writing a `str` into memory does not fail, so the empty text for an error
/// is never returned.
#[verifier::external_body]
fn json_string(s: &str) -> (r: String)
    ensures
        r@ == spec_json_string(s@),
{
    match serde_json::to_string(s) {
        Ok(t) => t,
        Err(_) => String::new(),
    }
}

} // verus!

verus! {

/// The decimal digits of a number.
pub open spec fn spec_decimal(n: nat) -> Seq<char>
    decreases n,
{
    if n < 10 {
        seq![spec_hex_digit(n as u32)]
    } else {
        spec_decimal(n / 10) + seq![spec_hex_digit((n % 10) as u32)]
    }
}

/// The decimal text of a number, as `Display` renders it.
pub fn decimal_text(n: u64) -> (r: String)
    ensures
        r@ == spec_decimal(n as nat),
    decreases n,
{
    if n < 10 {
        let mut r = String::new();
        push_char(&mut r, hex_digit(n as u32));
        r
    } else {
        let mut r = decimal_text(n / 10);
        push_char(&mut r, hex_digit((n % 10) as u32));
        r
    }
}

/// Appends a JSON string literal holding `s`.
pub fn push_json_string(out: &mut String, s: &str)
    ensures
        final(out)@ == old(out)@ + spec_json_string(s@),
{
    let lit = json_string(s);
    out.append(lit.as_str());
}

} // verus!
