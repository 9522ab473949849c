//! JSON text of event payloads.
//!
//! Payloads are flat objects whose values are strings and integers. String values are
//! quoted and escaped by serde_json; the library writes the braces, keys, colons, commas and
//! integers itself, with keys in the order in which serde_json writes the keys of a
//! `serde_json::Value` object (sorted).

use vstd::prelude::*;

use crate::text::{decimal_int, digit_char, i64_to_decimal};

verus! {

/// A lowercase hexadecimal digit.
pub open spec fn hex_lower(d: nat) -> char {
    if d < 10 {
        digit_char(d)
    } else if d == 10 {
        'a'
    } else if d == 11 {
        'b'
    } else if d == 12 {
        'c'
    } else if d == 13 {
        'd'
    } else if d == 14 {
        'e'
    } else {
        'f'
    }
}

/// How serde_json writes one character inside a string: `"` and `\` behind a backslash,
/// backspace, tab, line feed, form feed and carriage return as `\b`, `\t`, `\n`, `\f`, `\r`,
/// the other control characters below U+0020 as `\u00` and two lowercase hexadecimal digits,
/// and every other character as itself.
pub open spec fn json_char(c: char) -> Seq<char> {
    if c == '"' {
        seq!['\\', '"']
    } else if c == '\\' {
        seq!['\\', '\\']
    } else if c == '\u{8}' {
        seq!['\\', 'b']
    } else if c == '\t' {
        seq!['\\', 't']
    } else if c == '\n' {
        seq!['\\', 'n']
    } else if c == '\u{c}' {
        seq!['\\', 'f']
    } else if c == '\r' {
        seq!['\\', 'r']
    } else if (c as u32) < 0x20 {
        seq!['\\', 'u', '0', '0', hex_lower((c as u32 / 16) as nat), hex_lower((c as u32 % 16) as nat)]
    } else {
        seq![c]
    }
}

/// The escaped characters of a string, in order.
pub open spec fn json_chars(s: Seq<char>) -> Seq<char>
    decreases s.len(),
{
    if s.len() == 0 {
        Seq::empty()
    } else {
        json_chars(s.drop_last()) + json_char(s.last())
    }
}

/// The JSON text of the string `s`, as serde_json writes it: quoted and escaped.
pub open spec fn json_string_text(s: Seq<char>) -> Seq<char> {
    seq!['"'] + json_chars(s) + seq!['"']
}

/// Writes `s` as a JSON string with serde_json (`Value::String(..).to_string()`, the compact
/// form). serde_json's serializer writes the quotes and escapes each character through its
/// table of escapes, as `json_char` states.
#[verifier::external_body]
pub(crate) fn json_string(s: &str) -> (r: String)
    ensures
        r@ == json_string_text(s@),
{
    serde_json::Value::String(s.to_string()).to_string()
}

/// What stands before a member of an object: nothing before the first, a comma otherwise.
pub open spec fn sep(first: bool) -> Seq<char> {
    if first {
        Seq::empty()
    } else {
        ","@
    }
}

/// The text of one member of an object: the key in quotes, a colon and the value's text.
pub open spec fn member(key: Seq<char>, value: Seq<char>) -> Seq<char> {
    "\""@ + key + "\":"@ + value
}

/// The JSON text of a string value.
pub open spec fn str_value(s: Seq<char>) -> Seq<char> {
    json_string_text(s)
}

/// The JSON text of an integer value.
pub open spec fn int_value(n: int) -> Seq<char> {
    decimal_int(n)
}

/// Appends a member to an object under construction; `first` tells whether it is the first
/// one (no comma before it).
pub(crate) fn push_member(out: &mut String, first: bool, key: &str, value: &str)
    ensures
        final(out)@ == old(out)@ + sep(first) + member(key@, value@),
{
    let ghost start = out@;
    if !first {
        out.append(",");
    }
    let ghost mid = out@;
    out.append("\"");
    out.append(key);
    out.append("\":");
    out.append(value);
    proof {
        if first {
            assert(mid =~= start + sep(first));
        }
        assert(out@ =~= start + sep(first) + member(key@, value@));
    }
}

/// Appends a member whose value is a string.
pub(crate) fn push_str_member(out: &mut String, first: bool, key: &str, value: &str)
    ensures
        final(out)@ == old(out)@ + sep(first) + member(key@, str_value(value@)),
{
    let v = json_string(value);
    push_member(out, first, key, v.as_str());
}

/// Appends a member whose value is an integer.
pub(crate) fn push_int_member(out: &mut String, first: bool, key: &str, value: i64)
    ensures
        final(out)@ == old(out)@ + sep(first) + member(key@, int_value(value as int)),
{
    let v = i64_to_decimal(value);
    push_member(out, first, key, v.as_str());
}

} // verus!
