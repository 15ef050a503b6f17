//! JSON text: what the relay reads from and writes to the wire. The relay
//! takes JSON apart one level at a time: an array into the texts of its
//! items, an object into its keys and the texts of their values, a string
//! into its value.
use crate::text::digit_char;
use vstd::prelude::*;

verus! {

/// The items of the JSON array that `text` holds, each as compact JSON
/// text; nothing where `text` is not one JSON array.
pub uninterp spec fn json_array(text: Seq<char>) -> Option<Seq<Seq<char>>>;

/// The members of the JSON object that `text` holds, each key with the
/// compact JSON text of its value; nothing where `text` is not one JSON
/// object.
pub uninterp spec fn json_object(text: Seq<char>) -> Option<Seq<(Seq<char>, Seq<char>)>>;

/// The value of the JSON string that `text` holds; nothing where `text` is
/// not one JSON string.
pub uninterp spec fn json_text(text: Seq<char>) -> Option<Seq<char>>;

/// The hexadecimal digit, in lower case, that stands for `d`, for `d` below
/// sixteen.
pub open spec fn hex_digit(d: int) -> char {
    if d < 10 {
        digit_char(d as nat)
    } else if d == 10 {
        'a'
    } else if d == 11 {
        'b'
    } else if d == 12 {
        'c'
    } else if d == 13 {
        'd'
    } else if d == 14 {
        'e'
    } else {
        'f'
    }
}

/// What stands for one character inside a JSON string literal: the quote
/// and the backslash behind a backslash, the control characters as their
/// short escape where they have one and as `\u00` with two hexadecimal
/// digits where they have none, every other character as it is.
pub open spec fn escaped(c: char) -> Seq<char> {
    if c == '"' {
        seq!['\\', '"']
    } else if c == '\\' {
        seq!['\\', '\\']
    } else if c == '\u{8}' {
        seq!['\\', 'b']
    } else if c == '\t' {
        seq!['\\', 't']
    } else if c == '\n' {
        seq!['\\', 'n']
    } else if c == '\u{c}' {
        seq!['\\', 'f']
    } else if c == '\r' {
        seq!['\\', 'r']
    } else if (c as u32) < 0x20 {
        seq!['\\', 'u', '0', '0', hex_digit((c as u32 / 16) as int), hex_digit((c as u32 % 16) as int)]
    } else {
        seq![c]
    }
}

/// The characters of `s` as they stand inside a JSON string literal.
pub open spec fn escaped_text(s: Seq<char>) -> Seq<char>
    decreases s.len(),
{
    if s.len() == 0 {
        Seq::empty()
    } else {
        escaped_text(s.drop_last()) + escaped(s.last())
    }
}

/// Whether a character stands for itself inside a JSON string literal.
pub open spec fn is_plain(c: char) -> bool {
    c != '"' && c != '\\' && (c as u32) >= 0x20
}

/// A text of plain characters stands for itself inside a JSON string
/// literal.
pub proof fn lemma_plain_text(s: Seq<char>)
    requires
        forall|i: int| 0 <= i < s.len() ==> is_plain(#[trigger] s[i]),
    ensures
        escaped_text(s) == s,
        json_string(s) == seq!['"'] + s + seq!['"'],
    decreases s.len(),
{
    if s.len() > 0 {
        lemma_plain_text(s.drop_last());
        assert(s.drop_last() + seq![s.last()] =~= s);
    }
}

/// The JSON string literal that stands for `s`: its characters, escaped,
/// between double quotes.
pub open spec fn json_string(s: Seq<char>) -> Seq<char> {
    seq!['"'] + escaped_text(s) + seq!['"']
}

/// `serde_json::from_str` into a list of `serde_json::Value`, each item
/// then written out by `Value`'s `Display`. The contract names the result
/// `json_array` of the text and says nothing more of it.
#[verifier::external_body]
pub(crate) fn array_items(text: &str) -> (r: Option<Vec<String>>)
    ensures
        r.deep_view() == json_array(text@),
{
    let items = serde_json::from_str::<Vec<serde_json::Value>>(text).ok()?;
    Some(items.iter().map(|v| v.to_string()).collect())
}

/// `serde_json::from_str` into a `serde_json::Map`, each value then written
/// out by `Value`'s `Display`. The contract names the result `json_object`
/// of the text and says nothing more of it.
#[verifier::external_body]
pub(crate) fn object_members(text: &str) -> (r: Option<Vec<(String, String)>>)
    ensures
        r.deep_view() == json_object(text@),
{
    let map = serde_json::from_str::<serde_json::Map<String, serde_json::Value>>(text).ok()?;
    Some(map.iter().map(|(k, v)| (k.clone(), v.to_string())).collect())
}

/// `serde_json::from_str` into a `String`. The contract names the result
/// `json_text` of the text and says nothing more of it.
#[verifier::external_body]
pub(crate) fn string_value(text: &str) -> (r: Option<String>)
    ensures
        r.deep_view() == json_text(text@),
{
    serde_json::from_str::<String>(text).ok()
}

/// `Display` of `serde_json::Value` on a `Value::String`: the compact JSON
/// text of a string. The contract states that text in full, as the crate's
/// table of escapes gives it: a string literal in double quotes in which
/// only the quote, the backslash and the characters below the space are
/// escaped.
#[verifier::external_body]
pub(crate) fn quote(s: &str) -> (out: String)
    ensures
        out@ == json_string(s@),
{
    serde_json::Value::String(s.to_owned()).to_string()
}

} // verus!
