use vstd::prelude::*;
use crate::commands::views;
use crate::text::digit_char;

verus! {

/// How one character is written inside a JSON string: `"` and `\` and the
/// control characters below 0x20 are escaped, the short forms where JSON
/// has them and `\u00XX` with lower-case hex otherwise; every other
/// character stands for itself.
pub open spec fn json_escape_char(c: char) -> Seq<char> {
    let v = c as u32;
    if c == '"' {
        seq!['\\', '"']
    } else if c == '\\' {
        seq!['\\', '\\']
    } else if v == 8 {
        seq!['\\', 'b']
    } else if v == 9 {
        seq!['\\', 't']
    } else if v == 10 {
        seq!['\\', 'n']
    } else if v == 12 {
        seq!['\\', 'f']
    } else if v == 13 {
        seq!['\\', 'r']
    } else if v < 32 {
        seq!['\\', 'u', '0', '0', digit_char((v / 16) as nat), digit_char((v % 16) as nat)]
    } else {
        seq![c]
    }
}

pub open spec fn json_escaped(s: Seq<char>) -> Seq<char>
    decreases s.len(),
{
    if s.len() == 0 {
        Seq::empty()
    } else {
        json_escaped(s.drop_last()) + json_escape_char(s.last())
    }
}

/// A JSON string holding `s`.
pub open spec fn json_string(s: Seq<char>) -> Seq<char> {
    seq!['"'] + json_escaped(s) + seq!['"']
}

/// The encoded items separated by commas.
pub open spec fn json_items(items: Seq<Seq<char>>) -> Seq<char>
    decreases items.len(),
{
    if items.len() == 0 {
        Seq::empty()
    } else if items.len() == 1 {
        items[0]
    } else {
        json_items(items.drop_last()) + seq![','] + items.last()
    }
}

/// A compact JSON array of strings.
pub open spec fn json_string_list(items: Seq<Seq<char>>) -> Seq<char> {
    seq!['['] + json_items(items.map_values(|s: Seq<char>| json_string(s))) + seq![']']
}

/// A compact two-element JSON array of strings.
pub open spec fn json_pair(p: (Seq<char>, Seq<char>)) -> Seq<char> {
    seq!['['] + json_string(p.0) + seq![','] + json_string(p.1) + seq![']']
}

/// A compact JSON array of two-element string arrays.
pub open spec fn json_pair_list(items: Seq<(Seq<char>, Seq<char>)>) -> Seq<char> {
    seq!['['] + json_items(items.map_values(|p: (Seq<char>, Seq<char>)| json_pair(p))) + seq![']']
}

pub open spec fn pair_views(v: Seq<(String, String)>) -> Seq<(Seq<char>, Seq<char>)> {
    v.map_values(|p: (String, String)| (p.0@, p.1@))
}

/// Relies on `serde_json::to_string` for `str`: the compact serializer
/// writes the string quoted, escaping as `json_escape_char` says
/// (`ser.rs`, `format_escaped_str_contents` and the `ESCAPE` table), into a
/// `Vec` that cannot fail.
#[verifier::external_body]
pub(crate) fn encode_str(s: &str) -> (r: Option<String>)
    ensures
        r is Some,
        r->Some_0@ == json_string(s@),
{
    serde_json::to_string(s).ok()
}

/// Relies on `serde_json::to_string` for a list of strings: `[`, the
/// strings as JSON strings separated by `,`, then `]`; it cannot fail.
#[verifier::external_body]
pub(crate) fn encode_list(items: &Vec<String>) -> (r: Option<String>)
    ensures
        r is Some,
        r->Some_0@ == json_string_list(views(items@)),
{
    serde_json::to_string(items).ok()
}

/// Relies on `serde_json::to_string` for a list of string pairs: each pair
/// is a tuple, written as a two-element array; it cannot fail.
#[verifier::external_body]
pub(crate) fn encode_pairs(items: &Vec<(String, String)>) -> (r: Option<String>)
    ensures
        r is Some,
        r->Some_0@ == json_pair_list(pair_views(items@)),
{
    serde_json::to_string(items).ok()
}

/// `s` as a JSON string.
pub fn json_quote(s: &str) -> (r: String)
    ensures
        r@ == json_string(s@),
{
    match encode_str(s) {
        Some(t) => t,
        None => String::new(),
    }
}

/// `items` as a JSON array of strings.
pub fn json_list(items: &Vec<String>) -> (r: String)
    ensures
        r@ == json_string_list(views(items@)),
{
    match encode_list(items) {
        Some(t) => t,
        None => String::new(),
    }
}

/// `items` as a JSON array of two-element string arrays.
pub fn json_pairs(items: &Vec<(String, String)>) -> (r: String)
    ensures
        r@ == json_pair_list(pair_views(items@)),
{
    match encode_pairs(items) {
        Some(t) => t,
        None => String::new(),
    }
}

} // verus!
