//! Compact JSON text, as `serde_json` prints a value: the payloads that the
//! library hands to page scripts.
use vstd::prelude::*;

use crate::text::{dec_digits, hex_digit, push_char, push_str};

verus! {

/// How `serde_json` writes one character inside a string literal.
pub open spec fn json_escape_char(c: char) -> Seq<char> {
    if c == '"' {
        seq!['\\', '"']
    } else if c == '\\' {
        seq!['\\', '\\']
    } else if c == '\x08' {
        seq!['\\', 'b']
    } else if c == '\t' {
        seq!['\\', 't']
    } else if c == '\n' {
        seq!['\\', 'n']
    } else if c == '\x0C' {
        seq!['\\', 'f']
    } else if c == '\r' {
        seq!['\\', 'r']
    } else if (c as u32) < 0x20 {
        seq!['\\', 'u', '0', '0', hex_digit((c as int) / 16), hex_digit((c as int) % 16)]
    } else {
        seq![c]
    }
}

/// The escaped body of a JSON string literal.
pub open spec fn json_escape(s: Seq<char>) -> Seq<char>
    decreases s.len(),
{
    if s.len() == 0 {
        Seq::empty()
    } else {
        json_escape(s.drop_last()) + json_escape_char(s.last())
    }
}

/// A JSON string literal holding `s`.
pub open spec fn json_quote(s: Seq<char>) -> Seq<char> {
    seq!['"'] + json_escape(s) + seq!['"']
}

/// `parts` separated by commas.
pub open spec fn join_commas(parts: Seq<Seq<char>>) -> Seq<char>
    decreases parts.len(),
{
    if parts.len() == 0 {
        Seq::empty()
    } else if parts.len() == 1 {
        parts[0]
    } else {
        join_commas(parts.drop_last()) + seq![','] + parts.last()
    }
}

/// One `"key":value` member of an object.
pub open spec fn member_text(key: Seq<char>, value: Seq<char>) -> Seq<char> {
    json_quote(key) + seq![':'] + value
}

/// An object made of already written members.
pub open spec fn object_text(members: Seq<Seq<char>>) -> Seq<char> {
    seq!['{'] + join_commas(members) + seq!['}']
}

/// An array made of already written items.
pub open spec fn array_text(items: Seq<Seq<char>>) -> Seq<char> {
    seq!['['] + join_commas(items) + seq![']']
}

pub open spec fn bool_text(b: bool) -> Seq<char> {
    if b {
        "true"@
    } else {
        "false"@
    }
}

/// `null` for `None`, the string literal otherwise.
pub open spec fn opt_str_text(s: Option<Seq<char>>) -> Seq<char> {
    match s {
        Some(t) => json_quote(t),
        None => "null"@,
    }
}

/// The views of a vector of strings.
pub open spec fn views(v: Seq<String>) -> Seq<Seq<char>> {
    v.map_values(|s: String| s@)
}

/// `serde_json::Value::String` printed with `to_string`: the string as a
/// JSON literal, escaped by the table in `serde_json`'s `ser.rs` (quote,
/// backslash, `\b \t \n \f \r`, other control characters as `\u00xx` in lower
/// case; nothing else is escaped).
#[verifier::external_body]
pub(crate) fn quote_json(s: &str) -> (r: String)
    ensures
        r@ == json_quote(s@),
{
    serde_json::Value::String(s.to_string()).to_string()
}

/// Decimal digits of a 128-bit number.
pub fn dec_string_u128(n: u128) -> (r: String)
    ensures
        r@ == dec_digits(n as nat),
    decreases n,
{
    if n < 10 {
        let mut r = String::new();
        push_char(&mut r, digit_char(n));
        r
    } else {
        let mut r = dec_string_u128(n / 10);
        push_char(&mut r, digit_char(n % 10));
        r
    }
}

fn digit_char(d: u128) -> (c: char)
    requires
        d < 10,
    ensures
        c == hex_digit(d as int),
{
    if d == 0 { '0' }
    else if d == 1 { '1' }
    else if d == 2 { '2' }
    else if d == 3 { '3' }
    else if d == 4 { '4' }
    else if d == 5 { '5' }
    else if d == 6 { '6' }
    else if d == 7 { '7' }
    else if d == 8 { '8' }
    else { '9' }
}

pub fn bool_json(b: bool) -> (r: &'static str)
    ensures
        r@ == bool_text(b),
{
    if b {
        "true"
    } else {
        "false"
    }
}

/// The view of an optional string slice.
pub open spec fn opt_str_view(s: Option<&str>) -> Option<Seq<char>> {
    match s {
        Some(t) => Some(t@),
        None => None,
    }
}

pub fn opt_str_json(s: Option<&str>) -> (r: String)
    ensures
        r@ == opt_str_text(opt_str_view(s)),
{
    match s {
        Some(t) => quote_json(t),
        None => {
            let mut r = String::new();
            push_str(&mut r, "null");
            r
        },
    }
}

proof fn lemma_join_step(parts: Seq<Seq<char>>, i: int)
    requires
        0 <= i < parts.len(),
    ensures
        join_commas(parts.take(i + 1)) == if i == 0 {
            parts[0]
        } else {
            join_commas(parts.take(i)) + seq![','] + parts[i]
        },
{
    assert(parts.take(i + 1).drop_last() == parts.take(i));
    assert(parts.take(i + 1).last() == parts[i]);
}

/// Appends `parts` separated by commas.
pub fn push_joined(out: &mut String, parts: &Vec<String>)
    ensures
        final(out)@ == old(out)@ + join_commas(views(parts@)),
{
    let ghost start = out@;
    let ghost vs = views(parts@);
    let mut i: usize = 0;
    while i < parts.len()
        invariant
            i <= parts.len(),
            vs == views(parts@),
            out@ == start + join_commas(vs.take(i as int)),
        decreases parts.len() - i,
    {
        proof {
            lemma_join_step(vs, i as int);
        }
        if i > 0 {
            push_char(out, ',');
        }
        push_str(out, parts[i].as_str());
        assert(vs[i as int] == parts@[i as int]@);
        i = i + 1;
    }
    assert(vs.take(vs.len() as int) == vs);
}

/// `"key":value`, where `value` is already JSON text.
pub fn json_member(key: &str, value: &str) -> (r: String)
    ensures
        r@ == member_text(key@, value@),
{
    let mut r = quote_json(key);
    push_char(&mut r, ':');
    push_str(&mut r, value);
    r
}

/// An object of the given members, in the given order.
pub fn json_object(members: &Vec<String>) -> (r: String)
    ensures
        r@ == object_text(views(members@)),
{
    let mut r = String::new();
    push_char(&mut r, '{');
    push_joined(&mut r, members);
    push_char(&mut r, '}');
    r
}

/// An array of the given items, in the given order.
pub fn json_array(items: &Vec<String>) -> (r: String)
    ensures
        r@ == array_text(views(items@)),
{
    let mut r = String::new();
    push_char(&mut r, '[');
    push_joined(&mut r, items);
    push_char(&mut r, ']');
    r
}

/// An array of string literals.
pub fn json_str_array(items: &Vec<&str>) -> (r: String)
    ensures
        r@ == array_text(Seq::new(items@.len(), |k: int| json_quote(items@[k]@))),
{
    let mut quoted: Vec<String> = Vec::new();
    let mut i: usize = 0;
    while i < items.len()
        invariant
            i <= items.len(),
            quoted@.len() == i,
            forall|k: int| 0 <= k < i ==> (#[trigger] quoted@[k])@ == json_quote(items@[k]@),
        decreases items.len() - i,
    {
        quoted.push(quote_json(items[i]));
        i = i + 1;
    }
    let r = json_array(&quoted);
    assert(views(quoted@) =~= Seq::new(items@.len(), |k: int| json_quote(items@[k]@)));
    r
}

} // verus!
