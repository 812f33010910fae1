//! API keys as the value of a query parameter.

use crate::http_types::is_query_char;
use vstd::prelude::*;

verus! {

/// The hexadecimal digit of `d`.
pub open spec fn hex_digit(d: u32) -> char {
    if d < 10 {
        (48 + d) as char
    } else {
        (55 + d) as char
    }
}

/// A character, percent-escaped unless it may stand in a query. The percent sign is escaped too.
pub open spec fn escaped_char(c: char) -> Seq<char> {
    if is_query_char(c) && c != '%' {
        seq![c]
    } else {
        seq!['%', hex_digit(c as u32 / 16), hex_digit(c as u32 % 16)]
    }
}

/// A text, each character escaped where it needs to be.
pub open spec fn escaped(text: Seq<char>) -> Seq<char>
    decreases text.len(),
{
    if text.len() == 0 {
        Seq::empty()
    } else {
        escaped_char(text[0]) + escaped(text.drop_first())
    }
}

/// A key as the value of a query parameter: as it is, but from the first `#` on, where the
/// query would end, escaped.
pub open spec fn query_value(key: Seq<char>) -> Seq<char>
    decreases key.len(),
{
    if key.len() == 0 {
        Seq::empty()
    } else if key[0] == '#' {
        escaped(key)
    } else {
        seq![key[0]] + query_value(key.drop_first())
    }
}

/// `String::push`: the character comes last.
pub assume_specification[ String::push ](s: &mut String, c: char)
    ensures
        final(s)@ == old(s)@.push(c),
;

/// Whether a character may stand in the query of a URI.
fn may_stand_in_query(c: char) -> (r: bool)
    ensures
        r == is_query_char(c),
{
    c == '!' || c == '=' || ('$' <= c && c <= ';') || ('?' <= c && c <= '~') || '\u{80}' <= c
}

fn hex_char(d: u8) -> (c: char)
    requires
        d < 16,
    ensures
        c == hex_digit(d as u32),
{
    if d < 10 {
        (48 + d) as char
    } else {
        (55 + d) as char
    }
}

/// Appends a character, escaped where it needs to be.
fn push_escaped(out: &mut String, c: char)
    ensures
        final(out)@ == old(out)@ + escaped_char(c),
{
    if may_stand_in_query(c) && c != '%' {
        out.push(c);
    } else {
        let code: u8 = c as u8;
        out.push('%');
        out.push(hex_char(code / 16));
        out.push(hex_char(code % 16));
    }
}

/// Writes a key as the value of a query parameter.
pub fn query_text(key: &str) -> (value: String)
    ensures
        value@ == query_value(key@),
{
    let mut value: String = String::new();
    let mut cut: bool = false;
    assert(key@.skip(0) == key@);
    for c in it: key.chars()
        invariant
            it.seq() == key@,
            value@ + (if cut {
                escaped(key@.skip(it.index()))
            } else {
                query_value(key@.skip(it.index()))
            }) == query_value(key@),
    {
        proof {
            let rest = key@.skip(it.index());
            assert(rest[0] == c);
            assert(rest.drop_first() == key@.skip(it.index() + 1));
        }
        cut = cut || c == '#';
        if cut {
            push_escaped(&mut value, c);
        } else {
            value.push(c);
        }
    }
    assert(key@.skip(key@.len() as int).len() == 0);
    value
}

} // verus!
