//! API keys.

use crate::client::{batch_uri, new_client};
use crate::http_types::{
    before_fragment, is_path_char, is_query_char, max_uri_len, origin_form,
};
use crate::protocol::batch_target;
use crate::query::{escaped, escaped_char, hex_digit, query_value};
use vstd::prelude::*;
use vstd::utf8::{encode_utf8, is_ascii_chars, is_ascii_chars_encode_utf8};

verus! {

/// The path of the batch target, which holds no query yet.
proof fn lemma_batch_path(value: Seq<char>)
    ensures
        batch_target(value).len() == 17 + value.len(),
        batch_target(value)[0] == '/',
        batch_target(value)[14] == '?',
        forall|i: int| 17 <= i < 17 + value.len() ==> #[trigger] batch_target(value)[i] == value[i
            - 17],
        forall|i: int|
            0 <= i < 14 ==> is_path_char(#[trigger] batch_target(value)[i])
                && batch_target(value)[i] != '?' && batch_target(value)[i] != '#',
        forall|i: int|
            14 < i < 17 ==> is_query_char(#[trigger] batch_target(value)[i])
                && batch_target(value)[i] != '#',
{
    reveal_strlit("/api/sendBatch?c=");
}

/// What is before the fragment of a concatenation whose first part has none.
proof fn lemma_before_fragment_concat(a: Seq<char>, b: Seq<char>)
    requires
        !a.contains('#'),
    ensures
        before_fragment(a + b) == a + before_fragment(b),
    decreases a.len(),
{
    if a.len() == 0 {
        assert(a + b == b);
    } else {
        assert((a + b).drop_first() == a.drop_first() + b);
        assert(a[0] != '#');
        assert forall|i: int| 0 <= i < a.drop_first().len() implies a.drop_first()[i] != '#' by {
            assert(a.drop_first()[i] == a[i + 1]);
        }
        lemma_before_fragment_concat(a.drop_first(), b);
        assert(seq![a[0]] + (a.drop_first() + before_fragment(b)) == a + before_fragment(b));
    }
}

/// What is before the fragment is a prefix of the text, up to the first `#`.
proof fn lemma_before_fragment(text: Seq<char>)
    ensures
        before_fragment(text).len() <= text.len(),
        before_fragment(text) == text.take(before_fragment(text).len() as int),
        !before_fragment(text).contains('#'),
        before_fragment(text).len() < text.len() ==> text[before_fragment(text).len() as int]
            == '#',
        !text.contains('#') ==> before_fragment(text) == text,
    decreases text.len(),
{
    if text.len() > 0 && text[0] != '#' {
        let rest = text.drop_first();
        lemma_before_fragment(rest);
        let n = before_fragment(rest).len() as int;
        assert(before_fragment(text) =~= text.take(n + 1)) by {
            assert(rest.take(n) =~= text.subrange(1, n + 1));
        }
        assert forall|i: int| 0 <= i < n + 1 implies before_fragment(text)[i] != '#' by {
            if i > 0 {
                assert(before_fragment(text)[i] == before_fragment(rest)[i - 1]);
            }
        }
        if before_fragment(text).len() < text.len() {
            assert(text.contains('#'));
        }
    }
}

/// Which values make a valid URI.
proof fn lemma_target(value: Seq<char>)
    ensures
        ({
            let kept = before_fragment(value);
            let fits = encode_utf8(batch_target(value)).len() <= max_uri_len();
            let valid = forall|i: int| 0 <= i < kept.len() ==> is_query_char(#[trigger] kept[i]);
            &&& origin_form(batch_target(value)) is Ok <==> fits && valid
            &&& origin_form(batch_target(value)) matches Ok(uri) ==> uri
                == batch_target(kept)
        }),
{
    let kept = before_fragment(value);
    let text = batch_target(kept);
    lemma_batch_path(kept);
    lemma_batch_path(Seq::empty());
    let path = "/api/sendBatch?c="@;
    assert(batch_target(Seq::empty()) == path);
    assert(!path.contains('#'));
    lemma_before_fragment_concat(path, value);
    assert(before_fragment(batch_target(value)) == text);
    assert forall|i: int| 0 <= i < text.len() implies #[trigger] text.take(i).contains('?') == (i
        > 14) by {
        if i > 14 {
            assert(text.take(i)[14] == '?');
        } else {
            assert(forall|j: int| 0 <= j < i ==> #[trigger] text.take(i)[j] == text[j]);
        }
    }
    assert(forall|i: int| 0 <= i < kept.len() ==> #[trigger] kept[i] == text[i + 17]);
}

/// A key is its part before the first `#`, then the rest escaped.
proof fn lemma_query_value(key: Seq<char>)
    ensures
        query_value(key) == before_fragment(key) + escaped(
            key.skip(before_fragment(key).len() as int),
        ),
    decreases key.len(),
{
    let n = before_fragment(key).len() as int;
    if key.len() == 0 || key[0] == '#' {
        assert(key.skip(n) == key);
    } else {
        lemma_query_value(key.drop_first());
        lemma_before_fragment(key);
        assert(key.drop_first().skip(n - 1) == key.skip(n));
        assert(query_value(key) =~= before_fragment(key) + escaped(key.skip(n)));
    }
}

/// A character, escaped: it may stand in a query, takes no fewer bytes than before, and can be
/// read.
proof fn lemma_escaped_char(c: char)
    ensures
        forall|i: int|
            0 <= i < escaped_char(c).len() ==> is_query_char(#[trigger] escaped_char(c)[i]),
        encode_utf8(seq![c]).len() <= encode_utf8(escaped_char(c)).len(),
        escaped_char(c) != seq![c] ==> {
            let text = escaped_char(c);
            &&& text.len() == 3
            &&& text[0] == '%'
            &&& (16 * hex_value(text[1]) + hex_value(text[2])) as char == c
        },
{
    if !is_query_char(c) || c == '%' {
        assert((c as u32) < 128);
        let high = c as u32 / 16;
        let low = c as u32 % 16;
        assert(hex_value(hex_digit(high)) == high);
        assert(hex_value(hex_digit(low)) == low);
        assert(is_ascii_chars(seq![c]));
        assert(is_ascii_chars(escaped_char(c)));
        is_ascii_chars_encode_utf8(seq![c]);
        is_ascii_chars_encode_utf8(escaped_char(c));
    }
}

/// Escaped text may stand in a query.
proof fn lemma_escaped_is_query(text: Seq<char>)
    ensures
        forall|i: int|
            0 <= i < escaped(text).len() ==> is_query_char(#[trigger] escaped(text)[i]),
    decreases text.len(),
{
    if text.len() > 0 {
        lemma_escaped_char(text[0]);
        lemma_escaped_is_query(text.drop_first());
        let n = escaped_char(text[0]).len() as int;
        assert forall|i: int| 0 <= i < escaped(text).len() implies is_query_char(
            #[trigger] escaped(text)[i],
        ) by {
            if i >= n {
                assert(escaped(text)[i] == escaped(text.drop_first())[i - n]);
            } else {
                assert(escaped(text)[i] == escaped_char(text[0])[i]);
            }
        }
    }
}

proof fn lemma_encode_utf8_concat(a: Seq<char>, b: Seq<char>)
    ensures
        encode_utf8(a + b) == encode_utf8(a) + encode_utf8(b),
    decreases a.len(),
{
    if a.len() == 0 {
        assert(a + b == b);
        assert(encode_utf8(a) + encode_utf8(b) == encode_utf8(b));
    } else {
        assert((a + b).drop_first() == a.drop_first() + b);
        lemma_encode_utf8_concat(a.drop_first(), b);
        assert(encode_utf8(a + b) =~= encode_utf8(a) + encode_utf8(b));
    }
}

/// Escaping makes no text shorter.
proof fn lemma_escaped_is_longer(text: Seq<char>)
    ensures
        encode_utf8(text).len() <= encode_utf8(escaped(text)).len(),
    decreases text.len(),
{
    if text.len() > 0 {
        let c = text[0];
        lemma_escaped_char(c);
        lemma_escaped_is_longer(text.drop_first());
        lemma_encode_utf8_concat(seq![c], text.drop_first());
        assert(seq![c] + text.drop_first() == text);
        lemma_encode_utf8_concat(escaped_char(c), escaped(text.drop_first()));
    }
}

/// The number that a hexadecimal digit stands for.
pub open spec fn hex_value(c: char) -> int {
    if c <= '9' {
        c as u32 - 48
    } else {
        c as u32 - 55
    }
}

/// A text with its escapes read.
pub open spec fn unescaped(text: Seq<char>) -> Seq<char>
    decreases text.len(),
{
    if text.len() == 0 {
        Seq::empty()
    } else if text[0] == '%' && text.len() >= 3 {
        seq![(16 * hex_value(text[1]) + hex_value(text[2])) as char] + unescaped(text.skip(3))
    } else {
        seq![text[0]] + unescaped(text.drop_first())
    }
}

/// Escaping loses nothing: reading the escapes gives back the text.
pub proof fn law_escapes_can_be_read(text: Seq<char>)
    ensures
        unescaped(escaped(text)) == text,
    decreases text.len(),
{
    if text.len() > 0 {
        let c = text[0];
        let rest = escaped(text.drop_first());
        law_escapes_can_be_read(text.drop_first());
        lemma_escaped_char(c);
        if escaped_char(c) == seq![c] {
            assert(escaped(text).drop_first() == rest);
        } else {
            assert(escaped(text).skip(3) == rest);
        }
        assert(seq![c] + text.drop_first() == text);
    }
}

/// An API key without a `#` is passed as it is.
pub proof fn law_plain_keys(api_key: Seq<char>)
    requires
        !api_key.contains('#'),
    ensures
        query_value(api_key) == api_key,
        batch_uri(api_key) == origin_form(batch_target(api_key)),
{
    lemma_before_fragment(api_key);
    lemma_query_value(api_key);
    assert(api_key.skip(api_key.len() as int).len() == 0);
}

/// Every API key is passed whole: up to its first `#` as it is, and from there on so that
/// reading the escapes gives it back.
pub proof fn law_keys_are_passed_whole(api_key: Seq<char>)
    ensures
        ({
            let n = before_fragment(api_key).len() as int;
            let value = query_value(api_key);
            &&& n <= value.len()
            &&& value.take(n) == api_key.take(n)
            &&& unescaped(value.skip(n)) == api_key.skip(n)
        }),
{
    let n = before_fragment(api_key).len() as int;
    lemma_before_fragment(api_key);
    lemma_query_value(api_key);
    law_escapes_can_be_read(api_key.skip(n));
    assert(query_value(api_key).skip(n) == escaped(api_key.skip(n)));
}

/// An API key is accepted exactly if all characters before its first `#` may stand in a query
/// and it is not too long for a URI.
pub proof fn law_accepted_keys(api_key: Seq<char>)
    ensures
        batch_uri(api_key) is Ok <==> {
            let kept = before_fragment(api_key);
            &&& forall|i: int| 0 <= i < kept.len() ==> is_query_char(#[trigger] kept[i])
            &&& encode_utf8(batch_target(query_value(api_key))).len() <= max_uri_len()
        },
        batch_uri(api_key) matches Ok(uri) ==> uri == batch_target(query_value(api_key)),
{
    let kept = before_fragment(api_key);
    let n = kept.len() as int;
    let rest = api_key.skip(n);
    let value = query_value(api_key);
    lemma_before_fragment(api_key);
    lemma_query_value(api_key);
    lemma_target(api_key);
    if api_key.contains('#') {
        lemma_escaped_is_query(rest);
        assert(!escaped(rest).contains('#'));
        lemma_before_fragment_concat(kept, escaped(rest));
        lemma_before_fragment(escaped(rest));
        assert(before_fragment(value) == value);
        lemma_target(value);
        assert(forall|i: int| 0 <= i < n ==> #[trigger] kept[i] == value[i]);
        assert forall|i: int| n <= i < value.len() implies is_query_char(#[trigger] value[i]) by {
            assert(value[i] == escaped(rest)[i - n]);
        }
        let path = "/api/sendBatch?c="@;
        assert(batch_target(api_key) == (path + kept) + rest);
        assert(batch_target(value) == (path + kept) + escaped(rest));
        lemma_encode_utf8_concat(path + kept, rest);
        lemma_encode_utf8_concat(path + kept, escaped(rest));
        lemma_escaped_is_longer(rest);
    } else {
        law_plain_keys(api_key);
    }
}

/// A client posts batches with the API key as `c`.
pub proof fn law_batch_uri(host: Seq<char>, port: u16, api_key: Seq<char>)
    ensures
        new_client(host, port, api_key) matches Ok(client) ==> client.batch_uri
            == "/api/sendBatch?c="@ + query_value(api_key),
{
    law_accepted_keys(api_key);
}

/// A character may stand in a query if it is visible ASCII other than `"`, `#`, `<` and `>`, or
/// no ASCII at all.
pub proof fn law_query_characters(c: char)
    ensures
        is_query_char(c) <==> {
            ||| 0x21 <= c as u32 <= 0x7e && c != '"' && c != '#' && c != '<' && c != '>'
            ||| c as u32 >= 0x80
        },
{
}

/// What escaping makes of one character: nothing where it may stand in a query and is no percent
/// sign, and else a percent sign and its code in two hexadecimal digits.
pub proof fn law_escaped_character(c: char)
    ensures
        is_query_char(c) && c != '%' ==> escaped(seq![c]) == seq![c],
        !is_query_char(c) || c == '%' ==> escaped(seq![c]) == seq![
            '%',
            "0123456789ABCDEF"@[(c as u32 / 16) as int],
            "0123456789ABCDEF"@[(c as u32 % 16) as int],
        ],
{
    reveal_with_fuel(escaped, 2);
    assert(seq![c].drop_first().len() == 0);
    assert(escaped(seq![c]) =~= escaped_char(c));
    if !is_query_char(c) || c == '%' {
        assert((c as u32) < 128);
        lemma_hex_digit(c as u32 / 16);
        lemma_hex_digit(c as u32 % 16);
    }
}

proof fn lemma_hex_digit(d: u32)
    requires
        d < 16,
    ensures
        hex_digit(d) == "0123456789ABCDEF"@[d as int],
{
    reveal_strlit("0123456789ABCDEF");
    let digits = "0123456789ABCDEF"@;
    assert(digits[0] == '0' && digits[1] == '1' && digits[2] == '2' && digits[3] == '3');
    assert(digits[4] == '4' && digits[5] == '5' && digits[6] == '6' && digits[7] == '7');
    assert(digits[8] == '8' && digits[9] == '9' && digits[10] == 'A' && digits[11] == 'B');
    assert(digits[12] == 'C' && digits[13] == 'D' && digits[14] == 'E' && digits[15] == 'F');
}

/// Escaping goes character by character: two texts, one after the other, escaped are the two
/// escaped texts.
pub proof fn law_escapes_concatenate(a: Seq<char>, b: Seq<char>)
    ensures
        escaped(a + b) == escaped(a) + escaped(b),
    decreases a.len(),
{
    if a.len() == 0 {
        assert(a + b == b);
    } else {
        assert((a + b).drop_first() == a.drop_first() + b);
        law_escapes_concatenate(a.drop_first(), b);
        assert(escaped(a + b) =~= escaped(a) + escaped(b));
    }
}

/// A key that holds a `#` is passed as it is before the first one, and escaped from there on.
pub proof fn law_keys_with_a_hash(before: Seq<char>, after: Seq<char>)
    requires
        !before.contains('#'),
    ensures
        query_value(before + seq!['#'] + after) == before + "%23"@ + escaped(after),
{
    let rest = seq!['#'] + after;
    let key = before + seq!['#'] + after;
    assert(key == before + rest);
    lemma_before_fragment_concat(before, rest);
    assert(before_fragment(key) == before);
    lemma_query_value(key);
    assert(key.skip(before.len() as int) == rest);
    law_escapes_concatenate(seq!['#'], after);
    law_escaped_character('#');
    reveal_strlit("%23");
    reveal_strlit("0123456789ABCDEF");
    assert(escaped(seq!['#']) =~= "%23"@);
}

/// What becomes of an API key, in this order. One that is too long for a URI is an error, and so
/// is one with a character before the first `#` that may not stand in a query. One that is too
/// long once it is escaped is an error too. Every other key is accepted, and passed as `c`.
pub proof fn law_key_outcome(api_key: Seq<char>)
    ensures
        ({
            let path = "/api/sendBatch?c="@;
            let valid = forall|i: int|
                #![trigger api_key[i]]
                0 <= i < api_key.len() && !api_key.take(i + 1).contains('#') ==> is_query_char(
                    api_key[i],
                );
            let value = query_value(api_key);
            batch_uri(api_key) == if encode_utf8(path + api_key).len() > 65_534 {
                Err::<Seq<char>, Seq<char>>("uri too long"@)
            } else if !valid {
                Err("invalid uri character"@)
            } else if encode_utf8(path + value).len() > 65_534 {
                Err("uri too long"@)
            } else {
                Ok(path + value)
            }
        }),
{
    let kept = before_fragment(api_key);
    let n = kept.len() as int;
    lemma_before_fragment(api_key);
    lemma_target(api_key);
    law_accepted_keys(api_key);
    assert forall|i: int| 0 <= i < api_key.len() implies #[trigger] api_key.take(i + 1).contains('#')
        == (i >= n) by {
        if i >= n {
            assert(api_key.take(i + 1)[n] == '#');
        } else {
            assert(forall|j: int|
                0 <= j < i + 1 ==> #[trigger] api_key.take(i + 1)[j] == kept[j]);
        }
    }
    let valid = forall|i: int|
        #![trigger api_key[i]]
        0 <= i < api_key.len() && !api_key.take(i + 1).contains('#') ==> is_query_char(api_key[i]);
    assert(valid <==> forall|i: int| 0 <= i < n ==> is_query_char(#[trigger] kept[i])) by {
        assert(forall|i: int| 0 <= i < n ==> #[trigger] kept[i] == api_key[i]);
        assert(forall|i: int| 0 <= i < n ==> #[trigger] api_key[i] == kept[i]);
    }
    if !api_key.contains('#') {
        law_plain_keys(api_key);
    } else if valid && encode_utf8(batch_target(api_key)).len() <= 65_534 {
        assert(origin_form(batch_target(api_key)) is Ok);
        assert(encode_utf8(batch_target(query_value(api_key))).len() > max_uri_len()
            || batch_uri(api_key) is Ok);
    }
}

} // verus!
