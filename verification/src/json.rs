//! JSON: objects with one text, and lists of texts.

use crate::text;
use vstd::prelude::*;

verus! {

/// Whether the text stands in a JSON string as it is, without escapes.
pub open spec fn json_plain(s: Seq<char>) -> bool {
    forall|i: int| 0 <= i < s.len() ==> stands_for_itself(#[trigger] s[i])
}

/// Whether the character stands in a JSON string as it is.
pub open spec fn stands_for_itself(c: char) -> bool {
    ' ' <= c && c != '"' && c != '\\'
}

/// The JSON object with one text under one key, where neither needs escapes.
pub open spec fn json_object(key: Seq<char>, value: Seq<char>) -> Seq<char> {
    seq!['{', '"'] + key + seq!['"', ':', '"'] + value + seq!['"', '}']
}

/// `serde_json::to_string` for a map with one entry, of texts that need no
/// escapes.
#[verifier::external_body]
pub(crate) fn json_object_text(key: &str, value: &str) -> (s: String)
    requires
        json_plain(key@),
        json_plain(value@),
    ensures
        s@ == json_object(key@, value@),
{
    serde_json::to_string(&std::collections::BTreeMap::from([(key, value)])).expect("a map of texts")
}

/// The character that stands behind a backslash for another one.
pub open spec fn short_escape(c: char) -> Option<char> {
    if c == '"' || c == '\\' || c == '/' {
        Some(c)
    } else if c == 'b' {
        Some(8nat as char)
    } else if c == 't' {
        Some(9nat as char)
    } else if c == 'n' {
        Some(10nat as char)
    } else if c == 'f' {
        Some(12nat as char)
    } else if c == 'r' {
        Some(13nat as char)
    } else {
        None
    }
}

/// The number that `\u` and four hexadecimal digits name.
pub open spec fn code_unit(e: Seq<char>) -> Option<nat> {
    if e.len() == 6 && e[0] == '\\' && e[1] == 'u' && text::nibble_value(e[2]) is Some
        && text::nibble_value(e[3]) is Some && text::nibble_value(e[4]) is Some
        && text::nibble_value(e[5]) is Some {
        Some(
            text::nibble_value(e[2])->0 * 0x1000 + text::nibble_value(e[3])->0 * 0x100
                + text::nibble_value(e[4])->0 * 0x10 + text::nibble_value(e[5])->0,
        )
    } else {
        None
    }
}

/// The number that a pair of surrogates stands for.
pub open spec fn surrogate_pair(high: Option<nat>, low: Option<nat>) -> Option<nat> {
    match (high, low) {
        (Some(high), Some(low)) => if 0xD800 <= high <= 0xDBFF && 0xDC00 <= low <= 0xDFFF {
            Some((0x10000 + (high - 0xD800) * 0x400 + (low - 0xDC00)) as nat)
        } else {
            None
        },
        _ => None,
    }
}

/// Whether `e` is a way to write the character `c` in a JSON string: as it is,
/// behind a backslash, by its number, or by a pair of surrogates.
pub open spec fn written_as(c: char, e: Seq<char>) -> bool {
    ||| e.len() == 1 && e[0] == c && stands_for_itself(c)
    ||| e.len() == 2 && e[0] == '\\' && short_escape(e[1]) == Some(c)
    ||| e.len() == 6 && code_unit(e) == Some(c as nat)
    ||| e.len() == 12 && surrogate_pair(code_unit(e.take(6)), code_unit(e.skip(6))) == Some(
        c as nat,
    )
}

/// Whether `s` holds, behind an opening quote, the rest of a JSON string that
/// says `t`, and then `rest`.
pub open spec fn string_then(s: Seq<char>, t: Seq<char>, rest: Seq<char>) -> bool
    decreases t.len(),
{
    if t.len() == 0 {
        s.len() > 0 && s[0] == '"' && rest == s.skip(1)
    } else {
        exists|n: int|
            {
                &&& 0 <= n <= s.len()
                &&& #[trigger] written_as(t[0], s.take(n))
                &&& string_then(s.skip(n), t.skip(1), rest)
            }
    }
}

/// The text without the blanks at its start.
pub open spec fn after_blanks(s: Seq<char>) -> Seq<char>
    decreases s.len(),
{
    if s.len() > 0 && (s[0] == ' ' || s[0] == '\n' || s[0] == '\t' || s[0] == '\r') {
        after_blanks(s.skip(1))
    } else {
        s
    }
}

/// Whether `s` is a closing bracket, with nothing but blanks behind it.
pub open spec fn list_ends(s: Seq<char>) -> bool {
    s.len() > 0 && s[0] == ']' && after_blanks(s.skip(1)).len() == 0
}

/// Whether `s` holds JSON strings that say the items, of which there is at
/// least one, with commas between them, and then the end of a list.
pub open spec fn items_then_end(s: Seq<char>, items: Seq<Seq<char>>) -> bool
    decreases items.len(),
{
    items.len() > 0 && s.len() > 0 && s[0] == '"' && exists|rest: Seq<char>|
        {
            &&& #[trigger] string_then(s.skip(1), items[0], rest)
            &&& if items.len() == 1 {
                list_ends(after_blanks(rest))
            } else {
                let next = after_blanks(rest);
                next.len() > 0 && next[0] == ',' && items_then_end(
                    after_blanks(next.skip(1)),
                    items.skip(1),
                )
            }
        }
}

/// Whether `s` is a JSON list of strings that say the items.
pub open spec fn is_json_list(s: Seq<char>, items: Seq<Seq<char>>) -> bool {
    let list = after_blanks(s);
    let inside = after_blanks(list.skip(1));
    list.len() > 0 && list[0] == '[' && if items.len() == 0 {
        list_ends(inside)
    } else {
        items_then_end(inside, items)
    }
}

/// No text starts with two different ways to write a character.
proof fn one_way_to_write(s: Seq<char>, c: char, d: char, n: int, m: int)
    requires
        0 <= n <= s.len(),
        0 <= m <= s.len(),
        written_as(c, s.take(n)),
        written_as(d, s.take(m)),
    ensures
        n == m,
        c == d,
        n > 0,
        s[0] != '"',
{
    let (e, f) = (s.take(n), s.take(m));
    assert(e[0] == s[0] && f[0] == s[0]);
    if n >= 2 {
        assert(e[1] == s[1]);
    }
    if m >= 2 {
        assert(f[1] == s[1]);
    }
    if n >= 6 && m >= 6 {
        assert(e.take(6) =~= s.take(6));
        assert(f.take(6) =~= s.take(6));
        assert(n == 6 ==> e =~= s.take(6));
        assert(m == 6 ==> f =~= s.take(6));
    }
    if n == 12 && m == 12 {
        assert(e.skip(6) =~= f.skip(6));
    }
}

/// No text holds two different JSON strings at its start.
proof fn one_string(s: Seq<char>, t: Seq<char>, u: Seq<char>, rest_t: Seq<char>, rest_u: Seq<char>)
    requires
        string_then(s, t, rest_t),
        string_then(s, u, rest_u),
    ensures
        t == u,
        rest_t == rest_u,
    decreases t.len(),
{
    if t.len() == 0 {
        if u.len() > 0 {
            let m = choose|m: int|
                {
                    &&& 0 <= m <= s.len()
                    &&& #[trigger] written_as(u[0], s.take(m))
                    &&& string_then(s.skip(m), u.skip(1), rest_u)
                };
            one_way_to_write(s, u[0], u[0], m, m);
        }
        assert(t =~= u);
    } else {
        let n = choose|n: int|
            {
                &&& 0 <= n <= s.len()
                &&& #[trigger] written_as(t[0], s.take(n))
                &&& string_then(s.skip(n), t.skip(1), rest_t)
            };
        if u.len() == 0 {
            one_way_to_write(s, t[0], t[0], n, n);
        } else {
            let m = choose|m: int|
                {
                    &&& 0 <= m <= s.len()
                    &&& #[trigger] written_as(u[0], s.take(m))
                    &&& string_then(s.skip(m), u.skip(1), rest_u)
                };
            one_way_to_write(s, t[0], u[0], n, m);
            one_string(s.skip(n), t.skip(1), u.skip(1), rest_t, rest_u);
            assert(t =~= seq![t[0]] + t.skip(1));
            assert(u =~= seq![u[0]] + u.skip(1));
        }
    }
}

/// No text holds two different sequences of items.
proof fn one_sequence(s: Seq<char>, a: Seq<Seq<char>>, b: Seq<Seq<char>>)
    requires
        items_then_end(s, a),
        items_then_end(s, b),
    ensures
        a == b,
    decreases a.len(),
{
    let rest_a = choose|rest: Seq<char>|
        {
            &&& #[trigger] string_then(s.skip(1), a[0], rest)
            &&& if a.len() == 1 {
                list_ends(after_blanks(rest))
            } else {
                let next = after_blanks(rest);
                next.len() > 0 && next[0] == ',' && items_then_end(
                    after_blanks(next.skip(1)),
                    a.skip(1),
                )
            }
        };
    let rest_b = choose|rest: Seq<char>|
        {
            &&& #[trigger] string_then(s.skip(1), b[0], rest)
            &&& if b.len() == 1 {
                list_ends(after_blanks(rest))
            } else {
                let next = after_blanks(rest);
                next.len() > 0 && next[0] == ',' && items_then_end(
                    after_blanks(next.skip(1)),
                    b.skip(1),
                )
            }
        };
    one_string(s.skip(1), a[0], b[0], rest_a, rest_b);
    if a.len() == 1 || b.len() == 1 {
        assert(a =~= b);
    } else {
        one_sequence(after_blanks(after_blanks(rest_a).skip(1)), a.skip(1), b.skip(1));
        assert(a =~= seq![a[0]] + a.skip(1));
        assert(b =~= seq![b[0]] + b.skip(1));
    }
}

/// A text is a JSON list of at most one sequence of items.
pub proof fn json_list_is_unambiguous(s: Seq<char>, a: Seq<Seq<char>>, b: Seq<Seq<char>>)
    requires
        is_json_list(s, a),
        is_json_list(s, b),
    ensures
        a == b,
{
    if a.len() > 0 && b.len() > 0 {
        one_sequence(after_blanks(after_blanks(s).skip(1)), a, b);
    } else {
        assert(a =~= b);
    }
}

/// The character in a JSON string, with an escape where it needs one.
pub open spec fn json_char(c: char) -> Seq<char> {
    if c == '"' || c == '\\' {
        seq!['\\', c]
    } else if !(' ' <= c) {
        seq![
            '\\',
            'u',
            '0',
            '0',
            text::nibble_char(c as nat / 16),
            text::nibble_char(c as nat % 16),
        ]
    } else {
        seq![c]
    }
}

/// The text in a JSON string, behind the opening quote.
pub open spec fn json_string(t: Seq<char>) -> Seq<char>
    decreases t.len(),
{
    if t.len() == 0 {
        seq!['"']
    } else {
        json_char(t[0]) + json_string(t.skip(1))
    }
}

/// A text that needs no escapes stands in a JSON string as it is.
pub proof fn plain_text_in_json(t: Seq<char>)
    requires
        json_plain(t),
    ensures
        json_string(t) == t.push('"'),
    decreases t.len(),
{
    if t.len() == 0 {
        assert(t.push('"') =~= seq!['"']);
    } else {
        assert(stands_for_itself(t[0]));
        assert forall|i: int| 0 <= i < t.len() - 1 implies stands_for_itself(
            #[trigger] t.skip(1)[i],
        ) by {
            assert(stands_for_itself(t[i + 1]));
        }
        plain_text_in_json(t.skip(1));
        assert(seq![t[0]] + t.skip(1).push('"') =~= t.push('"'));
    }
}

/// The items as JSON strings, with commas between them, and the end of a list.
pub open spec fn json_items(items: Seq<Seq<char>>) -> Seq<char>
    decreases items.len(),
{
    if items.len() == 0 {
        seq![']']
    } else if items.len() == 1 {
        seq!['"'] + json_string(items[0]) + seq![']']
    } else {
        seq!['"'] + json_string(items[0]) + seq![','] + json_items(items.skip(1))
    }
}

/// The items as a JSON list of strings.
pub open spec fn json_list(items: Seq<Seq<char>>) -> Seq<char> {
    seq!['['] + json_items(items)
}

/// A character in a JSON string is a way to write it.
proof fn json_char_writes(c: char)
    ensures
        written_as(c, json_char(c)),
{
    if !(' ' <= c) {
        let e = json_char(c);
        let (high, low) = (c as nat / 16, c as nat % 16);
        assert(high < 2);
        assert(text::nibble_value('0') == Some(0nat));
        assert(text::nibble_value(text::nibble_char(high)) == Some(high));
        assert(text::nibble_value(text::nibble_char(low)) == Some(low));
        assert(code_unit(e) == Some(high * 16 + low));
    }
}

/// What is written as a JSON string says the text.
proof fn string_says(t: Seq<char>, rest: Seq<char>)
    ensures
        string_then(json_string(t) + rest, t, rest),
    decreases t.len(),
{
    let s = json_string(t) + rest;
    if t.len() == 0 {
        assert(s.skip(1) =~= rest);
    } else {
        let e = json_char(t[0]);
        let n = e.len() as int;
        string_says(t.skip(1), rest);
        assert(s.take(n) =~= e);
        assert(s.skip(n) =~= json_string(t.skip(1)) + rest);
        json_char_writes(t[0]);
        assert(written_as(t[0], s.take(n)));
    }
}

/// What is written as items of a JSON list says the items.
proof fn items_say(items: Seq<Seq<char>>)
    requires
        items.len() > 0,
    ensures
        items_then_end(json_items(items), items),
    decreases items.len(),
{
    let s = json_items(items);
    if items.len() == 1 {
        let rest = seq![']'];
        string_says(items[0], rest);
        assert(s.skip(1) =~= json_string(items[0]) + rest);
        assert(rest.skip(1) =~= seq![]);
    } else {
        let more = json_items(items.skip(1));
        let rest = seq![','] + more;
        string_says(items[0], rest);
        assert(s.skip(1) =~= json_string(items[0]) + rest);
        items_say(items.skip(1));
        assert(rest.skip(1) =~= more);
        assert(more[0] == '"');
    }
}

/// Every sequence of texts can be written as a JSON list, whatever characters
/// are in them.
pub proof fn json_list_says(items: Seq<Seq<char>>)
    ensures
        is_json_list(json_list(items), items),
{
    let s = json_list(items);
    assert(s.skip(1) =~= json_items(items));
    if items.len() == 0 {
        assert(json_items(items).skip(1) =~= seq![]);
    } else {
        items_say(items);
        assert(json_items(items)[0] == '"');
    }
}

/// What `serde_json` says of a text that is no list of strings.
pub uninterp spec fn json_list_message(s: Seq<char>) -> Seq<char>;

/// `serde_json::from_str` for a list of strings: the texts that the strings
/// say. A text that is no such list is refused, with a message that depends on
/// the text alone.
#[verifier::external_body]
pub(crate) fn json_strings_of(s: &str) -> (list: Result<Vec<String>, String>)
    ensures
        list matches Ok(list) ==> is_json_list(s@, text::texts(list@)),
        list matches Err(e) ==> e@ == json_list_message(s@) && forall|items: Seq<Seq<char>>|
            !#[trigger] is_json_list(s@, items),
{
    match serde_json::from_str::<Vec<String>>(s) {
        Ok(list) => Ok(list),
        Err(e) => Err(e.to_string()),
    }
}

} // verus!
