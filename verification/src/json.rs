//! The compact JSON text of flat objects whose members are strings or null.
use vstd::prelude::*;
use crate::hexcodec::hex_digit;
use crate::text::push_char;

verus! {

/// The members of a flat JSON object: keys with string or null values.
pub type JsonMembers = Seq<(Seq<char>, Option<Seq<char>>)>;

/// How JSON writes one character inside a string literal: quote and backslash are
/// escaped, the control characters with a short escape use it, the other control
/// characters are written as `\u00XX` with lower-case hex, and all else stands as is.
pub open spec fn json_escape(c: char) -> Seq<char> {
    if c == '"' {
        seq!['\\', '"']
    } else if c == '\\' {
        seq!['\\', '\\']
    } else if c == '\u{8}' {
        seq!['\\', 'b']
    } else if c == '\t' {
        seq!['\\', 't']
    } else if c == '\n' {
        seq!['\\', 'n']
    } else if c == '\u{c}' {
        seq!['\\', 'f']
    } else if c == '\r' {
        seq!['\\', 'r']
    } else if (c as u32) < 0x20 {
        seq!['\\', 'u', '0', '0', hex_digit(((c as u32) / 16) as u8), hex_digit(((c as u32) % 16) as u8)]
    } else {
        seq![c]
    }
}

/// The escaped characters of a string.
pub open spec fn json_escaped(s: Seq<char>) -> Seq<char>
    decreases s.len(),
{
    if s.len() == 0 {
        Seq::empty()
    } else {
        json_escaped(s.drop_last()) + json_escape(s.last())
    }
}

/// A JSON string literal.
pub open spec fn json_string(s: Seq<char>) -> Seq<char> {
    seq!['"'] + json_escaped(s) + seq!['"']
}

/// A JSON value that is a string or null.
pub open spec fn json_value(v: Option<Seq<char>>) -> Seq<char> {
    match v {
        Some(s) => json_string(s),
        None => seq!['n', 'u', 'l', 'l'],
    }
}

/// One `"key":value` member.
pub open spec fn json_member(m: (Seq<char>, Option<Seq<char>>)) -> Seq<char> {
    json_string(m.0) + seq![':'] + json_value(m.1)
}

/// The members separated by commas.
pub open spec fn json_members(ms: Seq<(Seq<char>, Option<Seq<char>>)>) -> Seq<char>
    decreases ms.len(),
{
    if ms.len() == 0 {
        Seq::empty()
    } else if ms.len() == 1 {
        json_member(ms[0])
    } else {
        json_members(ms.drop_last()) + seq![','] + json_member(ms.last())
    }
}

/// A compact JSON object with the members in the given order.
pub open spec fn json_object(ms: Seq<(Seq<char>, Option<Seq<char>>)>) -> Seq<char> {
    seq!['{'] + json_members(ms) + seq!['}']
}

/// No key occurs twice among the members.
pub open spec fn distinct_keys(ms: Seq<(Seq<char>, Option<Seq<char>>)>) -> bool {
    forall|i: int, j: int| 0 <= i < j < ms.len() ==> #[trigger] ms[i].0 != #[trigger] ms[j].0
}

/// The string that a member with the given key holds, or `None` when no member has that
/// key or its value is null.
pub open spec fn member_string(ms: Seq<(Seq<char>, Option<Seq<char>>)>, key: Seq<char>) -> Option<Seq<char>>
    decreases ms.len(),
{
    if ms.len() == 0 {
        None
    } else if ms.last().0 == key {
        ms.last().1
    } else {
        member_string(ms.drop_last(), key)
    }
}

/// What reading a string member out of a JSON text gives: `None` when the text is not JSON,
/// `Some(None)` when it has no string member under the key, otherwise that string (the
/// result of `serde_json::from_str::<Value>`, then `get` and `as_str`).
pub uninterp spec fn json_string_member(text: Seq<char>, key: Seq<char>) -> Option<Option<Seq<char>>>;

/// The JSON string literal of a string.
///
/// Trusted: `serde_json::to_string` on a `&str`. Its source writes into a vector, which
/// cannot fail, and escapes exactly as `json_escape` states (its `ESCAPE` table and
/// `write_char_escape`).
#[verifier::external_body]
pub(crate) fn json_quote(s: &str) -> (r: String)
    ensures
        r@ == json_string(s@),
{
    match serde_json::to_string(s) {
        Ok(t) => t,
        Err(_) => String::new(),
    }
}

/// A string member read out of a compact object with distinct keys is the member's value.
pub open spec fn read_back(r: Option<Option<String>>, text: Seq<char>, key: Seq<char>) -> bool {
    forall|ms: JsonMembers|
        #[trigger] json_object(ms) == text && distinct_keys(ms)
            ==> r is Some && json_string_member(text, key) == Some(member_string(ms, key))
}

/// Reads a string member out of a JSON text.
///
/// Trusted: `serde_json::from_str::<serde_json::Value>`, then `Value::get` and
/// `Value::as_str`. The result depends on the text and key alone. For a compact object
/// with distinct keys and string or null values, as `json_object` writes it, the parser
/// gives back each member's value: a JSON string literal parses to the string it escapes.
#[verifier::external_body]
pub(crate) fn json_member_str(text: &str, key: &str) -> (r: Option<Option<String>>)
    ensures
        r is None <==> json_string_member(text@, key@) is None,
        r matches Some(None) ==> json_string_member(text@, key@) == Some(None::<Seq<char>>),
        r matches Some(Some(s)) ==> json_string_member(text@, key@) == Some(Some(s@)),
        read_back(r, text@, key@),
{
    match serde_json::from_str::<serde_json::Value>(text) {
        Ok(v) => Some(v.get(key).and_then(|m| m.as_str()).map(|m| m.to_string())),
        Err(_) => None,
    }
}

/// Appends the characters of a string.
pub(crate) fn append_str(out: &mut String, s: &str)
    ensures
        final(out)@ == old(out)@ + s@,
{
    out.append(s);
}

/// The compact JSON object text of string-or-null members, in order.
pub fn json_object_text(members: &Vec<(&str, Option<&str>)>) -> (r: String)
    ensures
        r@ == json_object(members@.map_values(|m: (&str, Option<&str>)| member_view(m))),
{
    let ghost ms = members@.map_values(|m: (&str, Option<&str>)| member_view(m));
    let mut out = String::new();
    push_char(&mut out, '{');
    let mut i: usize = 0;
    while i < members.len()
        invariant
            i <= members@.len(),
            ms == members@.map_values(|m: (&str, Option<&str>)| member_view(m)),
            out@ == seq!['{'] + json_members(ms.take(i as int)),
        decreases members@.len() - i,
    {
        if i > 0 {
            push_char(&mut out, ',');
        }
        let (key, value) = members[i];
        let k = json_quote(key);
        append_str(&mut out, k.as_str());
        push_char(&mut out, ':');
        match value {
            Some(v) => {
                let q = json_quote(v);
                append_str(&mut out, q.as_str());
            },
            None => {
                push_char(&mut out, 'n');
                push_char(&mut out, 'u');
                push_char(&mut out, 'l');
                push_char(&mut out, 'l');
            },
        }
        proof {
            let prefix = ms.take(i as int);
            let next = ms.take(i + 1);
            assert(next.drop_last() =~= prefix);
            assert(next.last() == ms[i as int]);
            assert(ms[i as int] == member_view(members@[i as int]));
            if i == 0 {
                assert(next.len() == 1);
                assert(json_members(next) == json_member(next[0]));
                assert(out@ =~= seq!['{'] + json_members(next));
            } else {
                assert(out@ =~= seq!['{'] + json_members(next));
            }
        }
        i = i + 1;
    }
    push_char(&mut out, '}');
    assert(ms.take(members@.len() as int) =~= ms);
    assert(out@ =~= json_object(ms));
    out
}

/// The spec form of a member given as string slices.
pub open spec fn member_view(m: (&str, Option<&str>)) -> (Seq<char>, Option<Seq<char>>) {
    (m.0@, match m.1 { Some(v) => Some(v@), None => None })
}

} // verus!
