//! Small string helpers shared by the protocol code.
use vstd::prelude::*;

verus! {

/// Appends one character to a string.
///
/// Trusted: `String::push` is documented to append the character at the end.
#[verifier::external_body]
pub(crate) fn push_char(s: &mut String, c: char)
    ensures
        final(s)@ == old(s)@.push(c),
{
    s.push(c);
}

/// Whether two string slices hold the same characters.
pub fn str_eq(a: &str, b: &str) -> (r: bool)
    ensures
        r == (a@ == b@),
{
    let n = a.unicode_len();
    if n != b.unicode_len() {
        return false;
    }
    let mut i: usize = 0;
    while i < n
        invariant
            n == a@.len(),
            n == b@.len(),
            i <= n,
            forall|j: int| 0 <= j < i ==> a@[j] == b@[j],
        decreases n - i,
    {
        if a.get_char(i) != b.get_char(i) {
            assert(a@[i as int] != b@[i as int]);
            return false;
        }
        i = i + 1;
    }
    assert(a@ =~= b@);
    true
}

/// Where std's UTF-8 check stops on bytes that are not UTF-8: the `valid_up_to` and
/// `error_len` of the `Utf8Error` that `String::from_utf8` reports.
pub uninterp spec fn utf8_error(bytes: Seq<u8>) -> (usize, Option<usize>);

/// The text that a byte string holds when it is valid UTF-8, or where the check stopped.
///
/// Trusted: `String::from_utf8` is documented to succeed exactly on valid UTF-8 and then to
/// hold the characters those bytes encode; on failure `valid_up_to` is documented as the
/// largest index whose prefix is valid UTF-8.
#[verifier::external_body]
pub(crate) fn string_from_utf8(bytes: Vec<u8>) -> (r: Result<String, (usize, Option<usize>)>)
    ensures
        r is Ok <==> vstd::utf8::valid_utf8(bytes@),
        r matches Ok(s) ==> s@ == vstd::utf8::decode_utf8(bytes@),
        r matches Err(e) ==> e == utf8_error(bytes@),
        r matches Err((v, _)) ==> {
            &&& v <= bytes@.len()
            &&& vstd::utf8::valid_utf8(bytes@.take(v as int))
            &&& forall|k: int| v < k <= bytes@.len() ==> !vstd::utf8::valid_utf8(#[trigger] bytes@.take(k))
        },
{
    match String::from_utf8(bytes) {
        Ok(s) => Ok(s),
        Err(e) => Err((e.utf8_error().valid_up_to(), e.utf8_error().error_len())),
    }
}

/// The decimal digit for a value below ten.
pub open spec fn decimal_digit(d: nat) -> char {
    (('0' as u8) + d) as char
}

/// The decimal text of a number, without leading zeros.
pub open spec fn decimal(n: nat) -> Seq<char>
    decreases n,
{
    if n < 10 {
        seq![decimal_digit(n)]
    } else {
        decimal(n / 10).push(decimal_digit(n % 10))
    }
}

/// The decimal text of a number.
pub fn decimal_text(n: usize) -> (r: String)
    ensures
        r@ == decimal(n as nat),
    decreases n,
{
    let mut out = if n < 10 { String::new() } else { decimal_text(n / 10) };
    let d: u8 = (n % 10) as u8;
    push_char(&mut out, (48u8 + d) as char);
    out
}

/// Whether a character has the Unicode `White_Space` property (as `char::is_whitespace`).
pub open spec fn is_white_space(c: char) -> bool {
    ||| ('\t' <= c && c <= '\r')
    ||| c == ' '
    ||| c == '\u{85}'
    ||| c == '\u{a0}'
    ||| c == '\u{1680}'
    ||| ('\u{2000}' <= c && c <= '\u{200a}')
    ||| c == '\u{2028}'
    ||| c == '\u{2029}'
    ||| c == '\u{202f}'
    ||| c == '\u{205f}'
    ||| c == '\u{3000}'
}

/// The characters without the white space at their start.
pub open spec fn trim_start(s: Seq<char>) -> Seq<char>
    decreases s.len(),
{
    if s.len() > 0 && is_white_space(s[0]) {
        trim_start(s.drop_first())
    } else {
        s
    }
}

/// The characters without the white space at their end.
pub open spec fn trim_end(s: Seq<char>) -> Seq<char>
    decreases s.len(),
{
    if s.len() > 0 && is_white_space(s.last()) {
        trim_end(s.drop_last())
    } else {
        s
    }
}

/// The characters without white space at either end (as `str::trim`).
pub open spec fn trimmed(s: Seq<char>) -> Seq<char> {
    trim_end(trim_start(s))
}

pub(crate) fn white_space(c: char) -> (r: bool)
    ensures
        r == is_white_space(c),
{
    ('\t' <= c && c <= '\r') || c == ' ' || c == '\u{85}' || c == '\u{a0}' || c == '\u{1680}'
        || ('\u{2000}' <= c && c <= '\u{200a}') || c == '\u{2028}' || c == '\u{2029}'
        || c == '\u{202f}' || c == '\u{205f}' || c == '\u{3000}'
}

proof fn lemma_trim_start_skip(s: Seq<char>, i: int)
    requires
        0 <= i <= s.len(),
        forall|j: int| 0 <= j < i ==> is_white_space(#[trigger] s[j]),
    ensures
        trim_start(s) == trim_start(s.skip(i)),
    decreases i,
{
    if i > 0 {
        assert(is_white_space(s[0]));
        let t = s.drop_first();
        assert forall|j: int| 0 <= j < i - 1 implies is_white_space(#[trigger] t[j]) by {
            assert(t[j] == s[j + 1]);
        }
        lemma_trim_start_skip(t, i - 1);
        assert(t.skip(i - 1) =~= s.skip(i));
    } else {
        assert(s.skip(0) =~= s);
    }
}

proof fn lemma_trim_end_take(s: Seq<char>, i: int)
    requires
        0 <= i <= s.len(),
        forall|j: int| i <= j < s.len() ==> is_white_space(#[trigger] s[j]),
    ensures
        trim_end(s) == trim_end(s.take(i)),
    decreases s.len() - i,
{
    if i < s.len() {
        assert(is_white_space(s.last()));
        let t = s.drop_last();
        assert forall|j: int| i <= j < t.len() implies is_white_space(#[trigger] t[j]) by {
            assert(t[j] == s[j]);
        }
        lemma_trim_end_take(t, i);
        assert(t.take(i) =~= s.take(i));
    } else {
        assert(s.take(i) =~= s);
    }
}

/// The string without white space at either end.
pub fn trim(s: &str) -> (r: &str)
    ensures
        r@ == trimmed(s@),
{
    let n = s.unicode_len();
    let mut start: usize = 0;
    while start < n && white_space(s.get_char(start))
        invariant
            n == s@.len(),
            start <= n,
            forall|j: int| 0 <= j < start ==> is_white_space(#[trigger] s@[j]),
        decreases n - start,
    {
        start = start + 1;
    }
    proof {
        lemma_trim_start_skip(s@, start as int);
    }
    let mut end: usize = n;
    while end > start && white_space(s.get_char(end - 1))
        invariant
            n == s@.len(),
            start <= end <= n,
            forall|j: int| end <= j < n ==> is_white_space(#[trigger] s@[j]),
        decreases end - start,
    {
        end = end - 1;
    }
    proof {
        let t = s@.skip(start as int);
        assert(trim_start(t) == t) by {
            if t.len() > 0 {
                assert(t[0] == s@[start as int]);
            }
        }
        assert forall|j: int| end - start <= j < t.len() implies is_white_space(#[trigger] t[j]) by {
            assert(t[j] == s@[j + start]);
        }
        lemma_trim_end_take(t, end - start);
        let u = t.take(end - start);
        assert(u =~= s@.subrange(start as int, end as int));
        assert(trim_end(u) == u) by {
            if u.len() > 0 {
                assert(u.last() == s@[end - 1]);
            }
        }
    }
    s.substring_char(start, end)
}

} // verus!
