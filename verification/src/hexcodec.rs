//! Lower-case hexadecimal encoding and decoding of byte strings.
use vstd::prelude::*;
use crate::text::push_char;
use vstd::utf8::encode_utf8;

verus! {

/// The hex digit for a nibble, lower case.
pub open spec fn hex_digit(n: u8) -> char {
    if n < 10 { (('0' as u8) + n) as char } else { (('a' as u8) + (n - 10)) as char }
}

/// The lower-case hex text of a byte string: two digits per byte, high nibble first.
pub open spec fn hex_encoding(bytes: Seq<u8>) -> Seq<char>
    decreases bytes.len(),
{
    if bytes.len() == 0 {
        Seq::empty()
    } else {
        hex_encoding(bytes.drop_last()) + seq![
            hex_digit(bytes.last() / 16),
            hex_digit(bytes.last() % 16),
        ]
    }
}

/// Whether a byte is an ASCII hex digit of either case.
pub open spec fn is_hex_byte(b: u8) -> bool {
    (48 <= b <= 57) || (65 <= b <= 70) || (97 <= b <= 102)
}

/// The value of an ASCII hex digit.
pub open spec fn hex_value(b: u8) -> u8 {
    if 48 <= b <= 57 {
        (b - 48) as u8
    } else if 65 <= b <= 70 {
        (b - 55) as u8
    } else {
        (b - 87) as u8
    }
}

/// Why hex text could not be decoded.
#[derive(Debug, Clone, Copy, PartialEq, Eq, Structural)]
pub enum HexError {
    /// The text has an odd number of bytes.
    OddLength,
    /// The byte at `index` is not a hex digit; `c` is that byte read as a character.
    InvalidHexCharacter { c: char, index: usize },
}

/// `i` is the first position of `b` that holds no hex digit.
pub open spec fn first_bad_hex(b: Seq<u8>, i: int) -> bool {
    &&& 0 <= i < b.len()
    &&& !is_hex_byte(b[i])
    &&& forall|j: int| 0 <= j < i ==> is_hex_byte(#[trigger] b[j])
}

/// The bytes that a hex text stands for: an odd length is refused first, then the
/// first byte that is not a hex digit; otherwise each pair of digits gives one byte.
pub open spec fn hex_decoding(b: Seq<u8>) -> Result<Seq<u8>, HexError> {
    if b.len() % 2 == 1 {
        Err(HexError::OddLength)
    } else if exists|i: int| first_bad_hex(b, i) {
        let i = choose|i: int| first_bad_hex(b, i);
        Err(HexError::InvalidHexCharacter { c: b[i] as char, index: i as usize })
    } else {
        Ok(Seq::new((b.len() / 2) as nat, |k: int| (hex_value(b[2 * k]) * 16 + hex_value(b[2 * k + 1])) as u8))
    }
}


proof fn lemma_hex_encoding_index(bytes: Seq<u8>)
    ensures
        hex_encoding(bytes).len() == 2 * bytes.len(),
        forall|k: int| 0 <= k < bytes.len() ==> {
            &&& #[trigger] hex_encoding(bytes)[2 * k] == hex_digit(bytes[k] / 16)
            &&& hex_encoding(bytes)[2 * k + 1] == hex_digit(bytes[k] % 16)
        },
    decreases bytes.len(),
{
    if bytes.len() > 0 {
        lemma_hex_encoding_index(bytes.drop_last());
        let prev = hex_encoding(bytes.drop_last());
        assert forall|k: int| 0 <= k < bytes.len() implies {
            &&& #[trigger] hex_encoding(bytes)[2 * k] == hex_digit(bytes[k] / 16)
            &&& hex_encoding(bytes)[2 * k + 1] == hex_digit(bytes[k] % 16)
        } by {
            if k < bytes.len() - 1 {
                assert(prev[2 * k] == hex_digit(bytes.drop_last()[k] / 16));
            }
        }
    }
}

proof fn lemma_hex_digit_bytes(n: u8)
    requires
        n < 16,
    ensures
        is_hex_byte(hex_digit(n) as u8),
        hex_value(hex_digit(n) as u8) == n,
        '\0' <= hex_digit(n) <= '\u{7f}',
{
}

/// Decoding the hex text of any byte string gives back that byte string.
pub proof fn lemma_hex_round_trip(bytes: Seq<u8>)
    ensures
        hex_decoding(encode_utf8(hex_encoding(bytes))) == Ok::<Seq<u8>, HexError>(bytes),
{
    let chars = hex_encoding(bytes);
    lemma_hex_encoding_index(bytes);
    assert forall|i: int| 0 <= i < chars.len() implies '\0' <= #[trigger] chars[i] <= '\u{7f}' && is_hex_byte(chars[i] as u8) by {
        let k = i / 2;
        if i % 2 == 0 {
            assert(i == 2 * k);
            assert(chars[2 * k] == hex_digit(bytes[k] / 16));
            lemma_hex_digit_bytes(bytes[k] / 16);
        } else {
            assert(i == 2 * k + 1);
            assert(chars[2 * k] == hex_digit(bytes[k] / 16));
            assert(chars[2 * k + 1] == hex_digit(bytes[k] % 16));
            lemma_hex_digit_bytes(bytes[k] % 16);
        }
    }
    vstd::utf8::is_ascii_chars_encode_utf8(chars);
    let b = encode_utf8(chars);
    assert(b.len() % 2 == 0);
    assert(!exists|i: int| first_bad_hex(b, i)) by {
        if exists|i: int| first_bad_hex(b, i) {
            let i = choose|i: int| first_bad_hex(b, i);
            assert(b[i] == chars[i] as u8);
        }
    }
    let decoded = Seq::new((b.len() / 2) as nat, |k: int| (hex_value(b[2 * k]) * 16 + hex_value(b[2 * k + 1])) as u8);
    assert forall|k: int| 0 <= k < bytes.len() implies decoded[k] == bytes[k] by {
        assert(chars[2 * k] == hex_digit(bytes[k] / 16));
        assert(b[2 * k] == chars[2 * k] as u8);
        assert(b[2 * k + 1] == chars[2 * k + 1] as u8);
        lemma_hex_digit_bytes(bytes[k] / 16);
        lemma_hex_digit_bytes(bytes[k] % 16);
    }
    assert(decoded =~= bytes);
}

fn nibble_digit(n: u8) -> (c: char)
    requires
        n < 16,
    ensures
        c == hex_digit(n),
{
    if n < 10 {
        (48u8 + n) as char
    } else {
        (97u8 + (n - 10)) as char
    }
}

/// Encodes bytes as lower-case hex text.
pub fn hex_encode(bytes: &[u8]) -> (r: String)
    ensures
        r@ == hex_encoding(bytes@),
{
    let mut out = String::new();
    let mut i: usize = 0;
    while i < bytes.len()
        invariant
            i <= bytes@.len(),
            out@ == hex_encoding(bytes@.take(i as int)),
        decreases bytes@.len() - i,
    {
        let b = bytes[i];
        push_char(&mut out, nibble_digit(b / 16));
        push_char(&mut out, nibble_digit(b % 16));
        assert(bytes@.take(i + 1).drop_last() =~= bytes@.take(i as int));
        i = i + 1;
    }
    assert(bytes@.take(bytes@.len() as int) =~= bytes@);
    out
}

fn byte_is_hex(b: u8) -> (r: bool)
    ensures
        r == is_hex_byte(b),
{
    (48 <= b && b <= 57) || (65 <= b && b <= 70) || (97 <= b && b <= 102)
}

fn byte_value(b: u8) -> (r: u8)
    requires
        is_hex_byte(b),
    ensures
        r == hex_value(b),
        r < 16,
{
    if 48 <= b && b <= 57 {
        b - 48
    } else if 65 <= b && b <= 70 {
        b - 55
    } else {
        b - 87
    }
}

/// Decodes hex text of either case into bytes.
pub fn hex_decode(text: &str) -> (r: Result<Vec<u8>, HexError>)
    ensures
        match r {
            Ok(v) => hex_decoding(encode_utf8(text@)) == Ok::<Seq<u8>, HexError>(v@),
            Err(e) => hex_decoding(encode_utf8(text@)) == Err::<Seq<u8>, HexError>(e),
        },
{
    let b = text.as_bytes();
    let n = b.len();
    if n % 2 == 1 {
        return Err(HexError::OddLength);
    }
    let mut out: Vec<u8> = Vec::new();
    let mut k: usize = 0;
    while k < n / 2
        invariant
            b@ == encode_utf8(text@),
            n == b@.len(),
            n % 2 == 0,
            k <= n / 2,
            out@.len() == k,
            forall|j: int| 0 <= j < 2 * k ==> is_hex_byte(#[trigger] b@[j]),
            forall|j: int| 0 <= j < k ==> #[trigger] out@[j] == (hex_value(b@[2 * j]) * 16 + hex_value(b@[2 * j + 1])) as u8,
        decreases n / 2 - k,
    {
        let hi = b[2 * k];
        if !byte_is_hex(hi) {
            assert(first_bad_hex(b@, 2 * k as int));
            let ghost i = choose|i: int| first_bad_hex(b@, i);
            assert(i == 2 * k) by {
                if i < 2 * k { assert(is_hex_byte(b@[i])); }
                if i > 2 * k { assert(is_hex_byte(b@[2 * k as int])); }
            }
            return Err(HexError::InvalidHexCharacter { c: hi as char, index: 2 * k });
        }
        let lo = b[2 * k + 1];
        if !byte_is_hex(lo) {
            assert(first_bad_hex(b@, 2 * k + 1));
            let ghost i = choose|i: int| first_bad_hex(b@, i);
            assert(i == 2 * k + 1) by {
                if i < 2 * k + 1 { assert(is_hex_byte(b@[i])); }
                if i > 2 * k + 1 { assert(is_hex_byte(b@[2 * k + 1])); }
            }
            return Err(HexError::InvalidHexCharacter { c: lo as char, index: 2 * k + 1 });
        }
        let v = byte_value(hi) * 16 + byte_value(lo);
        out.push(v);
        k = k + 1;
    }
    assert(!exists|i: int| first_bad_hex(b@, i)) by {
        if exists|i: int| first_bad_hex(b@, i) {
            let i = choose|i: int| first_bad_hex(b@, i);
            assert(is_hex_byte(b@[i]));
        }
    }
    assert(out@ =~= Seq::new((n / 2) as nat, |j: int| (hex_value(b@[2 * j]) * 16 + hex_value(b@[2 * j + 1])) as u8));
    Ok(out)
}

} // verus!
