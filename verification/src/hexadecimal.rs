//! Hexadecimal text.

use vstd::prelude::*;

verus! {

/// The lower case hexadecimal digit of a number below sixteen.
pub open spec fn hex_digit(d: int) -> char {
    if d < 10 {
        (('0' as u32) + d) as char
    } else {
        (('a' as u32) + (d - 10)) as char
    }
}

/// Two lower case digits for each byte.
pub open spec fn hex_text(bytes: Seq<u8>) -> Seq<char> {
    Seq::new(
        2 * bytes.len(),
        |i: int|
            if i % 2 == 0 {
                hex_digit(bytes[i / 2] as int / 16)
            } else {
                hex_digit(bytes[i / 2] as int % 16)
            },
    )
}

/// The value of a hexadecimal digit of either case.
pub open spec fn hex_value(c: char) -> Option<int> {
    if '0' <= c && c <= '9' {
        Some(c as u32 - '0' as u32)
    } else if 'a' <= c && c <= 'f' {
        Some(c as u32 - 'a' as u32 + 10)
    } else if 'A' <= c && c <= 'F' {
        Some(c as u32 - 'A' as u32 + 10)
    } else {
        None
    }
}

/// Pairs of hexadecimal digits, and nothing else.
pub open spec fn is_hex(s: Seq<char>) -> bool {
    &&& s.len() % 2 == 0
    &&& forall|i: int| 0 <= i < s.len() ==> hex_value(#[trigger] s[i]) is Some
}

/// The bytes that pairs of hexadecimal digits stand for.
pub open spec fn hex_bytes(s: Seq<char>) -> Seq<u8> {
    Seq::new(
        s.len() / 2,
        |i: int| (hex_value(s[2 * i])->0 * 16 + hex_value(s[2 * i + 1])->0) as u8,
    )
}

/// What `hex::decode` reports of a text that is not hexadecimal.
pub uninterp spec fn hex_fault(s: Seq<char>) -> Seq<char>;

/// `hex::encode`: two lower case digits for each byte, the higher half first.
#[verifier::external_body]
pub(crate) fn hex_encode(bytes: &[u8]) -> (text: String)
    ensures
        text@ == hex_text(bytes@),
{
    hex::encode(bytes)
}

/// `hex::decode`: the bytes, where the text is made of pairs of hexadecimal
/// digits of either case; what the error's `Display` says, everywhere else.
#[verifier::external_body]
pub(crate) fn hex_decode(s: &str) -> (r: Result<Vec<u8>, String>)
    ensures
        match r {
            Ok(bytes) => is_hex(s@) && bytes@ == hex_bytes(s@),
            Err(text) => !is_hex(s@) && text@ == hex_fault(s@),
        },
{
    hex::decode(s).map_err(|e| e.to_string())
}

/// A lower case hexadecimal digit.
pub open spec fn is_lower_digit(c: char) -> bool {
    ('0' <= c && c <= '9') || ('a' <= c && c <= 'f')
}

proof fn lemma_digit_value(d: int)
    requires
        0 <= d < 16,
    ensures
        hex_value(hex_digit(d)) == Some(d),
        is_lower_digit(hex_digit(d)),
{
}

proof fn lemma_value_digit(c: char)
    requires
        is_lower_digit(c),
    ensures
        hex_value(c) is Some,
        0 <= hex_value(c)->0 < 16,
        hex_digit(hex_value(c)->0) == c,
{
}

/// Writing bytes and reading the text gives the bytes back. The text is in
/// lower case.
pub proof fn law_hex_reads_back(bytes: Seq<u8>)
    ensures
        is_hex(hex_text(bytes)),
        hex_bytes(hex_text(bytes)) == bytes,
        forall|i: int|
            0 <= i < 2 * bytes.len() ==> is_lower_digit(#[trigger] hex_text(bytes)[i]),
{
    let s = hex_text(bytes);
    assert forall|i: int| 0 <= i < s.len() implies hex_value(#[trigger] s[i]) is Some
        && is_lower_digit(s[i]) by {
        let b = bytes[i / 2] as int;
        lemma_digit_value(b / 16);
        lemma_digit_value(b % 16);
    }
    assert forall|i: int| 0 <= i < bytes.len() implies #[trigger] hex_bytes(s)[i] == bytes[i] by {
        let b = bytes[i] as int;
        assert((2 * i) / 2 == i && (2 * i + 1) / 2 == i);
        assert((2 * i) % 2 == 0 && (2 * i + 1) % 2 == 1);
        lemma_digit_value(b / 16);
        lemma_digit_value(b % 16);
        assert(s[2 * i] == hex_digit(b / 16));
        assert(s[2 * i + 1] == hex_digit(b % 16));
    }
    assert(hex_bytes(s) =~= bytes);
}

/// Reading a lower case text and writing the bytes gives the text back.
pub proof fn law_hex_writes_back(s: Seq<char>)
    requires
        is_hex(s),
        forall|i: int| 0 <= i < s.len() ==> is_lower_digit(#[trigger] s[i]),
    ensures
        hex_text(hex_bytes(s)) == s,
{
    let bytes = hex_bytes(s);
    assert forall|i: int| 0 <= i < s.len() implies #[trigger] hex_text(bytes)[i] == s[i] by {
        let k = i / 2;
        lemma_value_digit(s[2 * k]);
        lemma_value_digit(s[2 * k + 1]);
        let high = hex_value(s[2 * k])->0;
        let low = hex_value(s[2 * k + 1])->0;
        assert(bytes[k] as int == high * 16 + low);
        assert(bytes[k] as int / 16 == high);
        assert(bytes[k] as int % 16 == low);
    }
    assert(hex_text(bytes) =~= s);
}

/// Whether a text is made of lower case hexadecimal digits.
pub open spec fn all_lower_digits(s: Seq<char>) -> bool {
    forall|i: int| 0 <= i < s.len() ==> is_lower_digit(#[trigger] s[i])
}

/// Tells whether a text is made of lower case hexadecimal digits.
pub(crate) fn is_lower_hex(s: &str) -> (r: bool)
    ensures
        r == all_lower_digits(s@),
{
    let chars = crate::lines::chars_of(s);
    let mut i: usize = 0;
    while i < chars.len()
        invariant
            i <= chars@.len(),
            chars@ == s@,
            forall|k: int| 0 <= k < i ==> is_lower_digit(#[trigger] s@[k]),
        decreases chars@.len() - i,
    {
        let c = chars[i];
        if !(('0' <= c && c <= '9') || ('a' <= c && c <= 'f')) {
            assert(!is_lower_digit(s@[i as int]));
            return false;
        }
        i = i + 1;
    }
    true
}

} // verus!
