//! Hexadecimal text: decoding digits into bytes and encoding bytes as
//! lower-case digits, with the `0x` prefixes that wallet software writes.

use crate::text::{chars_of, is_hex_digit};
use vstd::prelude::*;

verus! {

/// Why a text is not the hexadecimal form of a byte string.
#[derive(Clone, Copy, Debug, PartialEq, Eq, Structural)]
pub enum HexError {
    /// The text has an odd number of characters.
    OddLength,
    /// The text has an even number of characters, and one of them, after the
    /// prefix, is not a hexadecimal digit.
    InvalidCharacter,
}

impl HexError {
    /// The error in words.
    pub open spec fn text(self) -> Seq<char> {
        match self {
            HexError::OddLength => "odd number of digits"@,
            HexError::InvalidCharacter => "invalid character"@,
        }
    }

    /// Writes the error in words.
    pub fn describe(&self) -> (words: &'static str)
        ensures
            words@ == self.text(),
    {
        match self {
            HexError::OddLength => "odd number of digits",
            HexError::InvalidCharacter => "invalid character",
        }
    }
}

/// The number that the hexadecimal digit `c` stands for.
pub open spec fn hex_digit_value(c: char) -> int {
    if '0' <= c <= '9' {
        c as int - 48
    } else if 'a' <= c <= 'f' {
        c as int - 87
    } else {
        c as int - 55
    }
}

/// The lower-case hexadecimal digit for a number below sixteen.
pub open spec fn hex_digit_char(n: int) -> char {
    if n < 10 {
        (48 + n) as char
    } else {
        (87 + n) as char
    }
}

/// Whether every character of `s` is a hexadecimal digit.
pub open spec fn is_hex_text(s: Seq<char>) -> bool {
    forall|i: int| 0 <= i < s.len() ==> is_hex_digit(#[trigger] s[i])
}

/// The bytes that the digits `s` spell, two digits per byte, high digit first.
pub open spec fn hex_decoded(s: Seq<char>) -> Seq<u8> {
    Seq::new(
        s.len() / 2,
        |i: int| (16 * hex_digit_value(s[2 * i]) + hex_digit_value(s[2 * i + 1])) as u8,
    )
}

/// The lower-case digits that spell `bytes`, two digits per byte, high digit first.
pub open spec fn hex_encoded(bytes: Seq<u8>) -> Seq<char> {
    Seq::new(
        2 * bytes.len(),
        |i: int|
            hex_digit_char(
                if i % 2 == 0 {
                    bytes[i / 2] as int / 16
                } else {
                    bytes[i / 2] as int % 16
                },
            ),
    )
}

/// Whether `s` begins with `0x` or `0X`.
pub open spec fn has_hex_prefix(s: Seq<char>) -> bool {
    s.len() >= 2 && s[0] == '0' && (s[1] == 'x' || s[1] == 'X')
}

/// `s` without one leading `0x` or `0X`, where it has one.
pub open spec fn without_hex_prefix(s: Seq<char>) -> Seq<char> {
    if has_hex_prefix(s) {
        s.skip(2)
    } else {
        s
    }
}

/// `s` without any of its leading repetitions of `0x`.
pub open spec fn without_leading_0x(s: Seq<char>) -> Seq<char>
    decreases s.len(),
{
    if s.len() >= 2 && s[0] == '0' && s[1] == 'x' {
        without_leading_0x(s.skip(2))
    } else {
        s
    }
}

/// What a hexadecimal text decodes to: an even number of characters, an
/// optional `0x` or `0X` in front, and digits of either case after it.
pub open spec fn hex_text_bytes(s: Seq<char>) -> Result<Seq<u8>, HexError> {
    if s.len() % 2 != 0 {
        Err(HexError::OddLength)
    } else if !is_hex_text(without_hex_prefix(s)) {
        Err(HexError::InvalidCharacter)
    } else {
        Ok(hex_decoded(without_hex_prefix(s)))
    }
}

/// What a signature text decodes to: every leading `0x` is dropped, and the
/// rest is read as a hexadecimal text.
pub open spec fn signature_text_bytes(s: Seq<char>) -> Result<Seq<u8>, HexError> {
    hex_text_bytes(without_leading_0x(s))
}

/// The number that a hexadecimal digit stands for, or `None` for any other
/// character.
pub fn hex_value(c: char) -> (value: Option<u8>)
    ensures
        value is Some <==> is_hex_digit(c),
        value is Some ==> value->0 == hex_digit_value(c) && value->0 < 16,
{
    if '0' <= c && c <= '9' {
        Some((c as u8) - 48)
    } else if 'a' <= c && c <= 'f' {
        Some((c as u8) - 87)
    } else if 'A' <= c && c <= 'F' {
        Some((c as u8) - 55)
    } else {
        None
    }
}

/// The lower-case hexadecimal digit for a number below sixteen.
pub fn hex_char(n: u8) -> (c: char)
    requires
        n < 16,
    ensures
        c == hex_digit_char(n as int),
        is_hex_digit(c),
        hex_digit_value(c) == n,
{
    if n < 10 {
        (48 + n) as char
    } else {
        (87 + n) as char
    }
}

/// Decodes the characters of `chars` from position `start` on as a
/// hexadecimal text.
pub fn decode_hex_from(chars: &Vec<char>, start: usize) -> (decoded: Result<Vec<u8>, HexError>)
    requires
        start <= chars.len(),
    ensures
        decoded is Ok <==> hex_text_bytes(chars@.skip(start as int)) is Ok,
        decoded is Ok ==> decoded->Ok_0@ == hex_text_bytes(chars@.skip(start as int))->Ok_0,
        decoded is Err ==> decoded->Err_0 == hex_text_bytes(chars@.skip(start as int))->Err_0,
{
    let ghost text = chars@.skip(start as int);
    let length: usize = chars.len() - start;
    if length % 2 != 0 {
        return Err(HexError::OddLength);
    }
    let mut position: usize = start;
    if length >= 2 && chars[start] == '0' && (chars[start + 1] == 'x' || chars[start + 1] == 'X') {
        position = start + 2;
    }
    let ghost digits = without_hex_prefix(text);
    assert(digits =~= chars@.skip(position as int));
    let ghost base: int = position as int;
    let mut bytes: Vec<u8> = Vec::new();
    while position < chars.len()
        invariant
            start <= position <= chars.len(),
            (chars.len() - position) % 2 == 0,
            start <= base <= chars.len(),
            position == base + bytes.len() * 2,
            digits == without_hex_prefix(chars@.skip(start as int)),
            chars@.skip(start as int).len() % 2 == 0,
            digits == chars@.skip(base),
            forall|i: int| 0 <= i < bytes.len() * 2 ==> is_hex_digit(#[trigger] digits[i]),
            forall|i: int| 0 <= i < bytes.len() ==> #[trigger] bytes@[i] == hex_decoded(digits)[i],
        decreases chars.len() - position,
    {
        let high = hex_value(chars[position]);
        let low = hex_value(chars[position + 1]);
        let ghost at: int = bytes.len() as int * 2;
        assert(digits[at] == chars@[position as int]);
        assert(digits[at + 1] == chars@[position + 1]);
        match (high, low) {
            (Some(h), Some(l)) => {
                bytes.push(h * 16 + l);
            },
            _ => {
                assert(!is_hex_digit(digits[at]) || !is_hex_digit(digits[at + 1]));
                return Err(HexError::InvalidCharacter);
            },
        }
        position += 2;
    }
    assert(bytes@ =~= hex_decoded(digits));
    Ok(bytes)
}

/// Decodes a hexadecimal text.
pub fn decode_hex(text: &str) -> (decoded: Result<Vec<u8>, HexError>)
    ensures
        decoded is Ok <==> hex_text_bytes(text@) is Ok,
        decoded is Ok ==> decoded->Ok_0@ == hex_text_bytes(text@)->Ok_0,
        decoded is Err ==> decoded->Err_0 == hex_text_bytes(text@)->Err_0,
{
    let chars = chars_of(text);
    assert(chars@.skip(0) =~= text@);
    decode_hex_from(&chars, 0)
}

/// Decodes a signature text: drops every leading `0x`, then decodes the rest
/// as a hexadecimal text.
pub fn decode_signature_text(text: &str) -> (decoded: Result<Vec<u8>, HexError>)
    ensures
        decoded is Ok <==> signature_text_bytes(text@) is Ok,
        decoded is Ok ==> decoded->Ok_0@ == signature_text_bytes(text@)->Ok_0,
        decoded is Err ==> decoded->Err_0 == signature_text_bytes(text@)->Err_0,
{
    let chars = chars_of(text);
    let mut start: usize = 0;
    assert(chars@.skip(0) =~= text@);
    while chars.len() - start >= 2 && chars[start] == '0' && chars[start + 1] == 'x'
        invariant
            start <= chars.len(),
            chars@ == text@,
            without_leading_0x(text@) == without_leading_0x(chars@.skip(start as int)),
        decreases chars.len() - start,
    {
        assert(chars@.skip(start as int).skip(2) =~= chars@.skip(start + 2));
        start += 2;
    }
    decode_hex_from(&chars, start)
}

/// Encodes bytes as lower-case hexadecimal digits, without a prefix.
pub fn encode_hex(bytes: &[u8]) -> (text: String)
    ensures
        text@ == hex_encoded(bytes@),
{
    let mut text = String::new();
    let mut index: usize = 0;
    while index < bytes.len()
        invariant
            index <= bytes.len(),
            text@.len() == 2 * index,
            forall|i: int| 0 <= i < 2 * index ==> #[trigger] text@[i] == hex_encoded(bytes@)[i],
        decreases bytes.len() - index,
    {
        let byte = bytes[index];
        text.push(hex_char(byte / 16));
        text.push(hex_char(byte % 16));
        index += 1;
    }
    assert(text@ =~= hex_encoded(bytes@));
    text
}

/// Decoding what `encode_hex` wrote gives the bytes back.
pub proof fn lemma_hex_round_trip(bytes: Seq<u8>)
    ensures
        hex_text_bytes(hex_encoded(bytes)) == Ok::<Seq<u8>, HexError>(bytes),
        signature_text_bytes(hex_encoded(bytes)) == Ok::<Seq<u8>, HexError>(bytes),
{
    let text = hex_encoded(bytes);
    assert forall|i: int| 0 <= i < text.len() implies is_hex_digit(#[trigger] text[i]) by {
        let b = bytes[i / 2] as int;
        assert(0 <= b / 16 < 16 && 0 <= b % 16 < 16);
    }
    if text.len() >= 2 {
        let b = bytes[0] as int;
        assert(0 <= b / 16 < 16 && 0 <= b % 16 < 16);
        assert(text[1] == hex_digit_char(b % 16));
        assert(text[1] != 'x' && text[1] != 'X');
    }
    assert(!has_hex_prefix(text));
    assert(without_leading_0x(text) == text);
    assert forall|i: int| 0 <= i < bytes.len() implies hex_decoded(text)[i] == bytes[i] by {
        let b = bytes[i] as int;
        assert(0 <= b / 16 < 16 && 0 <= b % 16 < 16);
        assert(text[2 * i] == hex_digit_char(b / 16));
        assert(text[2 * i + 1] == hex_digit_char(b % 16));
        assert(hex_digit_value(hex_digit_char(b / 16)) == b / 16);
        assert(hex_digit_value(hex_digit_char(b % 16)) == b % 16);
    }
    assert(hex_decoded(text) =~= bytes);
}

} // verus!
