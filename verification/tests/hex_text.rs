use vectra::hex::{decode_hex, decode_signature_text, encode_hex, hex_char, hex_value, HexError};
use vectra::text::{chars_of, join_text, eq_ignore_ascii_case, same_bytes, string_of, to_lower_ascii};

#[test]
fn digits_have_their_values() {
    assert_eq!(hex_value('0'), Some(0));
    assert_eq!(hex_value('9'), Some(9));
    assert_eq!(hex_value('a'), Some(10));
    assert_eq!(hex_value('f'), Some(15));
    assert_eq!(hex_value('A'), Some(10));
    assert_eq!(hex_value('F'), Some(15));
    assert_eq!(hex_value('g'), None);
    assert_eq!(hex_value('G'), None);
    assert_eq!(hex_value(' '), None);
    assert_eq!(hex_value('\u{130}'), None);
}

#[test]
fn values_have_their_digits() {
    assert_eq!(hex_char(0), '0');
    assert_eq!(hex_char(9), '9');
    assert_eq!(hex_char(10), 'a');
    assert_eq!(hex_char(15), 'f');
}

#[test]
fn decodes_plain_digits() {
    assert_eq!(decode_hex("48656c6c6f"), Ok(vec![0x48, 0x65, 0x6c, 0x6c, 0x6f]));
    assert_eq!(decode_hex("DEADbeef"), Ok(vec![0xde, 0xad, 0xbe, 0xef]));
    assert_eq!(decode_hex(""), Ok(vec![]));
}

#[test]
fn decodes_behind_one_prefix() {
    assert_eq!(decode_hex("0x0102"), Ok(vec![1, 2]));
    assert_eq!(decode_hex("0X0102"), Ok(vec![1, 2]));
    assert_eq!(decode_hex("0x"), Ok(vec![]));
    assert_eq!(decode_hex("0x0x01"), Err(HexError::InvalidCharacter));
}

#[test]
fn refuses_odd_length() {
    assert_eq!(decode_hex("123"), Err(HexError::OddLength));
    assert_eq!(decode_hex("0x1"), Err(HexError::OddLength));
    assert_eq!(decode_hex("g"), Err(HexError::OddLength));
}

#[test]
fn refuses_other_characters() {
    assert_eq!(decode_hex("zz"), Err(HexError::InvalidCharacter));
    assert_eq!(decode_hex("12 4"), Err(HexError::InvalidCharacter));
    assert_eq!(decode_hex("x0"), Err(HexError::InvalidCharacter));
    assert_eq!(decode_hex("1\u{e9}"), Err(HexError::InvalidCharacter));
}

#[test]
fn signature_text_drops_every_leading_prefix() {
    assert_eq!(decode_signature_text("0x0x0xff00"), Ok(vec![0xff, 0x00]));
    assert_eq!(decode_signature_text("0x0Xff00"), Ok(vec![0xff, 0x00]));
    assert_eq!(decode_signature_text("ff00"), Ok(vec![0xff, 0x00]));
    assert_eq!(decode_signature_text("0xf"), Err(HexError::OddLength));
    assert_eq!(decode_signature_text("0xfg"), Err(HexError::InvalidCharacter));
}

#[test]
fn encodes_in_lower_case() {
    assert_eq!(encode_hex(&[0xde, 0xad, 0xbe, 0xef, 0x00, 0x0f]), "deadbeef000f");
    assert_eq!(encode_hex(&[]), "");
}

#[test]
fn decoding_undoes_encoding() {
    let bytes: Vec<u8> = (0..=255u8).collect();
    let text = encode_hex(&bytes);
    assert_eq!(text.len(), 512);
    assert_eq!(decode_hex(&text), Ok(bytes.clone()));
    assert_eq!(decode_signature_text(&text), Ok(bytes));
}

#[test]
fn error_words() {
    assert_eq!(HexError::OddLength.describe(), "odd number of digits");
    assert_eq!(HexError::InvalidCharacter.describe(), "invalid character");
}

#[test]
fn text_helpers() {
    assert_eq!(chars_of("a\u{e9}z"), vec!['a', '\u{e9}', 'z']);
    assert_eq!(string_of(&vec!['0', 'x']), "0x");
    assert_eq!(join_text("ab", "cd"), "abcd");
    assert_eq!(to_lower_ascii('Q'), 'q');
    assert_eq!(to_lower_ascii('q'), 'q');
    assert_eq!(to_lower_ascii('['), '[');
    assert_eq!(to_lower_ascii('\u{c9}'), '\u{c9}');
    assert!(same_bytes(&[1, 2, 3], &[1, 2, 3]));
    assert!(!same_bytes(&[1, 2, 3], &[1, 2, 4]));
    assert!(!same_bytes(&[1, 2], &[1, 2, 3]));
}

#[test]
fn case_of_letters_is_ignored() {
    assert!(eq_ignore_ascii_case("0xAbCdEf", "0xabcdef"));
    assert!(eq_ignore_ascii_case("", ""));
    assert!(!eq_ignore_ascii_case("0xabcdef", "0xabcdee"));
    assert!(!eq_ignore_ascii_case("abc", "abcd"));
    assert!(!eq_ignore_ascii_case("\u{c9}", "\u{e9}"));
}
