use runes_index::hex::{decode_hex_from, hex_digit};

#[test]
fn decodes_lower_and_upper_digits() {
    assert_eq!(decode_hex_from("0xDEadBEef", 2), Some(vec![0xde, 0xad, 0xbe, 0xef]));
}

#[test]
fn decodes_from_the_given_offset() {
    assert_eq!(decode_hex_from("00ff", 0), Some(vec![0x00, 0xff]));
    assert_eq!(decode_hex_from("00ff", 2), Some(vec![0xff]));
    assert_eq!(decode_hex_from("00ff", 4), Some(vec![]));
}

#[test]
fn rejects_odd_length() {
    assert_eq!(decode_hex_from("0xabc", 2), None);
}

#[test]
fn rejects_non_hex_characters() {
    assert_eq!(decode_hex_from("0xzz", 2), None);
    assert_eq!(decode_hex_from("0x0g", 2), None);
}

#[test]
fn digit_values_match_their_characters() {
    assert_eq!(hex_digit('0'), Some(0));
    assert_eq!(hex_digit('9'), Some(9));
    assert_eq!(hex_digit('a'), Some(10));
    assert_eq!(hex_digit('f'), Some(15));
    assert_eq!(hex_digit('A'), Some(10));
    assert_eq!(hex_digit('F'), Some(15));
    assert_eq!(hex_digit('g'), None);
    assert_eq!(hex_digit(' '), None);
}
