use auth_service::utils::text::{
    chars_of, decimal_string, digit_str, hex_digit_str, hex_string, parse_decimal,
    six_digit_string,
};

#[test]
fn decimal_string_writes_shortest_form() {
    assert_eq!(decimal_string(0), "0");
    assert_eq!(decimal_string(7), "7");
    assert_eq!(decimal_string(10), "10");
    assert_eq!(decimal_string(1_700_000_600), "1700000600");
    assert_eq!(decimal_string(u64::MAX), "18446744073709551615");
}

#[test]
fn parse_decimal_reads_what_decimal_string_writes() {
    for n in [0u64, 1, 9, 10, 99, 100, 1_700_000_600, u64::MAX - 1, u64::MAX] {
        let chars = chars_of(&decimal_string(n));
        assert_eq!(parse_decimal(&chars, 0, chars.len()), Some(n));
    }
}

#[test]
fn parse_decimal_reads_a_range() {
    let chars = chars_of("ab0042.x");
    assert_eq!(parse_decimal(&chars, 2, 6), Some(42));
    assert_eq!(parse_decimal(&chars, 2, 7), None);
    assert_eq!(parse_decimal(&chars, 1, 6), None);
    assert_eq!(parse_decimal(&chars, 3, 3), None);
}

#[test]
fn parse_decimal_rejects_what_does_not_fit() {
    let chars = chars_of("18446744073709551616");
    assert_eq!(parse_decimal(&chars, 0, chars.len()), None);
    let chars = chars_of("99999999999999999999999");
    assert_eq!(parse_decimal(&chars, 0, chars.len()), None);
    let chars = chars_of("0000000000000000000000018446744073709551615");
    assert_eq!(parse_decimal(&chars, 0, chars.len()), Some(u64::MAX));
    let chars = chars_of("1844674407370955161x");
    assert_eq!(parse_decimal(&chars, 0, chars.len()), None);
    let chars = chars_of("184467440737095516160x");
    assert_eq!(parse_decimal(&chars, 0, chars.len()), None);
}

#[test]
fn digits_have_their_text() {
    let decimal: Vec<&str> = (0u8..10).map(digit_str).collect();
    assert_eq!(decimal, vec!["0", "1", "2", "3", "4", "5", "6", "7", "8", "9"]);
    let hex: Vec<&str> = (0u8..16).map(hex_digit_str).collect();
    assert_eq!(
        hex,
        vec!["0", "1", "2", "3", "4", "5", "6", "7", "8", "9", "a", "b", "c", "d", "e", "f"]
    );
}

#[test]
fn hex_string_writes_two_characters_a_byte() {
    assert_eq!(hex_string(&vec![]), "");
    assert_eq!(hex_string(&vec![0x00]), "00");
    assert_eq!(hex_string(&vec![0x0f, 0xf0, 0xab, 0xff]), "0ff0abff");
    assert_eq!(hex_string(&vec![0xde, 0xad, 0xbe, 0xef]), "deadbeef");
}

#[test]
fn six_digit_string_pads_with_zeros() {
    assert_eq!(six_digit_string(0), "000000");
    assert_eq!(six_digit_string(7), "000007");
    assert_eq!(six_digit_string(123_456), "123456");
    assert_eq!(six_digit_string(999_999), "999999");
    assert_eq!(six_digit_string(100_000), "100000");
}

#[test]
fn chars_of_keeps_every_character() {
    assert_eq!(chars_of(""), Vec::<char>::new());
    assert_eq!(chars_of("a.b"), vec!['a', '.', 'b']);
    assert_eq!(chars_of("ü@x"), vec!['ü', '@', 'x']);
}
