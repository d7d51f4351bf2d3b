use simplebluetooth::found::FoundRank;
use simplebluetooth::order::stable_order;
use simplebluetooth::text::{
    char_code, chars_of, decimal_text, hex_digit, push_hex_byte, signed_decimal_text, starts_with,
    text_not_after,
};

#[test]
fn numbers_are_written_in_decimal() {
    assert_eq!(decimal_text(0), "0");
    assert_eq!(decimal_text(9), "9");
    assert_eq!(decimal_text(10), "10");
    assert_eq!(decimal_text(u64::MAX), "18446744073709551615");
    assert_eq!(signed_decimal_text(-7), "-7");
    assert_eq!(signed_decimal_text(42), "42");
    assert_eq!(signed_decimal_text(i32::MIN), "-2147483648");
}

#[test]
fn bytes_are_written_in_two_digits() {
    let mut s = "x".to_string();
    push_hex_byte(&mut s, 0x0A);
    push_hex_byte(&mut s, 0xF0);
    assert_eq!(s, "x0AF0");
    assert_eq!(hex_digit(15), "F");
}

#[test]
fn prefixes_are_recognised() {
    assert!(starts_with("日本語", "日本"));
    assert!(starts_with("abc", ""));
    assert!(starts_with("abc", "abc"));
    assert!(!starts_with("ab", "abc"));
    assert!(!starts_with("xabc", "abc"));
}

#[test]
fn texts_are_ordered_like_strings() {
    let words = ["", "a", "ab", "b", "B", "あ", "\u{1F600}", "\u{FFFD}"];
    for x in words {
        for y in words {
            assert_eq!(text_not_after(&chars_of(x), &chars_of(y)), x <= y);
        }
    }
    assert_eq!(char_code('A'), 65);
}

#[test]
fn level_ranks_keep_their_sequence() {
    let rank = |connected: bool, paired: bool, named: bool| FoundRank { connected, paired, named };
    let ranks = vec![
        rank(false, true, true),
        rank(false, false, false),
        rank(true, true, false),
        rank(false, false, true),
        rank(false, true, true),
        rank(true, true, false),
    ];
    assert_eq!(stable_order(&ranks), vec![2, 5, 3, 1, 0, 4]);
}
