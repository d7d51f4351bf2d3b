use simplebluetooth::address::{address_from_le_bytes, fmt_bt_addr, parse_bt_addr};

#[test]
fn separators_are_ignored() {
    assert_eq!(parse_bt_addr("aa:bb:cc:dd:ee:ff"), Some(0xAABB_CCDD_EEFF));
    assert_eq!(parse_bt_addr("AABBCCDDEEFF"), Some(0xAABB_CCDD_EEFF));
    assert_eq!(parse_bt_addr("AA-bb cc.DD/ee_FF"), Some(0xAABB_CCDD_EEFF));
}

#[test]
fn first_digit_is_the_most_significant() {
    assert_eq!(parse_bt_addr("01:23:45:67:89:ab"), Some(0x0123_4567_89AB));
    assert_eq!(parse_bt_addr("000000000001"), Some(1));
}

#[test]
fn wrong_number_of_digits_is_refused() {
    assert_eq!(parse_bt_addr(""), None);
    assert_eq!(parse_bt_addr("aa:bb:cc:dd:ee"), None);
    assert_eq!(parse_bt_addr("aa:bb:cc:dd:ee:f"), None);
    assert_eq!(parse_bt_addr("aa:bb:cc:dd:ee:ff:0"), None);
    assert_eq!(parse_bt_addr("::::::"), None);
}

#[test]
fn only_ascii_digits_count() {
    assert_eq!(parse_bt_addr("AABBCCDDEEF\u{FF26}"), None);
    assert_eq!(parse_bt_addr("住所 AABBCCDDEEFF"), Some(0xAABB_CCDD_EEFF));
    assert_eq!(parse_bt_addr("gAABBCCDDEEFFz"), Some(0xAABB_CCDD_EEFF));
}

#[test]
fn address_is_written_in_upper_case_with_colons() {
    assert_eq!(fmt_bt_addr(0xAABB_CCDD_EEFF), "AA:BB:CC:DD:EE:FF");
    assert_eq!(fmt_bt_addr(0x0123_4567_89AB), "01:23:45:67:89:AB");
    assert_eq!(fmt_bt_addr(0), "00:00:00:00:00:00");
}

#[test]
fn bits_above_the_address_are_not_written() {
    assert_eq!(fmt_bt_addr(0xFFFF_0123_4567_89AB), "01:23:45:67:89:AB");
}

#[test]
fn written_address_reads_back() {
    for a in [0u64, 1, 0x0123_4567_89AB, 0xFFFF_FFFF_FFFF, 0x8000_0000_0000] {
        assert_eq!(parse_bt_addr(&fmt_bt_addr(a)), Some(a));
    }
}

#[test]
fn different_addresses_are_written_differently() {
    assert_ne!(fmt_bt_addr(0x10), fmt_bt_addr(0x1000));
}

#[test]
fn bytes_come_least_significant_first() {
    let a = address_from_le_bytes([0xFF, 0xEE, 0xDD, 0xCC, 0xBB, 0xAA]);
    assert_eq!(a, 0xAABB_CCDD_EEFF);
    assert_eq!(fmt_bt_addr(a), "AA:BB:CC:DD:EE:FF");
    assert_eq!(address_from_le_bytes([1, 0, 0, 0, 0, 0]), 1);
}
