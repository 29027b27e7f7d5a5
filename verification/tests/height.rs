//! Reading heights out of registry text.

use yoda_taller::height::parse_height;

#[test]
fn plain_numerals_are_read() {
    assert_eq!(parse_height("172"), Some(172));
    assert_eq!(parse_height("66"), Some(66));
    assert_eq!(parse_height("61"), Some(61));
    assert_eq!(parse_height("0"), Some(0));
    assert_eq!(parse_height("7"), Some(7));
}

#[test]
fn a_leading_plus_and_leading_zeros_are_accepted() {
    assert_eq!(parse_height("+172"), Some(172));
    assert_eq!(parse_height("+0"), Some(0));
    assert_eq!(parse_height("000"), Some(0));
    assert_eq!(parse_height("0172"), Some(172));
    assert_eq!(parse_height("+0000000000000172"), Some(172));
}

#[test]
fn the_largest_height_is_the_largest_u32() {
    assert_eq!(parse_height("4294967295"), Some(u32::MAX));
    assert_eq!(parse_height("+4294967295"), Some(u32::MAX));
    assert_eq!(parse_height("4294967296"), None);
    assert_eq!(parse_height("4294967300"), None);
    assert_eq!(parse_height("42949672950"), None);
    assert_eq!(parse_height("99999999999999999999999999"), None);
}

#[test]
fn text_that_is_no_numeral_has_no_height() {
    assert_eq!(parse_height("unknown"), None);
    assert_eq!(parse_height(""), None);
    assert_eq!(parse_height("+"), None);
    assert_eq!(parse_height("-"), None);
    assert_eq!(parse_height("-172"), None);
    assert_eq!(parse_height("-0"), None);
    assert_eq!(parse_height("++172"), None);
    assert_eq!(parse_height("+-172"), None);
    assert_eq!(parse_height("172+"), None);
    assert_eq!(parse_height("1_72"), None);
    assert_eq!(parse_height("1,72"), None);
    assert_eq!(parse_height("1.72"), None);
    assert_eq!(parse_height("172cm"), None);
    assert_eq!(parse_height("0x42"), None);
    assert_eq!(parse_height(" 172"), None);
    assert_eq!(parse_height("172 "), None);
    assert_eq!(parse_height("172\n"), None);
    assert_eq!(parse_height("/"), None);
    assert_eq!(parse_height(":"), None);
}

#[test]
fn digits_outside_ascii_are_no_digits() {
    assert_eq!(parse_height("１７２"), None);
    assert_eq!(parse_height("17２"), None);
    assert_eq!(parse_height("٣"), None);
    assert_eq!(parse_height("17\u{e9}"), None);
    assert_eq!(parse_height("\u{e9}17"), None);
}

#[test]
fn reading_agrees_with_the_standard_parser() {
    let samples: [&str; 14] = [
        "0", "9", "10", "66", "+66", "-66", "", "+", "4294967295", "4294967296", "unknown", "6 6",
        "0066", "66.0",
    ];
    for text in samples {
        assert_eq!(parse_height(text), text.parse::<u32>().ok());
    }
}

#[test]
fn every_small_number_is_read_back() {
    let mut n: u32 = 0;
    while n < 3000 {
        assert_eq!(parse_height(&format!("{}", n)), Some(n));
        n += 1;
    }
}
