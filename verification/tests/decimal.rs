use quick_pose::decimal::{decimal_text, parse_number};

#[test]
fn decimal_text_writes_every_digit() {
    assert_eq!(decimal_text(0), "0");
    assert_eq!(decimal_text(9), "9");
    assert_eq!(decimal_text(10), "10");
    assert_eq!(decimal_text(1234567890), "1234567890");
    assert_eq!(decimal_text(usize::MAX), usize::MAX.to_string());
}

#[test]
fn parse_number_reads_digits() {
    assert_eq!(parse_number("0"), Some(0));
    assert_eq!(parse_number("5"), Some(5));
    assert_eq!(parse_number("600"), Some(600));
    assert_eq!(parse_number("00012"), Some(12));
    assert_eq!(parse_number("+7"), Some(7));
    assert_eq!(parse_number("18446744073709551615"), Some(u64::MAX));
}

#[test]
fn parse_number_rejects_what_is_no_number() {
    assert_eq!(parse_number(""), None);
    assert_eq!(parse_number("+"), None);
    assert_eq!(parse_number("-1"), None);
    assert_eq!(parse_number("++1"), None);
    assert_eq!(parse_number("1+"), None);
    assert_eq!(parse_number("12a"), None);
    assert_eq!(parse_number(" 12"), None);
    assert_eq!(parse_number("12 "), None);
    assert_eq!(parse_number("1_000"), None);
    assert_eq!(parse_number("None"), None);
    assert_eq!(parse_number("٣"), None);
    assert_eq!(parse_number("18446744073709551616"), None);
    assert_eq!(parse_number("99999999999999999999999999"), None);
}

#[test]
fn parse_number_agrees_with_the_standard_parser() {
    let texts = [
        "", "+", "-", "0", "+0", "-0", "007", "42", "+42", "4 2", "4.2", "0x10", "1e3",
        "18446744073709551615", "18446744073709551616", "184467440737095516150", "٤٢", "４２",
    ];
    for text in texts {
        assert_eq!(parse_number(text), text.parse::<u64>().ok(), "{text:?}");
    }
}

#[test]
fn parse_number_reads_back_what_decimal_text_wrote() {
    for value in [0usize, 1, 9, 10, 99, 100, 65535, usize::MAX] {
        assert_eq!(parse_number(&decimal_text(value)), Some(value as u64));
    }
}
