use salmon::text::{decimal_text, ends_with, parse_decimal, signed_decimal_text};

#[test]
fn endings() {
    assert!(ends_with("file.json", ".json"));
    assert!(ends_with("file.json", "file.json"));
    assert!(ends_with("file.json", ""));
    assert!(ends_with("", ""));
    assert!(!ends_with("", "a"));
    assert!(!ends_with("file.json", "xfile.json"));
    assert!(!ends_with("file.json", ".jsom"));
    assert!(!ends_with("file.json", ".JSON"));
    assert!(!ends_with("file.json.", ".json"));
    assert!(ends_with("ねこ.json", "こ.json"));
    assert!(!ends_with("ねこ.json", "ね.json"));
}

#[test]
fn decimal_numbers() {
    assert_eq!(parse_decimal("16"), Some(16));
    assert_eq!(parse_decimal("0"), Some(0));
    assert_eq!(parse_decimal("+7"), Some(7));
    assert_eq!(parse_decimal("0016"), Some(16));
    assert_eq!(parse_decimal("+000"), Some(0));
    assert_eq!(parse_decimal("1234567890"), Some(1234567890));
    assert_eq!(parse_decimal(&usize::MAX.to_string()), Some(usize::MAX));
}

#[test]
fn what_is_no_decimal_number() {
    for text in ["", "+", "-", "-1", "++1", "+-1", "1+", " 1", "1 ", "1.0", "1e3", "0x10", "١٦", "１６", "4a"] {
        assert_eq!(parse_decimal(text), None, "{:?}", text);
    }
    let too_large = format!("{}0", usize::MAX);
    assert_eq!(parse_decimal(&too_large), None);
    let one_more = (usize::MAX as u128 + 1).to_string();
    assert_eq!(parse_decimal(&one_more), None);
}

#[test]
fn decimal_numbers_read_as_std_reads_them() {
    for text in ["16", "+16", "", "+", "-0", "007", "18446744073709551615", "18446744073709551616", "a", "1a"] {
        assert_eq!(parse_decimal(text), text.parse::<usize>().ok(), "{:?}", text);
    }
}

#[test]
fn numbers_are_written_as_decimal_numerals() {
    assert_eq!(decimal_text(0), "0");
    assert_eq!(decimal_text(7), "7");
    assert_eq!(decimal_text(10), "10");
    assert_eq!(decimal_text(1234567890), "1234567890");
    assert_eq!(decimal_text(u64::MAX), "18446744073709551615");
    assert_eq!(signed_decimal_text(0), "0");
    assert_eq!(signed_decimal_text(-1), "-1");
    assert_eq!(signed_decimal_text(42), "42");
    assert_eq!(signed_decimal_text(i64::MAX), "9223372036854775807");
    assert_eq!(signed_decimal_text(i64::MIN), "-9223372036854775808");
}

#[test]
fn what_is_written_reads_back() {
    for number in [0usize, 1, 9, 10, 99, 100, 101, 65535, usize::MAX] {
        assert_eq!(parse_decimal(&decimal_text(number as u64)), Some(number));
    }
}
