use enceladus::text::{format_i64, format_u128, parse_i32, str_eq};

#[test]
fn numbers_are_written_in_decimal() {
    assert_eq!(format_u128(0), "0");
    assert_eq!(format_u128(9), "9");
    assert_eq!(format_u128(10), "10");
    assert_eq!(format_u128(1234567890), "1234567890");
    assert_eq!(format_u128(u128::MAX), u128::MAX.to_string());
    assert_eq!(format_i64(0), "0");
    assert_eq!(format_i64(-1), "-1");
    assert_eq!(format_i64(42), "42");
    assert_eq!(format_i64(i64::MAX), i64::MAX.to_string());
    assert_eq!(format_i64(i64::MIN), i64::MIN.to_string());
}

#[test]
fn numbers_are_read_as_the_standard_parser_reads_them() {
    let texts = [
        "0", "-0", "+0", "1", "-1", "+1", "0001", "-0001", "2147483647", "2147483648", "-2147483648",
        "-2147483649", "99999999999999999999999999", "", "+", "-", "++1", "--1", "1-", "1 ", " 1",
        "1.0", "0x10", "1e3", "\u{661}", "12\u{e9}",
    ];
    for text in texts {
        assert_eq!(parse_i32(text), text.parse::<i32>().ok(), "{:?}", text);
    }
}

#[test]
fn what_is_written_reads_back() {
    for n in [0, 1, -1, 10, -10, 123456, i32::MAX, i32::MIN] {
        assert_eq!(parse_i32(&format_i64(n as i64)), Some(n));
    }
}

#[test]
fn strings_are_compared_by_their_characters() {
    assert!(str_eq("", ""));
    assert!(str_eq("spacex", "spacex"));
    assert!(!str_eq("spacex", "spacey"));
    assert!(!str_eq("spacex", "space"));
}
