use starboard_bot::text::{decimal_text, parse_u64, signed_decimal_text};

#[test]
fn decimal_of_numbers() {
    assert_eq!(decimal_text(0), "0");
    assert_eq!(decimal_text(7), "7");
    assert_eq!(decimal_text(10), "10");
    assert_eq!(decimal_text(1234567890), "1234567890");
    assert_eq!(decimal_text(u64::MAX), "18446744073709551615");
}

#[test]
fn signed_decimal_of_numbers() {
    assert_eq!(signed_decimal_text(0), "0");
    assert_eq!(signed_decimal_text(12), "12");
    assert_eq!(signed_decimal_text(-5), "-5");
    assert_eq!(signed_decimal_text(i64::MIN), "-9223372036854775808");
    assert_eq!(signed_decimal_text(i64::MAX), "9223372036854775807");
}

#[test]
fn parse_accepts_what_std_accepts() {
    assert_eq!(parse_u64("123"), Some(123));
    assert_eq!(parse_u64("+7"), Some(7));
    assert_eq!(parse_u64("007"), Some(7));
    assert_eq!(parse_u64("18446744073709551615"), Some(u64::MAX));
    assert_eq!(parse_u64("794949887028232192"), Some(794949887028232192));
}

#[test]
fn parse_refuses_what_std_refuses() {
    for s in ["", "+", "-1", "12a", " 1", "1 ", "18446744073709551616", "99999999999999999999x", "++1"] {
        assert_eq!(parse_u64(s), None, "{s:?}");
        assert!(s.parse::<u64>().is_err());
    }
}

#[test]
fn parse_agrees_with_std() {
    for s in ["0", "+0", "42", "+18446744073709551615", "18446744073709551614", "1_0", "٣"] {
        assert_eq!(parse_u64(s), s.parse::<u64>().ok(), "{s:?}");
    }
}

#[test]
fn parse_reads_back_decimal() {
    for n in [0u64, 9, 10, 99, 100, 123456789, u64::MAX - 1, u64::MAX] {
        assert_eq!(parse_u64(&decimal_text(n)), Some(n));
    }
}
