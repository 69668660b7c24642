use photo_booking::fields::{join_texts, split_text};
use photo_booking::text::{
    digit_text, parse_decimal, parse_digits, parse_fixed, parse_signed, render_decimal, render_fixed,
    render_signed, same_text,
};

#[test]
fn decimal_notation_is_the_shortest() {
    assert_eq!(render_decimal(0), "0");
    assert_eq!(render_decimal(7), "7");
    assert_eq!(render_decimal(10), "10");
    assert_eq!(render_decimal(1234567890), "1234567890");
    assert_eq!(render_decimal(u64::MAX), "18446744073709551615");
}

#[test]
fn signed_notation_has_a_minus_sign() {
    assert_eq!(render_signed(0), "0");
    assert_eq!(render_signed(-1), "-1");
    assert_eq!(render_signed(42), "42");
    assert_eq!(render_signed(i64::MIN), "-9223372036854775808");
    assert_eq!(render_signed(i64::MAX), "9223372036854775807");
}

#[test]
fn fixed_notation_pads_with_zeros() {
    assert_eq!(render_fixed(5, 2), "05");
    assert_eq!(render_fixed(12, 2), "12");
    assert_eq!(render_fixed(2024, 4), "2024");
    assert_eq!(render_fixed(7, 4), "0007");
    assert_eq!(render_fixed(0, 0), "");
    assert_eq!(render_fixed(123, 2), "23");
}

#[test]
fn digit_text_is_the_digit() {
    for d in 0..10u8 {
        assert_eq!(digit_text(d), d.to_string());
    }
}

#[test]
fn parse_decimal_reads_only_the_shortest_notation() {
    assert_eq!(parse_decimal("0", u64::MAX), Some(0));
    assert_eq!(parse_decimal("17", u64::MAX), Some(17));
    assert_eq!(parse_decimal("007", u64::MAX), None);
    assert_eq!(parse_decimal("00", u64::MAX), None);
    assert_eq!(parse_decimal("", u64::MAX), None);
    assert_eq!(parse_decimal("1a", u64::MAX), None);
    assert_eq!(parse_decimal("+1", u64::MAX), None);
    assert_eq!(parse_decimal("18446744073709551615", u64::MAX), Some(u64::MAX));
    assert_eq!(parse_decimal("18446744073709551616", u64::MAX), None);
    assert_eq!(parse_decimal("99999999999999999999999", u64::MAX), None);
    assert_eq!(parse_decimal("100", 99), None);
    assert_eq!(parse_decimal("99", 99), Some(99));
    assert_eq!(parse_decimal("5", 3), None);
}

#[test]
fn parse_digits_allows_leading_zeros() {
    assert_eq!(parse_digits("007", 100), Some(7));
    assert_eq!(parse_digits("", 100), Some(0));
    assert_eq!(parse_digits("101", 100), None);
    assert_eq!(parse_digits("1x", 100), None);
}

#[test]
fn parse_signed_reads_both_ends_of_the_range() {
    let floor = 9223372036854775808u64;
    let max = 9223372036854775807u64;
    assert_eq!(parse_signed("-9223372036854775808", floor, max), Some(i64::MIN));
    assert_eq!(parse_signed("9223372036854775807", floor, max), Some(i64::MAX));
    assert_eq!(parse_signed("9223372036854775808", floor, max), None);
    assert_eq!(parse_signed("-9223372036854775809", floor, max), None);
    assert_eq!(parse_signed("-0", floor, max), None);
    assert_eq!(parse_signed("-", floor, max), None);
    assert_eq!(parse_signed("--1", floor, max), None);
    assert_eq!(parse_signed("-01", floor, max), None);
    assert_eq!(parse_signed("-12", floor, max), Some(-12));
    assert_eq!(parse_signed("12", floor, max), Some(12));
    assert_eq!(parse_signed("-5", 4, 10), None);
    assert_eq!(parse_signed("11", 4, 10), None);
}

#[test]
fn parse_fixed_wants_the_exact_width() {
    assert_eq!(parse_fixed("05", 2), Some(5));
    assert_eq!(parse_fixed("5", 2), None);
    assert_eq!(parse_fixed("005", 2), None);
    assert_eq!(parse_fixed("2024", 4), Some(2024));
    assert_eq!(parse_fixed("20x4", 4), None);
    assert_eq!(parse_fixed("", 0), Some(0));
    assert_eq!(parse_fixed("999999999", 9), Some(999999999));
}

#[test]
fn rendering_and_parsing_agree() {
    for n in [0u64, 1, 9, 10, 99, 100, 4294967295, u64::MAX] {
        assert_eq!(parse_decimal(&render_decimal(n), u64::MAX), Some(n));
    }
    for n in [i64::MIN, -4294967296, -1, 0, 1, i64::MAX] {
        assert_eq!(
            parse_signed(&render_signed(n), 9223372036854775808, 9223372036854775807),
            Some(n)
        );
    }
}

#[test]
fn same_text_compares_characters() {
    assert!(same_text("calendar", "calendar"));
    assert!(!same_text("calendar", "calendas"));
    assert!(!same_text("calendar", "calenda"));
    assert!(same_text("", ""));
}

#[test]
fn split_text_cuts_at_every_separator() {
    assert_eq!(split_text("a:b:c", b':'), vec!["a", "b", "c"]);
    assert_eq!(split_text("abc", b':'), vec!["abc"]);
    assert_eq!(split_text("", b':'), vec![""]);
    assert_eq!(split_text(":", b':'), vec!["", ""]);
    assert_eq!(split_text("a::b", b':'), vec!["a", "", "b"]);
    assert_eq!(split_text(":a:", b':'), vec!["", "a", ""]);
    assert_eq!(split_text("time-09:00-11:00", b'-'), vec!["time", "09:00", "11:00"]);
}

#[test]
fn join_texts_puts_the_separator_between() {
    let parts = vec!["a".to_string(), "b".to_string(), "c".to_string()];
    assert_eq!(join_texts(&parts, ":"), "a:b:c");
    assert_eq!(join_texts(&vec!["a".to_string()], ":"), "a");
    assert_eq!(join_texts(&vec![], ":"), "");
    assert_eq!(join_texts(&vec!["".to_string(), "".to_string()], "-"), "-");
}

#[test]
fn split_and_join_undo_each_other() {
    for text in ["calendar:select:2024-05-01", "", ":", "a", "::a::"] {
        let parts: Vec<String> = split_text(text, b':').iter().map(|p| p.to_string()).collect();
        assert_eq!(join_texts(&parts, ":"), text);
    }
}
