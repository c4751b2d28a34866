use yahoo_finance::decimal::to_decimal;
use yahoo_finance::text::{
    chars_of, skip_leading, skip_repeated, skip_trailing, starts_with, Class,
};

#[test]
fn numbers_are_written_in_decimal() {
    assert_eq!(to_decimal(0), "0");
    assert_eq!(to_decimal(7), "7");
    assert_eq!(to_decimal(10), "10");
    assert_eq!(to_decimal(-1), "-1");
    assert_eq!(to_decimal(1_234_567_890), "1234567890");
    assert_eq!(to_decimal(-9_007_199_254_740_993), "-9007199254740993");
    assert_eq!(to_decimal(i64::MAX), "9223372036854775807");
    assert_eq!(to_decimal(i64::MIN), "-9223372036854775808");
    for n in [-1000, -101, -99, -10, -9, 1, 9, 99, 100, 1001, 86_400] {
        assert_eq!(to_decimal(n), format!("{}", n));
    }
}

#[test]
fn a_text_is_its_characters() {
    assert_eq!(chars_of(""), Vec::<char>::new());
    assert_eq!(chars_of("a\u{e9}\u{1f600}b"), vec!['a', '\u{e9}', '\u{1f600}', 'b']);
}

#[test]
fn white_space_is_what_unicode_says() {
    for n in 0..=0x11_0000u32 {
        if let Some(c) = char::from_u32(n) {
            assert_eq!(Class::Whitespace.contains(c), c.is_whitespace(), "U+{:04X}", n);
        }
    }
}

#[test]
fn the_other_classes() {
    assert!(Class::Assignment.contains(' '));
    assert!(Class::Assignment.contains('='));
    assert!(!Class::Assignment.contains('\t'));
    assert!(!Class::Assignment.contains(';'));
    assert!(Class::Terminator.contains(';'));
    assert!(!Class::Terminator.contains(':'));
    assert!(!Class::InLine.contains('\n'));
    assert!(Class::InLine.contains('\r'));
    assert!(Class::InLine.contains('x'));
}

#[test]
fn leading_characters_are_skipped_within_the_bounds() {
    let text = chars_of("  ab  cd  ");
    assert_eq!(skip_leading(&text, 0, 10, Class::Whitespace), 2);
    assert_eq!(skip_leading(&text, 0, 1, Class::Whitespace), 1);
    assert_eq!(skip_leading(&text, 2, 10, Class::Whitespace), 2);
    assert_eq!(skip_leading(&text, 4, 10, Class::Whitespace), 6);
    assert_eq!(skip_leading(&text, 8, 10, Class::Whitespace), 10);
    assert_eq!(skip_leading(&text, 10, 10, Class::Whitespace), 10);
    assert_eq!(skip_leading(&chars_of("ab\ncd"), 0, 5, Class::InLine), 2);
    assert_eq!(skip_leading(&chars_of("abcd"), 0, 4, Class::InLine), 4);
}

#[test]
fn trailing_characters_are_skipped_within_the_bounds() {
    let text = chars_of("  ab  cd  ");
    assert_eq!(skip_trailing(&text, 0, 10, Class::Whitespace), 8);
    assert_eq!(skip_trailing(&text, 0, 6, Class::Whitespace), 4);
    assert_eq!(skip_trailing(&text, 0, 2, Class::Whitespace), 0);
    assert_eq!(skip_trailing(&text, 1, 2, Class::Whitespace), 1);
    assert_eq!(skip_trailing(&text, 0, 4, Class::Whitespace), 4);
    assert_eq!(skip_trailing(&chars_of("a;;b;;;"), 0, 7, Class::Terminator), 4);
}

#[test]
fn a_prefix_is_found_and_skipped() {
    let text = chars_of("ababac");
    let ab = chars_of("ab");
    assert!(starts_with(&text, 0, 6, &ab));
    assert!(starts_with(&text, 2, 6, &ab));
    assert!(!starts_with(&text, 1, 6, &ab));
    assert!(!starts_with(&text, 0, 1, &ab));
    assert!(!starts_with(&text, 4, 6, &ab));
    assert!(starts_with(&text, 3, 3, &chars_of("")));
    assert_eq!(skip_repeated(&text, 0, 6, &ab), 4);
    assert_eq!(skip_repeated(&text, 0, 3, &ab), 2);
    assert_eq!(skip_repeated(&text, 1, 6, &ab), 1);
    assert_eq!(skip_repeated(&text, 0, 6, &chars_of("ababac")), 6);
}
