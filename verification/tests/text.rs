use get_size::derive::text::{append_decimal, parse_decimal, same_text};

#[test]
fn decimal_numbers_are_read() {
    assert_eq!(parse_decimal(b"0"), Some(0));
    assert_eq!(parse_decimal(b"7"), Some(7));
    assert_eq!(parse_decimal(b"100"), Some(100));
    assert_eq!(parse_decimal(b"007"), Some(7));
    assert_eq!(parse_decimal(b"18446744073709551615"), Some(u64::MAX as usize));
}

#[test]
fn what_is_no_decimal_number_is_refused() {
    assert_eq!(parse_decimal(b""), None);
    assert_eq!(parse_decimal(b"-1"), None);
    assert_eq!(parse_decimal(b"1_000"), None);
    assert_eq!(parse_decimal(b"12a"), None);
    assert_eq!(parse_decimal(b" 1"), None);
    assert_eq!(parse_decimal(b"0x10"), None);
}

#[test]
fn numbers_beyond_a_word_are_refused() {
    assert_eq!(parse_decimal(b"18446744073709551616"), None);
    assert_eq!(parse_decimal(b"99999999999999999999"), None);
    assert_eq!(parse_decimal(b"184467440737095516150"), None);
}

#[test]
fn decimal_numbers_are_written() {
    for (number, text) in [(0, "0"), (9, "9"), (10, "10"), (1205, "1205"), (usize::MAX, "18446744073709551615")]
    {
        let mut written = String::from("v");
        append_decimal(&mut written, number);
        assert_eq!(written, format!("v{}", text));
        assert_eq!(parse_decimal(text.as_bytes()), Some(number));
    }
}

#[test]
fn texts_are_the_same_when_their_characters_are() {
    assert!(same_text("", ""));
    assert!(same_text("get_size", "get_size"));
    assert!(same_text("Grüße", "Grüße"));
    assert!(!same_text("size", "size_fn"));
    assert!(!same_text("size_fn", "size"));
    assert!(!same_text("ignore", "ignorE"));
    assert!(!same_text("Grüße", "Grusse"));
    assert!(!same_text("", "a"));
}
