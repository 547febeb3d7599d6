use ec_cli::text::{
    chars_of, decimal, find_from, first_two_pieces, first_visible, has_pattern, is_space,
    natural_to_string, slice_text, strip_quotes, trim, trim_start,
};

#[test]
fn decimal_numbers() {
    assert_eq!(decimal(0), "0");
    assert_eq!(decimal(7), "7");
    assert_eq!(decimal(10), "10");
    assert_eq!(decimal(-1), "-1");
    assert_eq!(decimal(2024), "2024");
    assert_eq!(decimal(-9050), "-9050");
    assert_eq!(decimal(i64::MAX), "9223372036854775807");
    assert_eq!(decimal(i64::MIN), "-9223372036854775808");
    assert_eq!(natural_to_string(u64::MAX), "18446744073709551615");
    assert_eq!(natural_to_string(100), "100");
}

#[test]
fn whitespace_is_what_unicode_says() {
    for c in [' ', '\t', '\n', '\r', '\u{0b}', '\u{0c}', '\u{85}', '\u{a0}', '\u{1680}',
        '\u{2000}', '\u{200a}', '\u{2028}', '\u{2029}', '\u{202f}', '\u{205f}', '\u{3000}']
    {
        assert!(is_space(c));
    }
    for c in ['a', '0', '\u{200b}', '\u{08}', '\u{0e}', '\u{feff}', '\u{180e}', '_'] {
        assert!(!is_space(c));
    }
}

#[test]
fn whitespace_agrees_with_std_on_every_character() {
    let mut code = 0u32;
    while code <= 0x10ffff {
        if let Some(c) = char::from_u32(code) {
            assert_eq!(is_space(c), c.is_whitespace());
        }
        code += 1;
    }
}

#[test]
fn trimming() {
    assert_eq!(trim("  a b \n"), "a b");
    assert_eq!(trim_start("  a b \n"), "a b \n");
    assert_eq!(trim(""), "");
    assert_eq!(trim(" \t\n"), "");
    assert_eq!(trim_start(" \t\n"), "");
    assert_eq!(trim("x"), "x");
    assert_eq!(trim("\u{3000}\u{00e9}t\u{00e9}\u{a0}"), "\u{00e9}t\u{00e9}");
}

#[test]
fn quotes_are_stripped_at_both_ends() {
    assert_eq!(strip_quotes("\"abc\""), "abc");
    assert_eq!(strip_quotes("abc"), "abc");
    assert_eq!(strip_quotes("\"\"a\"b\""), "a\"b");
    assert_eq!(strip_quotes("\"\"\""), "");
    assert_eq!(strip_quotes(" \"abc\""), " \"abc");
}

#[test]
fn first_visible_character() {
    assert_eq!(first_visible("  {x"), Some('{'));
    assert_eq!(first_visible("abc"), Some('a'));
    assert_eq!(first_visible(" \n "), None);
    assert_eq!(first_visible(""), None);
}

#[test]
fn finding_a_pattern() {
    let text = chars_of("abcabcab");
    assert_eq!(find_from(&text, &chars_of("abc"), 0), Some(0));
    assert_eq!(find_from(&text, &chars_of("abc"), 1), Some(3));
    assert_eq!(find_from(&text, &chars_of("abc"), 4), None);
    assert_eq!(find_from(&text, &chars_of("ab"), 4), Some(6));
    assert_eq!(find_from(&text, &chars_of("abcabcabc"), 0), None);
    assert_eq!(find_from(&text, &chars_of("b"), 100), None);
    assert_eq!(find_from(&text, &chars_of(""), 8), Some(8));
    assert_eq!(find_from(&text, &chars_of(""), 9), None);
    assert!(has_pattern("abcabcab", "cab"));
    assert!(!has_pattern("abcabcab", "cc"));
    assert!(has_pattern("", ""));
    assert!(!has_pattern("", "a"));
}

#[test]
fn pieces_of_a_text() {
    assert_eq!(first_two_pieces("a-b-c", "-"), ("a".to_string(), "b".to_string()));
    assert_eq!(first_two_pieces("a-b", "-"), ("a".to_string(), "b".to_string()));
    assert_eq!(first_two_pieces("ab", "-"), ("ab".to_string(), String::new()));
    assert_eq!(first_two_pieces("ab-", "-"), ("ab".to_string(), String::new()));
    assert_eq!(first_two_pieces("--", "-"), (String::new(), String::new()));
    assert_eq!(first_two_pieces("", "-"), (String::new(), String::new()));
    assert_eq!(
        first_two_pieces("\u{00e9}<>\u{4e2d}\u{6587}<>z", "<>"),
        ("\u{00e9}".to_string(), "\u{4e2d}\u{6587}".to_string())
    );
}

#[test]
fn characters_and_slices() {
    assert_eq!(chars_of("h\u{00e9}!"), vec!['h', '\u{00e9}', '!']);
    assert_eq!(chars_of(""), Vec::<char>::new());
    assert_eq!(slice_text("h\u{00e9}llo", 1, 3), "\u{00e9}l");
    assert_eq!(slice_text("hello", 5, 5), "");
    assert_eq!(slice_text("hello", 0, 5), "hello");
}
