use meeting_summarizer::text::{
    chars_of, contains, decimal, find_chars, is_before, is_control, is_whitespace, join2, join3, same_text, signed_decimal,
    slice_chars, split_lines, starts_with, string_of, strip_prefix_chars, trim,
};

fn chars(s: &str) -> Vec<char> {
    s.chars().collect()
}

#[test]
fn chars_and_strings_round_trip() {
    let v = chars_of("録音 abc");
    assert_eq!(v, vec!['録', '音', ' ', 'a', 'b', 'c']);
    assert_eq!(string_of(&v), "録音 abc");
    assert_eq!(string_of(&Vec::new()), "");
}

#[test]
fn contains_finds_patterns_anywhere() {
    assert!(contains("https://api.openai.com/v1", "openai.com"));
    assert!(contains("abc", ""));
    assert!(contains("abc", "abc"));
    assert!(!contains("abc", "abcd"));
    assert!(!contains("", "a"));
    assert!(contains("", ""));
}

#[test]
fn find_returns_the_first_occurrence_after_the_start() {
    let s = chars("abcabc");
    let p = chars("bc");
    assert_eq!(find_chars(&s, &p, 0), Some(1));
    assert_eq!(find_chars(&s, &p, 2), Some(4));
    assert_eq!(find_chars(&s, &p, 5), None);
    assert_eq!(find_chars(&s, &chars("x"), 0), None);
    assert_eq!(find_chars(&s, &chars(""), 6), Some(6));
    assert_eq!(find_chars(&s, &chars(""), 7), None);
}

#[test]
fn starts_with_compares_the_beginning() {
    assert!(starts_with("## heading", "##"));
    assert!(!starts_with("# heading", "##"));
    assert!(starts_with("x", ""));
}

#[test]
fn trim_removes_unicode_whitespace_at_both_ends() {
    assert_eq!(trim("  hello world \n"), "hello world");
    assert_eq!(trim("\u{3000}会議\u{3000}"), "会議");
    assert_eq!(trim(" \t\r\n"), "");
    assert_eq!(trim("x"), "x");
}

#[test]
fn decimal_writes_numbers_without_leading_zeros() {
    assert_eq!(decimal(0), "0");
    assert_eq!(decimal(7), "7");
    assert_eq!(decimal(10), "10");
    assert_eq!(decimal(1755000000), "1755000000");
    assert_eq!(decimal(u64::MAX), "18446744073709551615");
}

#[test]
fn signed_decimal_writes_a_minus_sign() {
    assert_eq!(signed_decimal(0), "0");
    assert_eq!(signed_decimal(-1), "-1");
    assert_eq!(signed_decimal(42), "42");
    assert_eq!(signed_decimal(i64::MIN), "-9223372036854775808");
    assert_eq!(signed_decimal(i64::MAX), "9223372036854775807");
}

#[test]
fn same_text_compares_characters() {
    assert!(same_text("ja", "ja"));
    assert!(!same_text("ja", "en"));
    assert!(!same_text("ja", "jap"));
    assert!(same_text("", ""));
}

#[test]
fn joins_concatenate() {
    assert_eq!(join2("a", "b"), "ab");
    assert_eq!(join3("Model: ", "small", " (not downloaded)"), "Model: small (not downloaded)");
}

#[test]
fn slices_take_the_characters_between_positions() {
    let v = chars("abcdef");
    assert_eq!(slice_chars(&v, 1, 4), chars("bcd"));
    assert_eq!(slice_chars(&v, 3, 3), chars(""));
}

#[test]
fn prefixes_are_stripped_repeatedly() {
    assert_eq!(strip_prefix_chars(&chars("- - item"), &chars("- ")), chars("item"));
    assert_eq!(strip_prefix_chars(&chars("item"), &chars("- ")), chars("item"));
    assert_eq!(strip_prefix_chars(&chars("aaa"), &chars("a")), chars(""));
    assert_eq!(strip_prefix_chars(&chars("aaa"), &chars("")), chars("aaa"));
}

#[test]
fn lines_are_split_as_the_standard_library_does() {
    let cases = ["", "a", "a\n", "a\nb", "a\r\nb\r\n", "\n", "\n\n", "a\rb", "a\r", "a\n\nb", "\r\n"];
    for case in cases {
        let expected: Vec<Vec<char>> = case.lines().map(|l| l.chars().collect()).collect();
        assert_eq!(split_lines(&chars(case)), expected, "lines of {:?}", case);
    }
}

#[test]
fn control_codes_are_those_of_the_standard_library() {
    for code in 0..=0x10ffffu32 {
        if let Some(c) = char::from_u32(code) {
            assert_eq!(is_control(c), c.is_control(), "U+{:04X}", code);
        }
    }
    assert!(is_control('\u{0}'));
    assert!(is_control('\u{1f}'));
    assert!(!is_control(' '));
    assert!(!is_control('~'));
    assert!(is_control('\u{7f}'));
    assert!(is_control('\u{9f}'));
    assert!(!is_control('\u{a0}'));
}

#[test]
fn white_space_is_that_of_the_standard_library() {
    let mut count = 0;
    for code in 0..=0x10ffffu32 {
        if let Some(c) = char::from_u32(code) {
            assert_eq!(is_whitespace(c), c.is_whitespace(), "U+{:04X}", code);
            if is_whitespace(c) {
                count += 1;
            }
        }
    }
    assert_eq!(count, 25);
    assert!(is_whitespace(' '));
    assert!(is_whitespace('\n'));
    assert!(is_whitespace('\u{3000}'));
    assert!(!is_whitespace('a'));
    assert!(!is_whitespace('\u{200b}'));
}

#[test]
fn texts_are_ordered_as_strings_are() {
    let samples = ["", "a", "ab", "b", "B", "abc", "abd", "会議", "会", "é", "z", "~", "\u{10000}", "\u{ffff}"];
    for a in samples {
        for b in samples {
            assert_eq!(is_before(a, b), a < b, "{:?} before {:?}", a, b);
        }
    }
    assert!(is_before("", "a"));
    assert!(is_before("ab", "b"));
    assert!(!is_before("b", "ab"));
    assert!(!is_before("a", "a"));
}
