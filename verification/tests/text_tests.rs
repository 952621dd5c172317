use inference_server::text::{
    char_is_whitespace, chars_of, concat2, concat3, contains, copy_strings, decimal_text,
    integer_text, join, lex_at_most, list_contains, skip_chars, sort_strings, split_whitespace,
    starts_with, str_eq,
};

#[test]
fn decimal_numerals() {
    assert_eq!(decimal_text(0), "0");
    assert_eq!(decimal_text(7), "7");
    assert_eq!(decimal_text(10), "10");
    assert_eq!(decimal_text(128001), "128001");
    assert_eq!(decimal_text(u64::MAX), u64::MAX.to_string());
}

#[test]
fn whitespace_is_what_the_standard_library_says() {
    for code in 0u32..0x3100 {
        if let Some(c) = char::from_u32(code) {
            assert_eq!(char_is_whitespace(c), c.is_whitespace(), "{code:x}");
        }
    }
    assert!(!char_is_whitespace('\u{200B}'));
    assert!(!char_is_whitespace('\u{FEFF}'));
}

#[test]
fn words_are_what_split_whitespace_gives() {
    let texts = [
        "",
        " ",
        "hello",
        "hello world",
        "  hello   world  ",
        "a\tb\nc\r\nd",
        "tab\u{00A0}nbsp \u{3000}wide",
        "é ü ñ",
        "one",
        " lead",
        "trail ",
    ];
    for text in texts {
        let expected: Vec<String> = text.split_whitespace().map(|w| w.to_string()).collect();
        assert_eq!(split_whitespace(text), expected, "{text:?}");
    }
}

#[test]
fn prefixes_and_substrings() {
    assert!(starts_with("mock-test", "mock-"));
    assert!(starts_with("mock-", "mock-"));
    assert!(!starts_with("mock", "mock-"));
    assert!(!starts_with("not-mock", "mock-"));
    assert!(starts_with("anything", ""));
    assert!(starts_with("", ""));
    assert!(contains("gpt-4-turbo", "turbo"));
    assert!(contains("gpt-4-turbo", "gpt"));
    assert!(contains("abc", ""));
    assert!(contains("", ""));
    assert!(!contains("abc", "abcd"));
    assert!(!contains("babbage", "gpt"));
    assert!(contains("xxgpt", "gpt"));
}

#[test]
fn joining_and_copying() {
    let list = vec!["a".to_string(), "b".to_string(), "c".to_string()];
    assert_eq!(join(&list, ", "), "a, b, c");
    assert_eq!(join(&list[..1].to_vec(), ", "), "a");
    assert_eq!(join(&Vec::new(), ", "), "");
    assert_eq!(copy_strings(&list), list);
    assert!(list_contains(&list, "b"));
    assert!(!list_contains(&list, "d"));
    assert_eq!(concat2("ab", "cd"), "abcd");
    assert_eq!(concat3("a", "b", "c"), "abc");
    assert_eq!(skip_chars("mock-é", 5), "é");
    assert_eq!(chars_of("héllo"), vec!['h', 'é', 'l', 'l', 'o']);
    assert!(str_eq("a", "a"));
    assert!(!str_eq("a", "b"));
}

#[test]
fn integer_texts() {
    for (text, ok) in [
        ("0", true),
        ("42", true),
        ("-7", true),
        ("+7", true),
        ("", false),
        ("-", false),
        ("+", false),
        ("1.5", false),
        ("1e3", false),
        (" 1", false),
        ("12a", false),
        ("٣", false),
    ] {
        assert_eq!(integer_text(text), ok, "{text:?}");
    }
}

#[test]
fn the_order_of_strings_is_that_of_the_standard_library() {
    let samples = ["", "a", "A", "ab", "abc", "b", "ä", "z", "zz", "é", "\u{10000}", "\u{FFFF}", "a\u{0}", "mock-a", "mock-"];
    for a in samples {
        for b in samples {
            assert_eq!(lex_at_most(a, b), a <= b, "{a:?} {b:?}");
        }
    }
    let list: Vec<String> = samples.iter().rev().map(|s| s.to_string()).collect();
    let doubled: Vec<String> = list.iter().chain(list.iter()).cloned().collect();
    for input in [list, doubled, Vec::new(), vec!["x".to_string()]] {
        let mut expected = input.clone();
        expected.sort();
        assert_eq!(sort_strings(&input), expected);
    }
}
