use watchso::text::{
    decimal, ends_with, is_whitespace, replace_char, split_whitespace, str_eq, trim_end_matches,
};

#[test]
fn whitespace_is_the_unicode_property() {
    let mut code: u32 = 0;
    while code <= 0x10ffff {
        if let Some(c) = char::from_u32(code) {
            assert_eq!(is_whitespace(c), c.is_whitespace(), "U+{:04X}", code);
        }
        code += 1;
    }
}

#[test]
fn split_whitespace_yields_the_words() {
    assert_eq!(split_whitespace("cargo build-sbf"), vec!["cargo", "build-sbf"]);
    assert_eq!(split_whitespace("  a\t b\n\nc  "), vec!["a", "b", "c"]);
    assert_eq!(split_whitespace("one"), vec!["one"]);
}

#[test]
fn split_whitespace_of_blank_text_is_empty() {
    assert!(split_whitespace("").is_empty());
    assert!(split_whitespace(" \t\n").is_empty());
}

#[test]
fn split_whitespace_agrees_with_std() {
    for text in ["solana address -k /tmp/my key.json", "\u{a0}x\u{3000}y", "äö ü", ""] {
        let expected: Vec<String> = text.split_whitespace().map(|w| w.to_owned()).collect();
        assert_eq!(split_whitespace(text), expected);
    }
}

#[test]
fn decimal_digits() {
    assert_eq!(decimal(0), "0");
    assert_eq!(decimal(7), "7");
    assert_eq!(decimal(10), "10");
    assert_eq!(decimal(1234567890), "1234567890");
    assert_eq!(decimal(usize::MAX), usize::MAX.to_string());
}

#[test]
fn ends_with_suffix() {
    assert!(ends_with("hello-keypair.json", "-keypair.json"));
    assert!(ends_with("abc", ""));
    assert!(ends_with("abc", "abc"));
    assert!(!ends_with("abc", "xabc"));
    assert!(!ends_with("hello.json", "-keypair.json"));
}

#[test]
fn trim_end_matches_removes_every_repetition() {
    assert_eq!(trim_end_matches("hello.so", ".so"), "hello");
    assert_eq!(trim_end_matches("hello.so.so", ".so"), "hello");
    assert_eq!(trim_end_matches("hello", ".so"), "hello");
    assert_eq!(trim_end_matches("line\n\n", "\n"), "line");
    assert_eq!(trim_end_matches("aaa", "aa"), "a");
    assert_eq!(trim_end_matches("abc", ""), "abc");
    assert_eq!(trim_end_matches(".so", ".so"), "");
}

#[test]
fn replace_char_replaces_each_occurrence() {
    assert_eq!(replace_char("hello_big_world", '_', "-"), "hello-big-world");
    assert_eq!(replace_char("plain", '_', "-"), "plain");
    assert_eq!(replace_char("__", '_', "-"), "--");
    assert_eq!(replace_char("", '_', "-"), "");
    assert_eq!(replace_char("a.b", '.', "::"), "a::b");
    assert_eq!(replace_char("a.b.", '.', ""), "ab");
}

#[test]
fn str_eq_compares_contents() {
    assert!(str_eq("", ""));
    assert!(str_eq("äbc", "äbc"));
    assert!(!str_eq("abc", "abd"));
    assert!(!str_eq("abc", "ab"));
}
