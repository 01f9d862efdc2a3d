use interplex::key::{is_whitespace, tokenize_key};
use interplex::text::push_decimal;

#[test]
fn whitespace_agrees_with_std() {
    for n in 0u32..=0x10FFFF {
        if let Some(c) = char::from_u32(n) {
            assert_eq!(is_whitespace(c), c.is_whitespace(), "char {:#x}", n);
        }
    }
}

fn std_tokenize(s: &str) -> String {
    let tokens: Vec<&str> = s.split_whitespace().collect();
    tokens.join("_")
}

#[test]
fn tokenize_agrees_with_split_whitespace_join() {
    let samples = [
        "",
        " ",
        "key1",
        "token key with spaces",
        "  lead",
        "trail  ",
        "a\tb\nc\r\nd",
        "a\u{00A0}b\u{2003}c\u{3000}d",
        "ünï cödé  ✓",
        "already_tokenized",
        "x  _  y",
        "\u{85}\u{1680}",
    ];
    for s in samples.iter() {
        assert_eq!(tokenize_key(s), std_tokenize(s), "key {:?}", s);
    }
}

#[test]
fn tokenize_examples() {
    assert_eq!(tokenize_key("token key with spaces"), "token_key_with_spaces");
    assert_eq!(tokenize_key("  a \t b  "), "a_b");
    assert_eq!(tokenize_key(""), "");
    assert_eq!(tokenize_key("   "), "");
}

#[test]
fn tokenize_is_idempotent_on_examples() {
    for s in ["a b  c", " x ", "", "p\tq"].iter() {
        let once = tokenize_key(s);
        assert_eq!(tokenize_key(&once), once);
        assert!(!once.chars().any(|c| c.is_whitespace()));
    }
}

#[test]
fn decimal_matches_to_string() {
    for i in [0i64, 1, 9, 10, 42, 100, 12345, -1, -10, -987, i64::MAX, i64::MIN] {
        let mut s = "x=".to_string();
        push_decimal(&mut s, i);
        assert_eq!(s, format!("x={}", i));
    }
}
