use shopify_oauth::text::{chars_of, contains, ends_with, same_text};

#[test]
fn chars_of_keeps_every_character_in_order() {
    assert_eq!(chars_of("a\u{e9}z"), vec!['a', '\u{e9}', 'z']);
    assert_eq!(chars_of(""), Vec::<char>::new());
}

#[test]
fn same_text_compares_character_by_character() {
    assert!(same_text("/auth", "/auth"));
    assert!(same_text("", ""));
    assert!(!same_text("/auth", "/auth/"));
    assert!(!same_text("/auth", "/autH"));
    assert!(!same_text("", "x"));
}

#[test]
fn ends_with_accepts_the_suffix_and_the_whole() {
    assert!(ends_with("shop1.myshopify.com", ".myshopify.com"));
    assert!(ends_with(".myshopify.com", ".myshopify.com"));
    assert!(ends_with("anything", ""));
    assert!(ends_with("", ""));
}

#[test]
fn ends_with_refuses_what_is_no_suffix() {
    assert!(!ends_with("shop1.myshopify.com.evil.org", ".myshopify.com"));
    assert!(!ends_with("myshopify.com", ".myshopify.com"));
    assert!(!ends_with("", ".myshopify.com"));
    assert!(!ends_with("shop1.myshopify.co", ".myshopify.com"));
    assert!(!ends_with("shop1.myshopify.comm", ".myshopify.com"));
}

#[test]
fn ends_with_counts_characters_not_bytes() {
    assert!(ends_with("caf\u{e9}.myshopify.com", ".myshopify.com"));
    assert!(ends_with("x\u{e9}", "\u{e9}"));
    assert!(!ends_with("x\u{e9}", "e"));
}

#[test]
fn contains_finds_the_needle_anywhere() {
    assert!(contains("auth_token=tok_abc", "auth_token"));
    assert!(contains("theme=dark; auth_token=tok_abc", "auth_token"));
    assert!(contains("auth_token", "auth_token"));
    assert!(contains("xauth_tokenx", "auth_token"));
    assert!(contains("abc", ""));
    assert!(contains("", ""));
}

#[test]
fn contains_refuses_a_needle_that_is_not_there() {
    assert!(!contains("", "auth_token"));
    assert!(!contains("auth_toke", "auth_token"));
    assert!(!contains("auth-token=tok_abc", "auth_token"));
    assert!(!contains("auth_tokeauth_toke", "auth_token"));
    assert!(!contains("AUTH_TOKEN=1", "auth_token"));
}

#[test]
fn contains_finds_a_needle_after_a_false_start() {
    assert!(contains("aab", "ab"));
    assert!(contains("auth_auth_token", "auth_token"));
}
