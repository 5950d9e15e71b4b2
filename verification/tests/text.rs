use gpt_bot::text::{equals, starts_with, strip_prefix, trim};

#[test]
fn starts_with_finds_a_prefix() {
    assert!(starts_with("!gpt hello", "!gpt"));
    assert!(starts_with("!gpt", "!gpt"));
    assert!(starts_with("anything", ""));
    assert!(starts_with("", ""));
}

#[test]
fn starts_with_refuses_what_is_no_prefix() {
    assert!(!starts_with("!gp", "!gpt"));
    assert!(!starts_with("", "!"));
    assert!(!starts_with(" !gpt", "!gpt"));
    assert!(!starts_with("!gpT hello", "!gpt"));
}

#[test]
fn starts_with_counts_characters_not_bytes() {
    assert!(starts_with("héllo", "hé"));
    assert!(!starts_with("héllo", "he"));
    assert!(starts_with("日本語のテキスト", "日本"));
}

#[test]
fn equals_compares_whole_texts() {
    assert!(equals("!ping", "!ping"));
    assert!(equals("", ""));
    assert!(!equals("!ping", "!pin"));
    assert!(!equals("!pin", "!ping"));
    assert!(!equals("!ping", "!pong"));
    assert!(!equals("é", "e"));
}

#[test]
fn strip_prefix_gives_the_rest() {
    assert_eq!(strip_prefix("!gpt hello", "!gpt "), Some("hello"));
    assert_eq!(strip_prefix("!gpt", "!gpt"), Some(""));
    assert_eq!(strip_prefix("héllo wörld", "héllo "), Some("wörld"));
    assert_eq!(strip_prefix("text", ""), Some("text"));
}

#[test]
fn strip_prefix_gives_none_without_the_prefix() {
    assert_eq!(strip_prefix("hello", "!gpt "), None);
    assert_eq!(strip_prefix("!gp", "!gpt"), None);
    assert_eq!(strip_prefix("", "!"), None);
}

#[test]
fn trim_removes_whitespace_at_both_ends() {
    assert_eq!(trim("  a b \n"), "a b");
    assert_eq!(trim("\t\r\nx"), "x");
    assert_eq!(trim("x  "), "x");
    assert_eq!(trim("inner  space"), "inner  space");
}

#[test]
fn trim_of_whitespace_is_empty() {
    assert_eq!(trim(""), "");
    assert_eq!(trim("   "), "");
    assert_eq!(trim("\n"), "");
}

#[test]
fn trim_knows_unicode_whitespace() {
    assert_eq!(trim("\u{3000}日本語\u{2003}"), "日本語");
    assert_eq!(trim("\u{a0}é\u{a0}"), "é");
}

#[test]
fn trim_keeps_what_is_no_whitespace() {
    assert_eq!(trim("_a_"), "_a_");
    assert_eq!(trim("\u{200b}a"), "\u{200b}a");
}
