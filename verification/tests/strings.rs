use deno_terminal::strings::str_ends_with;
use deno_terminal::strings::str_eq;

#[test]
fn equal_texts() {
    assert!(str_eq("", ""));
    assert!(str_eq("dumb", "dumb"));
    assert!(str_eq("na\u{ef}ve \u{1f600}", "na\u{ef}ve \u{1f600}"));
}

#[test]
fn different_texts() {
    assert!(!str_eq("dumb", "dum"));
    assert!(!str_eq("dum", "dumb"));
    assert!(!str_eq("dumb", "Dumb"));
    assert!(!str_eq("dumb", "dumc"));
    assert!(!str_eq("", "a"));
    assert!(!str_eq("\u{e9}", "\u{e8}"));
    assert!(!str_eq("\u{e9}", "e"));
}

#[test]
fn suffixes() {
    assert!(str_ends_with("xterm-256color", "-256color"));
    assert!(str_ends_with("xterm-256color", ""));
    assert!(str_ends_with("", ""));
    assert!(str_ends_with("256", "256"));
    assert!(str_ends_with("\u{e9}256", "256"));
    assert!(str_ends_with("a\u{e9}", "\u{e9}"));
    assert!(str_ends_with("a\u{1f600}b", "\u{1f600}b"));
}

#[test]
fn not_suffixes() {
    assert!(!str_ends_with("xterm-256color", "256"));
    assert!(!str_ends_with("56", "256"));
    assert!(!str_ends_with("", "a"));
    assert!(!str_ends_with("256 ", "256"));
    assert!(!str_ends_with("abc", "ab"));
    assert!(!str_ends_with("a\u{e9}", "\u{e8}"));
    assert!(!str_ends_with("\u{e9}", "\u{a9}"));
}
