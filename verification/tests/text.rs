use cnoidc::text::{
    cap, contains, decimal_text, ends_with, is_text, join, lists, same, same_non_empty, trim,
    trim_end,
};

#[test]
fn trims_whitespace_of_every_kind() {
    assert_eq!(trim("  a b \n\t"), "a b");
    assert_eq!(trim("\u{a0}\u{2003}x\u{3000}"), "x");
    assert_eq!(trim(" \r\n"), "");
    assert_eq!(trim(""), "");
    assert_eq!(trim("x"), "x");
}

#[test]
fn whitespace_is_what_unicode_says() {
    let white = [
        '\u{9}', '\u{a}', '\u{b}', '\u{c}', '\u{d}', ' ', '\u{85}', '\u{a0}', '\u{1680}',
        '\u{2000}', '\u{2001}', '\u{2002}', '\u{2003}', '\u{2004}', '\u{2005}', '\u{2006}',
        '\u{2007}', '\u{2008}', '\u{2009}', '\u{200a}', '\u{2028}', '\u{2029}', '\u{202f}',
        '\u{205f}', '\u{3000}',
    ];
    for c in '\u{0}'..=char::MAX {
        assert_eq!(trim(&c.to_string()).is_empty(), white.contains(&c), "{c:?}");
    }
}

#[test]
fn absent_and_empty_texts_are_the_same() {
    let text = |t: &str| Some(t.to_string());
    assert!(same_non_empty(&None, &None));
    assert!(same_non_empty(&text(""), &None));
    assert!(same_non_empty(&None, &text("")));
    assert!(same_non_empty(&text(""), &text("")));
    assert!(same_non_empty(&text("a"), &text("a")));
    assert!(!same_non_empty(&text("a"), &text("b")));
    assert!(!same_non_empty(&text("a"), &None));
    assert!(!same_non_empty(&text(""), &text("a")));
}

#[test]
fn trims_a_trailing_run() {
    assert_eq!(trim_end("https://a//", '/'), "https://a");
    assert_eq!(trim_end("///", '/'), "");
    assert_eq!(trim_end("/a", '/'), "/a");
    assert_eq!(trim_end("", '/'), "");
}

#[test]
fn finds_parts() {
    assert!(contains("got 401 Unauthorized.", "401 Unauthorized"));
    assert!(!contains("got 401 unauthorized.", "401 Unauthorized"));
    assert!(contains("abc", ""));
    assert!(contains("aab", "ab"));
    assert!(!contains("ab", "abc"));
}

#[test]
fn caps_by_characters() {
    assert_eq!(cap("grün", 3), "grü");
    assert_eq!(cap("grün", 4), "grün");
    assert_eq!(cap("grün", 0), "");
}

#[test]
fn writes_numbers() {
    assert_eq!(decimal_text(0), "0");
    assert_eq!(decimal_text(10), "10");
    assert_eq!(decimal_text(18_446_744_073_709_551_615), "18446744073709551615");
}

#[test]
fn joins_and_compares() {
    let parts = vec!["a".to_string(), "b".to_string(), "c".to_string()];
    assert_eq!(join(&parts, ": "), "a: b: c");
    assert_eq!(join(&vec![], ": "), "");
    assert!(lists(&parts, "b"));
    assert!(!lists(&parts, "d"));
    assert!(same("ä", "ä"));
    assert!(!same("ä", "a"));
    assert!(ends_with("a/", '/'));
    assert!(!ends_with("", '/'));
    assert!(is_text(&Some("x".to_string()), "x"));
    assert!(!is_text(&None, ""));
}
