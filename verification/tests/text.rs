use moxin::text::{is_blank, join_texts, same_text, strip_end_char, trim_text};

#[test]
fn trimming_follows_unicode_whitespace() {
    assert_eq!(trim_text("\u{3000} a b \n"), "a b");
    assert_eq!(trim_text("   "), "");
    assert_eq!(trim_text("x"), "x");
    assert!(is_blank(" \t\u{A0}"));
    assert!(!is_blank(" . "));
    assert_eq!(strip_end_char("a//", '/'), "a");
    assert!(same_text("好", "好"));
    assert!(!same_text("a", "b"));
    assert_eq!(join_texts(&vec!["a".to_string(), "b".to_string()], " | "), "a | b");
    assert_eq!(join_texts(&Vec::new(), " | "), "");
}
