use openfang::ids::{AgentId, SessionId, UserId};
use openfang::text::{
    chars_of, decimal_text, join, replace_char, same_text, strip_prefix, text_before, trim,
    trim_end_matches, trim_start_matches,
};

#[test]
fn texts_are_trimmed() {
    assert_eq!(trim(" \t\r\n\u{a0}\u{3000}a b\u{2028} "), "a b");
    assert_eq!(trim("\u{feff}x"), "\u{feff}x");
    assert_eq!(trim("   "), "");
    assert_eq!(trim_start_matches("``````x", "```"), "x");
    assert_eq!(trim_end_matches("x//", "/"), "x");
    assert_eq!(trim_end_matches("x", ""), "x");
    assert_eq!(strip_prefix("data: x", "data: "), Some("x"));
    assert_eq!(strip_prefix("data:x", "data: "), None);
}

#[test]
fn texts_are_compared_and_built() {
    assert!(same_text("\u{e9}", "\u{e9}"));
    assert!(!same_text("e\u{301}", "\u{e9}"));
    assert_eq!(chars_of("a\u{1f600}"), vec!['a', '\u{1f600}']);
    let items = ["a".to_string(), "".to_string(), "b".to_string()];
    assert_eq!(join(&items, "; "), "a; ; b");
    assert_eq!(join(&[], "; "), "");
    assert_eq!(replace_char("a_b_", '_', ' '), "a b ");
    assert_eq!(decimal_text(0), "0");
    assert_eq!(decimal_text(u64::MAX), "18446744073709551615");
    assert!(text_before("a", "ab") && text_before("Z", "a") && text_before("\u{7f}", "\u{80}"));
    assert!(!text_before("a", "a") && !text_before("b", "ab"));
}

#[test]
fn ids_have_the_hyphenated_form() {
    assert_eq!(UserId::nil().to_string(), "00000000-0000-0000-0000-000000000000");
    assert_eq!(
        AgentId(0x0123_4567_89ab_cdef_0123_4567_89ab_cdef).to_string(),
        "01234567-89ab-cdef-0123-456789abcdef"
    );
    let id = SessionId::new();
    assert_eq!(id.to_string(), uuid::Uuid::from_u128(id.0).to_string());
    assert_eq!(uuid::Uuid::from_u128(id.0).get_version_num(), 4);
}
