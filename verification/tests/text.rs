use voxtype_elevenlabs_adapter::sanitize_error;
use voxtype_elevenlabs_adapter::text::trim;

#[test]
fn redacts_the_api_key_and_collapses_white_space() {
    let body = "  {\"detail\":\n\t\"bad key sk_123 given\"}   ";
    assert_eq!(
        sanitize_error(body, "sk_123"),
        "{\"detail\": \"bad key [redacted] given\"}"
    );
}

#[test]
fn redacts_every_occurrence_left_to_right() {
    assert_eq!(sanitize_error("kkk", "kk"), "[redacted]k");
    assert_eq!(sanitize_error("xkkx kk", "kk"), "x[redacted]x [redacted]");
}

#[test]
fn empty_detail_is_named() {
    assert_eq!(sanitize_error("", "key"), "no error detail");
    assert_eq!(sanitize_error(" \n\t\u{3000}", "key"), "no error detail");
}

#[test]
fn detail_is_cut_to_five_hundred_characters() {
    let body = "é".repeat(640);
    let detail = sanitize_error(&body, "key");
    assert_eq!(detail.chars().count(), 500);
    assert!(detail.chars().all(|c| c == 'é'));

    let short = "a".repeat(500);
    assert_eq!(sanitize_error(&short, "key"), short);
}

#[test]
fn cut_may_end_on_a_space() {
    let body = format!("{} b", "a".repeat(499));
    let detail = sanitize_error(&body, "key");
    assert_eq!(detail.chars().count(), 500);
    assert!(detail.ends_with(' '));
}

#[test]
fn empty_key_marks_every_boundary() {
    assert_eq!(sanitize_error("ab", ""), "[redacted]a[redacted]b[redacted]");
}

#[test]
fn unicode_white_space_separates_words() {
    assert_eq!(
        sanitize_error("a\u{a0}b\u{2003}c\u{85}d\u{200b}e", "zz"),
        "a b c d\u{200b}e"
    );
}

#[test]
fn sanitized_detail_never_holds_a_plain_key() {
    let key = "sk_0123456789abcdef";
    let body = format!("{key}{key} {key}\n{key}x");
    let detail = sanitize_error(&body, key);
    assert!(!detail.contains(key));
    assert_eq!(
        detail,
        "[redacted][redacted] [redacted] [redacted]x"
    );
}

#[test]
fn trims_unicode_white_space() {
    assert_eq!(trim("\u{3000} key \n"), "key");
    assert_eq!(trim("   "), "");
}

#[test]
fn clean_detail_passes_unchanged() {
    let body = "{\"detail\": \"quota exceeded\"}";
    assert_eq!(sanitize_error(body, "sk_0123456789abcdef"), body);
}

#[test]
fn uncut_detail_ends_with_a_non_space() {
    let detail = sanitize_error("  quota  exceeded \n", "sk_0123456789abcdef");
    assert_eq!(detail, "quota exceeded");
    assert!(!detail.ends_with(' '));
}

#[test]
fn trimming_twice_changes_nothing() {
    for s in ["  a b  ", "\u{a0}x\u{2028}", "", "   ", "y"] {
        assert_eq!(trim(&trim(s)), trim(s));
    }
}
