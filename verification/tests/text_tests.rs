use wintrack::text::{build_body, marker_str, str_contains, str_eq};

#[test]
fn substitute_single_marker() {
    let out = build_body("{\"content\": \"{{MARKDOWN}}\"}", "hello");
    assert_eq!(out, "{\"content\": \"hello\"}");
    assert!(!out.contains("{{MARKDOWN}}"));
}

#[test]
fn substitute_no_marker_returns_template_unchanged() {
    let out = build_body("{\"content\": \"fixed\"}", "ignored");
    assert_eq!(out, "{\"content\": \"fixed\"}");
}

#[test]
fn substitute_empty_template() {
    assert_eq!(build_body("", "anything"), "");
}

#[test]
fn substitute_replaces_every_occurrence() {
    let out = build_body("a{{MARKDOWN}}b{{MARKDOWN}}c", "X");
    assert_eq!(out, "aXbXc");
}

#[test]
fn substitute_marker_only_template() {
    assert_eq!(build_body("{{MARKDOWN}}", "body text"), "body text");
}

#[test]
fn substitute_keeps_text_around_marker_position() {
    let out = build_body("before {{MARKDOWN}} after", "MID");
    assert_eq!(out, "before MID after");
    assert_eq!(out.find("MID"), Some(7));
}

#[test]
fn substitute_overlapping_fragment_can_rebuild_marker() {
    // A seam between the kept prefix and the replacement can itself spell
    // the marker; replacement is one left-to-right pass, so it stays.
    let out = build_body("ab{{MARK{{MARKDOWN}}", "DOWN}}x");
    assert_eq!(out, "ab{{MARKDOWN}}x");
    assert!(out.contains("{{MARKDOWN}}"));
}

#[test]
fn substitute_unicode_template_and_text() {
    let out = build_body("前缀 {{MARKDOWN}} 后缀", "消息⏰");
    assert_eq!(out, "前缀 消息⏰ 后缀");
}

#[test]
fn marker_is_the_documented_placeholder() {
    assert_eq!(marker_str(), "{{MARKDOWN}}");
}

#[test]
fn contains_finds_needles() {
    assert!(str_contains("hello world", "o w"));
    assert!(str_contains("hello", ""));
    assert!(!str_contains("hello", "world"));
    assert!(!str_contains("", "x"));
}

#[test]
fn str_eq_compares_characters() {
    assert!(str_eq("abc", "abc"));
    assert!(!str_eq("abc", "abd"));
    assert!(!str_eq("abc", "ab"));
    assert!(str_eq("", ""));
}
