use mermaid_render::engine::ScriptHost;
use mermaid_render::sanitize::escape;

#[test]
fn escape_backslash() {
    assert_eq!(escape("a\\b"), "a\\\\b");
}

#[test]
fn escape_backtick() {
    assert_eq!(escape("`"), "\\`");
}

#[test]
fn escape_newline() {
    assert_eq!(escape("line1\nline2"), "line1\\nline2");
}

#[test]
fn escape_carriage_return_removed() {
    assert_eq!(escape("a\rb"), "ab");
}

#[test]
fn escape_backslash_before_backtick_not_double_escaped() {
    assert_eq!(escape("\\`"), "\\\\\\`");
}

#[test]
fn escape_empty() {
    assert_eq!(escape(""), "");
}

#[test]
fn escape_plain_text_unchanged() {
    assert_eq!(escape("graph TD; A-->B"), "graph TD; A-->B");
}

#[test]
fn escaped_text_survives_template_literal_round_trip() {
    let nasty = "a`b\\c\nd\re";
    let mut host = ScriptHost::new();
    let script = format!("var x = `{}`; x", escape(nasty));
    let value = host.evaluate(&script).unwrap();
    let back = value.into_text().unwrap();
    assert_eq!(back, "a`b\\c\nde");
}

#[test]
fn escape_handles_multi_byte_characters() {
    assert_eq!(escape("日本`語\n"), "日本\\`語\\n");
}

#[test]
fn unescaped_backtick_breaks_template_literal() {
    let nasty = "a`b";
    let mut host = ScriptHost::new();
    let script = format!("var x = `{}`; x", nasty);
    assert!(host.evaluate(&script).is_err());
}
