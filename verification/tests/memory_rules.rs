use borg_db::memory::{append_content, daily_entry_name, is_blank, sanitize_fts_query};

#[test]
fn test_sanitize_fts_query() {
    assert_eq!(sanitize_fts_query("hello world"), "\"hello\" \"world\"");
    assert_eq!(sanitize_fts_query("test\"injection"), "\"testinjection\"");
    assert_eq!(sanitize_fts_query("  spaces  "), "\"spaces\"");
    assert_eq!(sanitize_fts_query(""), "");
}

#[test]
fn sanitize_fts_query_handles_tabs_newlines_and_quote_only_words() {
    assert_eq!(sanitize_fts_query("a\tb\nc"), "\"a\" \"b\" \"c\"");
    assert_eq!(sanitize_fts_query("\"\" x"), "\"\" \"x\"");
    assert_eq!(sanitize_fts_query("   "), "");
    assert_eq!(sanitize_fts_query("OR NEAR(x)"), "\"OR\" \"NEAR(x)\"");
}

#[test]
fn append_content_avoids_double_newline() {
    assert_eq!(append_content(Some("line 1\n"), "line 2"), "line 1\nline 2");
}

#[test]
fn append_inserts_newline_when_missing() {
    assert_eq!(append_content(Some("first"), "second"), "first\nsecond");
    assert_eq!(append_content(Some(""), "second"), "\nsecond");
}

#[test]
fn append_content_without_previous_entry() {
    assert_eq!(append_content(None, "brand new"), "brand new");
}

#[test]
fn blank_content_is_whitespace_only() {
    assert!(is_blank(""));
    assert!(is_blank(" \t\n\r\u{a0}\u{3000}"));
    assert!(!is_blank("  x  "));
}

#[test]
fn daily_names_are_prefixed() {
    assert_eq!(daily_entry_name("2025-04-12"), "daily/2025-04-12");
}
