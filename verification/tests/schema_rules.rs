use borg_db::schema::contains_name;
use borg_db::schema::busy_timeout_pragma;
use borg_db::schema::{
    current_version_text, is_stale_setting, legacy_schema_version, parse_u32, pending_migrations,
    schema_version_from_meta, should_import_setting, stale_setting_keys, CURRENT_SCHEMA_VERSION,
};

#[test]
fn parse_u32_follows_std() {
    for s in ["0", "7", "+7", "007", "4294967295", "", "+", "-1", "4294967296", " 1", "1a", "٣"] {
        assert_eq!(parse_u32(s), s.parse::<u32>().ok(), "input {s:?}");
    }
}

#[test]
fn corrupted_schema_version_counts_as_zero() {
    assert_eq!(schema_version_from_meta("12"), 12);
    assert_eq!(schema_version_from_meta("twelve"), 0);
    assert_eq!(schema_version_from_meta(""), 0);
}

#[test]
fn legacy_database_without_version_is_version_one() {
    assert_eq!(legacy_schema_version(1), 1);
    assert_eq!(legacy_schema_version(0), 0);
}

#[test]
fn pending_migrations_are_those_above_current() {
    let all = pending_migrations(0);
    assert_eq!(all.len(), CURRENT_SCHEMA_VERSION as usize);
    assert_eq!(all[0], 1);
    assert_eq!(*all.last().unwrap(), CURRENT_SCHEMA_VERSION);
    assert_eq!(pending_migrations(36), vec![37, 38]);
    assert!(pending_migrations(CURRENT_SCHEMA_VERSION).is_empty());
    assert!(pending_migrations(CURRENT_SCHEMA_VERSION + 5).is_empty());
}

#[test]
fn stored_version_text_reads_back() {
    let text = current_version_text();
    assert_eq!(text, CURRENT_SCHEMA_VERSION.to_string());
    assert_eq!(schema_version_from_meta(&text), CURRENT_SCHEMA_VERSION);
    assert!(pending_migrations(schema_version_from_meta(&text)).is_empty());
}

#[test]
fn stale_settings_keep_registry_and_skill_keys() {
    let known = vec!["ui.theme".to_string(), "llm.model".to_string()];
    assert!(!is_stale_setting("ui.theme", &known));
    assert!(!is_stale_setting("skills.entries.git.enabled", &known));
    assert!(is_stale_setting("skills.entries.git.disabled", &known));
    assert!(is_stale_setting("old.key", &known));
    let stored = vec![
        "llm.model".to_string(),
        "old.key".to_string(),
        "skills.entries.x.enabled".to_string(),
        "renamed".to_string(),
    ];
    assert_eq!(stale_setting_keys(&stored, &known), vec!["old.key".to_string(), "renamed".to_string()]);
}

#[test]
fn config_values_import_only_when_customised_and_unset() {
    assert!(should_import_setting("dark", "light", false));
    assert!(!should_import_setting("light", "light", false));
    assert!(!should_import_setting("", "light", false));
    assert!(!should_import_setting("dark", "light", true));
}

#[test]
fn busy_timeout_pragma_text() {
    assert_eq!(busy_timeout_pragma(5000), "PRAGMA busy_timeout=5000");
    assert_eq!(busy_timeout_pragma(0), "PRAGMA busy_timeout=0");
    assert_eq!(busy_timeout_pragma(u64::MAX), format!("PRAGMA busy_timeout={}", u64::MAX));
}

#[test]
fn column_lookup() {
    let cols = vec!["id".to_string(), "status".to_string()];
    assert!(contains_name(&cols, "status"));
    assert!(!contains_name(&cols, "stat"));
}
