use borg_db::query::all_chunks_query;
use borg_db::models::{MessageRow, PairingRequestRow, ProjectStatus};
use borg_db::pairing::{
    approved_request, attempt_window_start, attempts_as_u32, normalize_pairing_code,
    pairing_expiry,
};
use borg_db::query::{activity_levels, activity_query, delete_turn_query, last_assistant_turn_ids, SqlParam};
use borg_db::skill_audit::{decide_skill_audit, SkillAuditOutcome, SkillAuditWrite};

fn msg(id: i64, role: &str) -> MessageRow {
    MessageRow {
        id,
        session_id: "s1".into(),
        role: role.into(),
        content: None,
        content_parts_json: None,
        tool_calls_json: None,
        tool_call_id: None,
        timestamp: None,
        created_at: 0,
    }
}

#[test]
fn last_turn_walks_back_to_user() {
    let ms = vec![msg(1, "user"), msg(2, "assistant"), msg(3, "tool"), msg(4, "assistant")];
    assert_eq!(last_assistant_turn_ids(&ms), vec![4, 3, 2]);
}

#[test]
fn last_turn_empty_when_last_is_user() {
    let ms = vec![msg(1, "assistant"), msg(2, "user")];
    assert!(last_assistant_turn_ids(&ms).is_empty());
    assert!(last_assistant_turn_ids(&Vec::new()).is_empty());
    let only_assistant = vec![msg(7, "assistant"), msg(8, "tool")];
    assert_eq!(last_assistant_turn_ids(&only_assistant), vec![8, 7]);
}

#[test]
fn delete_turn_statement() {
    let q = delete_turn_query("s1", &vec![4, 3]);
    assert_eq!(q.sql, "DELETE FROM messages WHERE session_id = ?1 AND id IN (?,?)");
    assert_eq!(q.params.len(), 3);
    assert!(matches!(&q.params[0], SqlParam::Text(s) if s == "s1"));
    assert!(matches!(q.params[1], SqlParam::Integer(4)));
    assert!(matches!(q.params[2], SqlParam::Integer(3)));
}

#[test]
fn activity_level_filtering() {
    assert_eq!(activity_levels(Some("error")), vec!["error"]);
    assert_eq!(activity_levels(Some("warn")), vec!["error", "warn"]);
    assert_eq!(activity_levels(None), vec!["error", "warn", "info"]);
    assert_eq!(activity_levels(Some("info")), vec!["error", "warn", "info"]);
    assert_eq!(activity_levels(Some("all")), vec!["error", "warn", "info", "debug"]);
    assert_eq!(activity_levels(Some("debug")), vec!["error", "warn", "info", "debug"]);
    assert_eq!(activity_levels(Some("bogus")), vec!["error", "warn", "info"]);
}

#[test]
fn activity_query_with_category() {
    let q = activity_query(10, Some("warn"), Some("tasks"));
    assert_eq!(
        q.sql,
        "SELECT id, level, category, message, detail, created_at\n                     FROM activity_log\n                     WHERE level IN (?1, ?2) AND category = ?3\n                     ORDER BY created_at DESC\n                     LIMIT ?4"
    );
    assert_eq!(q.params.len(), 4);
    assert!(matches!(&q.params[2], SqlParam::Text(s) if s == "tasks"));
    assert!(matches!(q.params[3], SqlParam::Integer(10)));
}

#[test]
fn activity_query_without_category() {
    let q = activity_query(5, None, None);
    assert!(q.sql.contains("WHERE level IN (?1, ?2, ?3)\n"));
    assert!(q.sql.ends_with("LIMIT ?4"));
    assert_eq!(q.params.len(), 4);
    assert!(matches!(&q.params[0], SqlParam::Text(s) if s == "error"));
}

#[test]
fn skill_audit_outcomes() {
    let first = decide_skill_audit(None, "aaa");
    assert_eq!(first.outcome, SkillAuditOutcome::FirstSeen);
    assert_eq!(first.write, SkillAuditWrite::Insert);
    let same = decide_skill_audit(Some("aaa".into()), "aaa");
    assert_eq!(same.outcome, SkillAuditOutcome::Unchanged);
    assert_eq!(same.write, SkillAuditWrite::TouchLastSeen);
    let changed = decide_skill_audit(Some("aaa".into()), "bbb");
    assert_eq!(changed.outcome, SkillAuditOutcome::Modified { prev_sha256: "aaa".into() });
    assert_eq!(changed.write, SkillAuditWrite::ReplaceHash);
}

#[test]
fn pairing_rules() {
    assert_eq!(normalize_pairing_code("ab12cd"), "AB12CD");
    assert_eq!(pairing_expiry(1000, 300), 1300);
    assert_eq!(attempt_window_start(1000, 3600), -2600);
    assert_eq!(attempts_as_u32(5), 5);
    assert_eq!(attempts_as_u32(-1), u32::MAX);
    assert_eq!(attempts_as_u32(i64::MAX), u32::MAX);
    let req = PairingRequestRow {
        id: "r1".into(),
        channel_name: "telegram".into(),
        sender_id: "u1".into(),
        code: "ABC123".into(),
        status: "pending".into(),
        display_name: Some("Ann".into()),
        created_at: 10,
        expires_at: 20,
        approved_at: None,
    };
    let done = approved_request(req, 15);
    assert_eq!(done.status, "approved");
    assert_eq!(done.approved_at, Some(15));
    assert_eq!(done.code, "ABC123");
    assert_eq!(done.display_name.as_deref(), Some("Ann"));
}

#[test]
fn project_status_text_round_trip() {
    for s in ProjectStatus::ALL {
        assert_eq!(ProjectStatus::parse(s.as_str()), Ok(s));
        assert_eq!(s.as_str().parse::<ProjectStatus>(), Ok(s));
    }
    assert_eq!(ProjectStatus::Active.as_str(), "active");
    assert_eq!(ProjectStatus::Archived.as_str(), "archived");
    assert_eq!(
        ProjectStatus::parse("paused"),
        Err("Invalid status: paused. Use 'active' or 'archived'.".to_string())
    );
}

#[test]
fn chunk_listing_limit_is_optional() {
    let q = all_chunks_query("global", None);
    assert!(q.sql.ends_with("ORDER BY filename, chunk_index"));
    assert_eq!(q.params.len(), 1);
    let q = all_chunks_query("global", Some(3));
    assert!(q.sql.ends_with("ORDER BY filename, chunk_index LIMIT ?2"));
    assert!(matches!(q.params[1], SqlParam::Integer(3)));
}
