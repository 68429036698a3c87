use borg_db::models::{NewTask, ScheduledTaskRow, UpdateTask};
use borg_db::tasks::{
    apply_task_update, daemon_lock_held, decide_daemon_lock, finished_run_status,
    new_task_limits, stored_task_type, LockAcquisition, LockRow,
};

fn task(max_retries: Option<i32>, timeout_ms: Option<i64>) -> NewTask<'static> {
    NewTask {
        id: "t1",
        name: "n",
        prompt: "p",
        schedule_type: "cron",
        schedule_expr: "0 9 * * *",
        timezone: "local",
        next_run: None,
        max_retries,
        timeout_ms,
        delivery_channel: None,
        delivery_target: None,
        allowed_tools: None,
        task_type: "prompt",
    }
}

fn row() -> ScheduledTaskRow {
    ScheduledTaskRow {
        id: "t1".into(),
        name: "old name".into(),
        prompt: "old prompt".into(),
        schedule_type: "cron".into(),
        schedule_expr: "0 9 * * *".into(),
        timezone: "UTC".into(),
        status: "active".into(),
        next_run: Some(100),
        created_at: 1,
        max_retries: 3,
        retry_count: 0,
        retry_after: None,
        last_error: None,
        timeout_ms: 300_000,
        delivery_channel: None,
        delivery_target: None,
        allowed_tools: None,
        task_type: "prompt".into(),
    }
}

#[test]
fn new_task_defaults() {
    let l = new_task_limits(&task(None, None));
    assert_eq!((l.max_retries, l.timeout_ms), (3, 300_000));
    let l = new_task_limits(&task(Some(0), Some(5)));
    assert_eq!((l.max_retries, l.timeout_ms), (0, 5));
}

#[test]
fn run_status_follows_error() {
    assert_eq!(finished_run_status(Some("boom")), "failed");
    assert_eq!(finished_run_status(None), "success");
}

#[test]
fn missing_task_type_is_prompt() {
    assert_eq!(stored_task_type(None), "prompt");
    assert_eq!(stored_task_type(Some("command".into())), "command");
}

#[test]
fn update_task_fields_merge() {
    let upd = UpdateTask {
        name: Some("new name"),
        prompt: None,
        schedule_type: None,
        schedule_expr: None,
        timezone: Some("Europe/Paris"),
    };
    let e = apply_task_update(&row(), &upd);
    assert_eq!(e.name, "new name");
    assert_eq!(e.prompt, "old prompt");
    assert_eq!(e.timezone, "Europe/Paris");
    assert!(!e.reschedule);
    let upd = UpdateTask {
        name: None,
        prompt: None,
        schedule_type: None,
        schedule_expr: Some("0 10 * * *"),
        timezone: None,
    };
    let e = apply_task_update(&row(), &upd);
    assert_eq!(e.schedule_expr, "0 10 * * *");
    assert!(e.reschedule);
}

#[test]
fn daemon_lock_acquire_release() {
    assert_eq!(decide_daemon_lock(None, 100, 1000), LockAcquisition::Create);
    // After release there is no lock row, so a different pid acquires.
    assert_eq!(decide_daemon_lock(None, 200, 1000), LockAcquisition::Create);
}

#[test]
fn daemon_lock_prevents_duplicate() {
    let held = LockRow { pid: 100, heartbeat_at: 1000 };
    assert_eq!(decide_daemon_lock(Some(held), 200, 1010), LockAcquisition::Denied);
    let held = LockRow { pid: 100, heartbeat_at: 1000 };
    assert_eq!(decide_daemon_lock(Some(held), 200, 1300), LockAcquisition::Denied);
}

#[test]
fn daemon_lock_same_pid_renews() {
    let held = LockRow { pid: 42, heartbeat_at: 1000 };
    assert_eq!(decide_daemon_lock(Some(held), 42, 1010), LockAcquisition::Renew);
}

#[test]
fn daemon_lock_stale_takeover() {
    let held = LockRow { pid: 100, heartbeat_at: 1000 };
    assert_eq!(decide_daemon_lock(Some(held), 200, 1400), LockAcquisition::TakeOverStale);
    let held = LockRow { pid: 100, heartbeat_at: 1000 };
    assert_eq!(decide_daemon_lock(Some(held), 200, 1301), LockAcquisition::TakeOverStale);
}

#[test]
fn lock_freshness_threshold() {
    assert!(daemon_lock_held(Some(1000), 1300));
    assert!(!daemon_lock_held(Some(1000), 1301));
    assert!(daemon_lock_held(Some(1000), 900));
    assert!(!daemon_lock_held(None, 1000));
}
