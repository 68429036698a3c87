//! Rules of the task scheduler's tables: defaults of a new task, the status
//! of a finished run, editing a task, and the single-daemon lock.

use vstd::prelude::*;
use crate::models::{NewTask, ScheduledTaskRow, UpdateTask};

verus! {

/// Retries allowed when a new task does not say.
pub const DEFAULT_MAX_RETRIES: i32 = 3;

/// Run timeout in milliseconds when a new task does not say.
pub const DEFAULT_TIMEOUT_MS: i64 = 300_000;

/// A lock whose heartbeat is older than this many seconds is stale.
pub const DAEMON_LOCK_STALE_SECS: i64 = 300;

/// Status of a task run that is still executing.
pub const RUN_STATUS_RUNNING: &'static str = "running";

/// Status of a task run that finished without error.
pub const RUN_STATUS_SUCCESS: &'static str = "success";

/// Status of a task run that finished with an error.
pub const RUN_STATUS_FAILED: &'static str = "failed";

/// Limits stored with a new task.
pub struct TaskLimits {
    pub max_retries: i32,
    pub timeout_ms: i64,
}

/// The retry and timeout limits stored for a new task: its own, or the defaults.
pub fn new_task_limits(task: &NewTask<'_>) -> (r: TaskLimits)
    ensures
        r.max_retries == match task.max_retries {
            Some(m) => m,
            None => DEFAULT_MAX_RETRIES,
        },
        r.timeout_ms == match task.timeout_ms {
            Some(t) => t,
            None => DEFAULT_TIMEOUT_MS,
        },
{
    let max_retries = match task.max_retries {
        Some(m) => m,
        None => DEFAULT_MAX_RETRIES,
    };
    let timeout_ms = match task.timeout_ms {
        Some(t) => t,
        None => DEFAULT_TIMEOUT_MS,
    };
    TaskLimits { max_retries, timeout_ms }
}

/// Status recorded for a finished run: failed when it reported an error.
pub fn finished_run_status(error: Option<&str>) -> (r: &'static str)
    ensures
        error is Some ==> r@ == "failed"@,
        error is None ==> r@ == "success"@,
{
    match error {
        Some(_) => RUN_STATUS_FAILED,
        None => RUN_STATUS_SUCCESS,
    }
}

/// Task type of a stored row; rows from before task types are prompt tasks.
pub fn stored_task_type(stored: Option<String>) -> (r: String)
    ensures
        r@ == match stored {
            Some(t) => t@,
            None => "prompt"@,
        },
{
    match stored {
        Some(t) => t,
        None => String::from_str("prompt"),
    }
}

/// A task after an edit: each field as given, or unchanged.
pub struct EditedTask {
    pub name: String,
    pub prompt: String,
    pub schedule_type: String,
    pub schedule_expr: String,
    pub timezone: String,
    /// The schedule changed, so the next run must be computed anew;
    /// otherwise the stored next run is kept.
    pub reschedule: bool,
}

/// `Some` field of an edit, else the stored value.
pub open spec fn edited(new_value: Option<&str>, stored: Seq<char>) -> Seq<char> {
    match new_value {
        Some(v) => v@,
        None => stored,
    }
}

fn pick(new_value: Option<&str>, stored: &String) -> (r: String)
    ensures
        r@ == edited(new_value, stored@),
{
    match new_value {
        Some(v) => String::from_str(v),
        None => stored.clone(),
    }
}

/// Applies an edit to a stored task.
pub fn apply_task_update(existing: &ScheduledTaskRow, update: &UpdateTask<'_>) -> (r: EditedTask)
    ensures
        r.name@ == edited(update.name, existing.name@),
        r.prompt@ == edited(update.prompt, existing.prompt@),
        r.schedule_type@ == edited(update.schedule_type, existing.schedule_type@),
        r.schedule_expr@ == edited(update.schedule_expr, existing.schedule_expr@),
        r.timezone@ == edited(update.timezone, existing.timezone@),
        r.reschedule == (update.schedule_type is Some || update.schedule_expr is Some),
{
    EditedTask {
        name: pick(update.name, &existing.name),
        prompt: pick(update.prompt, &existing.prompt),
        schedule_type: pick(update.schedule_type, &existing.schedule_type),
        schedule_expr: pick(update.schedule_expr, &existing.schedule_expr),
        timezone: pick(update.timezone, &existing.timezone),
        reschedule: update.schedule_type.is_some() || update.schedule_expr.is_some(),
    }
}

/// The daemon lock row: holder's pid and last heartbeat.
pub struct LockRow {
    pub pid: i64,
    pub heartbeat_at: i64,
}

/// What acquiring the daemon lock does.
#[derive(Debug, Clone, Copy, PartialEq, Eq, Structural)]
pub enum LockAcquisition {
    /// No lock row: insert one for this pid.
    Create,
    /// This pid holds the lock (a restarted daemon): refresh it.
    Renew,
    /// Another pid holds a stale lock: take it over.
    TakeOverStale,
    /// Another live daemon holds the lock: not acquired.
    Denied,
}

impl LockAcquisition {
    /// The lock is held by the caller afterwards.
    pub open spec fn acquired(self) -> bool {
        self != LockAcquisition::Denied
    }
}

/// A heartbeat at `heartbeat_at` is still fresh at `now`.
pub open spec fn heartbeat_fresh(heartbeat_at: i64, now: i64) -> bool {
    now - heartbeat_at <= DAEMON_LOCK_STALE_SECS
}

/// The lock row exists and is held by a pid other than `pid`, so comparing
/// the heartbeat computes `now - heartbeat_at`, which must fit in `i64`.
pub open spec fn lock_check_fits(existing: Option<LockRow>, pid: u32, now: i64) -> bool {
    match existing {
        Some(row) => row.pid != pid as i64 ==> i64::MIN <= now - row.heartbeat_at <= i64::MAX,
        None => true,
    }
}

/// Decision taken when `pid` asks for the daemon lock at `now`.
pub open spec fn lock_decision(existing: Option<LockRow>, pid: u32, now: i64) -> LockAcquisition {
    match existing {
        None => LockAcquisition::Create,
        Some(row) => if row.pid == pid as i64 {
            LockAcquisition::Renew
        } else if !heartbeat_fresh(row.heartbeat_at, now) {
            LockAcquisition::TakeOverStale
        } else {
            LockAcquisition::Denied
        },
    }
}

/// Decides whether `pid` gets the daemon lock given the current lock row.
pub fn decide_daemon_lock(existing: Option<LockRow>, pid: u32, now: i64) -> (r: LockAcquisition)
    requires
        lock_check_fits(existing, pid, now),
    ensures
        r == lock_decision(existing, pid, now),
{
    match existing {
        None => LockAcquisition::Create,
        Some(row) => {
            if row.pid == pid as i64 {
                LockAcquisition::Renew
            } else if now - row.heartbeat_at > DAEMON_LOCK_STALE_SECS {
                LockAcquisition::TakeOverStale
            } else {
                LockAcquisition::Denied
            }
        },
    }
}

/// Whether a daemon holds the lock at `now`: a lock row exists and its
/// heartbeat is at most 300 seconds old.
pub fn daemon_lock_held(heartbeat_at: Option<i64>, now: i64) -> (r: bool)
    requires
        heartbeat_at matches Some(h) ==> i64::MIN <= now - h <= i64::MAX,
    ensures
        r == match heartbeat_at {
            Some(h) => heartbeat_fresh(h, now),
            None => false,
        },
{
    match heartbeat_at {
        Some(h) => now - h <= DAEMON_LOCK_STALE_SECS,
        None => false,
    }
}

/// The lock row after `pid` asked for the lock at `now`.
pub open spec fn lock_after(existing: Option<LockRow>, pid: u32, now: i64) -> Option<LockRow> {
    if lock_decision(existing, pid, now).acquired() {
        Some(LockRow { pid: pid as i64, heartbeat_at: now })
    } else {
        existing
    }
}

/// Law: a live daemon excludes every other pid. Once `holder` has the lock at
/// `t0`, any other pid asking at a time up to the stale threshold is denied,
/// and the holder itself is always let back in.
pub proof fn lemma_lock_excludes_others(
    existing: Option<LockRow>,
    holder: u32,
    other: u32,
    t0: i64,
    t1: i64,
)
    requires
        lock_decision(existing, holder, t0).acquired(),
        holder != other,
        t0 <= t1 <= t0 + DAEMON_LOCK_STALE_SECS,
    ensures
        lock_decision(lock_after(existing, holder, t0), other, t1) == LockAcquisition::Denied,
        lock_decision(lock_after(existing, holder, t0), holder, t1) == LockAcquisition::Renew,
{
}

/// Law: the four outcomes of asking for the lock. A new row is created
/// exactly when there is none; a row of the same pid is renewed; a row of
/// another pid whose heartbeat is more than 300 seconds old is taken over,
/// however old it is; any other row denies the lock.
pub proof fn lemma_lock_decision_cases(existing: Option<LockRow>, pid: u32, now: i64)
    ensures
        (lock_decision(existing, pid, now) == LockAcquisition::Create) == (existing is None),
        existing matches Some(row) && row.pid == pid as i64 ==> lock_decision(existing, pid, now)
            == LockAcquisition::Renew,
        existing matches Some(row) && row.pid != pid as i64 && now - row.heartbeat_at > 300
            ==> lock_decision(existing, pid, now) == LockAcquisition::TakeOverStale,
        existing matches Some(row) && row.pid != pid as i64 && now - row.heartbeat_at <= 300
            ==> lock_decision(existing, pid, now) == LockAcquisition::Denied,
{
}

/// Law: another pid gets the lock exactly when the holder's heartbeat is stale.
pub proof fn lemma_other_pid_acquires_iff_stale(row: LockRow, pid: u32, now: i64)
    requires
        row.pid != pid as i64,
    ensures
        lock_decision(Some(row), pid, now).acquired() <==> !heartbeat_fresh(row.heartbeat_at, now),
{
}

} // verus!
