//! Audit of user skills: each observed skill's content hash is compared
//! with the one recorded before.

use vstd::prelude::*;
use crate::text::str_eq;

verus! {

/// Outcome of recording one observed user skill.
#[derive(Debug, Clone, PartialEq, Eq)]
pub enum SkillAuditOutcome {
    /// This skill name has not been seen before — its hash is now recorded.
    FirstSeen,
    /// The stored hash matches the observed one.
    Unchanged,
    /// The stored hash differs from the observed one; the stored hash has
    /// been updated to the new value. `prev_sha256` is the hash we had
    /// before this observation.
    Modified { prev_sha256: String },
}

/// One row from the `skill_audit` table.
#[derive(Debug, Clone)]
pub struct SkillAuditRow {
    pub name: String,
    pub sha256: String,
    pub first_seen_at: i64,
    pub last_seen_at: i64,
}

/// The write that records an observation.
#[derive(Debug, Clone, Copy, PartialEq, Eq, Structural)]
pub enum SkillAuditWrite {
    /// Insert a row with the hash, first and last seen now.
    Insert,
    /// Only move `last_seen_at` to now.
    TouchLastSeen,
    /// Store the new hash and move `last_seen_at` to now.
    ReplaceHash,
}

/// Outcome and write for one observation.
pub struct SkillAuditStep {
    pub outcome: SkillAuditOutcome,
    pub write: SkillAuditWrite,
}

/// Decides what observing a skill with hash `sha256` means, given the hash
/// stored for it, if any.
pub fn decide_skill_audit(stored: Option<String>, sha256: &str) -> (r: SkillAuditStep)
    ensures
        stored is None ==> r.outcome == SkillAuditOutcome::FirstSeen && r.write
            == SkillAuditWrite::Insert,
        match stored {
            Some(p) => if p@ == sha256@ {
                r.outcome == SkillAuditOutcome::Unchanged && r.write
                    == SkillAuditWrite::TouchLastSeen
            } else {
                r.outcome == SkillAuditOutcome::Modified { prev_sha256: p } && r.write
                    == SkillAuditWrite::ReplaceHash
            },
            None => true,
        },
{
    match stored {
        None => SkillAuditStep { outcome: SkillAuditOutcome::FirstSeen, write: SkillAuditWrite::Insert },
        Some(prev) => {
            if str_eq(prev.as_str(), sha256) {
                SkillAuditStep {
                    outcome: SkillAuditOutcome::Unchanged,
                    write: SkillAuditWrite::TouchLastSeen,
                }
            } else {
                SkillAuditStep {
                    outcome: SkillAuditOutcome::Modified { prev_sha256: prev },
                    write: SkillAuditWrite::ReplaceHash,
                }
            }
        },
    }
}

/// Which write an observation of `sha256` performs, given the stored hash.
pub open spec fn audit_write(stored: Option<Seq<char>>, sha256: Seq<char>) -> SkillAuditWrite {
    match stored {
        None => SkillAuditWrite::Insert,
        Some(p) => if p == sha256 {
            SkillAuditWrite::TouchLastSeen
        } else {
            SkillAuditWrite::ReplaceHash
        },
    }
}

/// The stored hash after the write.
pub open spec fn hash_after(stored: Option<Seq<char>>, sha256: Seq<char>) -> Option<Seq<char>> {
    match audit_write(stored, sha256) {
        SkillAuditWrite::Insert => Some(sha256),
        SkillAuditWrite::TouchLastSeen => stored,
        SkillAuditWrite::ReplaceHash => Some(sha256),
    }
}

/// Law: after any observation the stored hash is the observed one, so
/// observing the same content again only touches `last_seen_at` (it is
/// reported unchanged).
pub proof fn lemma_second_observation_unchanged(stored: Option<Seq<char>>, sha256: Seq<char>)
    ensures
        hash_after(stored, sha256) == Some(sha256),
        audit_write(hash_after(stored, sha256), sha256) == SkillAuditWrite::TouchLastSeen,
{
}

} // verus!
