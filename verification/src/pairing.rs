//! Rules of sender pairing: codes, expiry, approval and attempt counting.

use vstd::prelude::*;
use crate::models::PairingRequestRow;

verus! {

/// Full Unicode uppercase mapping of `s` (`str::to_uppercase`).
pub uninterp spec fn uppercase(s: Seq<char>) -> Seq<char>;

/// `str::to_uppercase`: the result is the Unicode uppercase mapping of the
/// input; the mapping's tables are not restated here.
#[verifier::external_body]
fn to_uppercase(s: &str) -> (r: String)
    ensures
        r@ == uppercase(s@),
{
    s.to_uppercase()
}

/// Codes are compared in upper case, so approval is case-insensitive.
pub fn normalize_pairing_code(code: &str) -> (r: String)
    ensures
        r@ == uppercase(code@),
{
    to_uppercase(code)
}

/// Expiry time of a request created at `now` that lives `ttl_secs` seconds.
pub fn pairing_expiry(now: i64, ttl_secs: i64) -> (r: i64)
    requires
        i64::MIN <= now + ttl_secs <= i64::MAX,
    ensures
        r == now + ttl_secs,
{
    now + ttl_secs
}

/// Requests created after this time count as recent attempts.
pub fn attempt_window_start(now: i64, window_secs: i64) -> (r: i64)
    requires
        i64::MIN <= now - window_secs <= i64::MAX,
    ensures
        r == now - window_secs,
{
    now - window_secs
}

/// A row count as a `u32`; counts that do not fit saturate at `u32::MAX`
/// (`u32::try_from(count).unwrap_or(u32::MAX)`).
pub fn attempts_as_u32(count: i64) -> (r: u32)
    ensures
        0 <= count <= u32::MAX ==> r == count,
        !(0 <= count <= u32::MAX) ==> r == u32::MAX,
{
    if 0 <= count && count <= 0xffff_ffff {
        count as u32
    } else {
        u32::MAX
    }
}

/// The request as returned by a successful approval at `now`.
pub fn approved_request(request: PairingRequestRow, now: i64) -> (r: PairingRequestRow)
    ensures
        r.status@ == "approved"@,
        r.approved_at == Some(now),
        r.id == request.id,
        r.channel_name == request.channel_name,
        r.sender_id == request.sender_id,
        r.code == request.code,
        r.display_name == request.display_name,
        r.created_at == request.created_at,
        r.expires_at == request.expires_at,
{
    PairingRequestRow {
        status: String::from_str("approved"),
        approved_at: Some(now),
        ..request
    }
}

} // verus!
