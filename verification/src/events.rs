//! Rules for the event-sourced ledgers (vitals, bond, evolution): which bond
//! events are valid, the hourly rate-limit windows, and how each new event is
//! chained to the one before it by its HMAC.

use vstd::prelude::*;
use crate::text::str_eq;

verus! {

/// Width of a rate-limit window, in seconds.
pub const RATE_WINDOW_SECS: i64 = 3600;

/// At most this many bond events are recorded per hour.
pub const BOND_EVENTS_PER_HOUR: i64 = 15;

/// At most this many bond events with a positive delta are recorded per hour.
pub const BOND_POSITIVE_EVENTS_PER_HOUR: i64 = 8;

/// Remainder of `a / m` truncated toward zero (Rust's `%` on signed integers).
pub open spec fn trunc_rem(a: int, m: int) -> int {
    if a >= 0 || a % m == 0 {
        a % m
    } else {
        a % m - m
    }
}

/// Start of the rate-limit window holding `now`: `now - now % 3600`
/// (for negative times the window boundary rounds toward zero).
pub fn hour_window_start(now: i64) -> (r: i64)
    ensures
        r == now - trunc_rem(now as int, 3600),
{
    let r = now % RATE_WINDOW_SECS;
    proof {
        if now >= 0 {
            assert(r == now % 3600);
        }
    }
    now - r
}

/// Law: the window of a non-negative time starts at a whole hour at or
/// before it and contains it; for negative times the window boundary lies at
/// or after the time, less than an hour away.
pub proof fn lemma_hour_window_contains(now: i64)
    ensures
        (now - trunc_rem(now as int, 3600)) % 3600 == 0,
        now >= 0 ==> now - trunc_rem(now as int, 3600) <= now < now - trunc_rem(now as int, 3600)
            + 3600,
        now < 0 ==> now - trunc_rem(now as int, 3600) - 3600 < now <= now - trunc_rem(
            now as int,
            3600,
        ),
{
    vstd::arithmetic::div_mod::lemma_fundamental_div_mod(now as int, 3600);
}

/// The score delta each bond event type must carry; other types are invalid.
pub open spec fn bond_expected_delta_spec(event_type: Seq<char>) -> Option<i32> {
    if event_type == "tool_success"@ {
        Some(1i32)
    } else if event_type == "tool_failure"@ {
        Some(-1i32)
    } else if event_type == "creation"@ {
        Some(1i32)
    } else if event_type == "correction"@ {
        Some(-2i32)
    } else if event_type == "suggestion_accepted"@ {
        Some(1i32)
    } else if event_type == "suggestion_rejected"@ {
        Some(-1i32)
    } else {
        None
    }
}

/// The delta a bond event of this type must carry, if the type is valid.
pub fn bond_expected_delta(event_type: &str) -> (r: Option<i32>)
    ensures
        r == bond_expected_delta_spec(event_type@),
{
    if str_eq(event_type, "tool_success") {
        Some(1)
    } else if str_eq(event_type, "tool_failure") {
        Some(-1)
    } else if str_eq(event_type, "creation") {
        Some(1)
    } else if str_eq(event_type, "correction") {
        Some(-2)
    } else if str_eq(event_type, "suggestion_accepted") {
        Some(1)
    } else if str_eq(event_type, "suggestion_rejected") {
        Some(-1)
    } else {
        None
    }
}

/// Why a bond event is refused before anything is written.
#[derive(Debug, Clone, Copy, PartialEq, Eq)]
pub enum BondEventError {
    /// The event type is not one of the known bond event types.
    InvalidEventType,
    /// The delta differs from the one fixed for the event type.
    WrongDelta { expected: i32 },
}

/// Checks a bond event's type and delta: custom types and inflated deltas
/// are refused.
pub fn validate_bond_event(event_type: &str, delta: i32) -> (r: Result<(), BondEventError>)
    ensures
        match bond_expected_delta_spec(event_type@) {
            None => r == Err::<(), BondEventError>(BondEventError::InvalidEventType),
            Some(expected) => if delta == expected {
                r is Ok
            } else {
                r == Err::<(), BondEventError>(BondEventError::WrongDelta { expected })
            },
        },
{
    match bond_expected_delta(event_type) {
        None => Err(BondEventError::InvalidEventType),
        Some(expected) => if delta == expected {
            Ok(())
        } else {
            Err(BondEventError::WrongDelta { expected })
        },
    }
}

/// The hourly cap on all bond events is reached.
pub fn bond_total_cap_reached(events_this_hour: i64) -> (r: bool)
    ensures
        r == (events_this_hour >= BOND_EVENTS_PER_HOUR),
{
    events_this_hour >= BOND_EVENTS_PER_HOUR
}

/// The hourly cap on positive bond events is reached.
pub fn bond_positive_cap_reached(positive_this_hour: i64) -> (r: bool)
    ensures
        r == (positive_this_hour >= BOND_POSITIVE_EVENTS_PER_HOUR),
{
    positive_this_hour >= BOND_POSITIVE_EVENTS_PER_HOUR
}

/// The per-type hourly cap (`limit` events of one type or category) is reached.
pub fn type_cap_reached(count_this_hour: i64, limit: u32) -> (r: bool)
    ensures
        r == (count_this_hour >= limit as i64),
{
    count_this_hour >= limit as i64
}

/// The HMAC that stands before the first event of a chain.
pub open spec fn genesis_hmac() -> Seq<char> {
    "0"@
}

/// `prev_hmac` of a new event: the HMAC of the latest event, or the genesis
/// value `"0"` when the ledger has none (or it could not be read).
pub open spec fn prev_hmac_spec(latest: Option<Seq<char>>) -> Seq<char> {
    match latest {
        Some(h) => h,
        None => genesis_hmac(),
    }
}

/// Computes the `prev_hmac` of a new event from the latest stored HMAC.
pub fn prev_hmac_for(latest: Option<String>) -> (r: String)
    ensures
        r@ == prev_hmac_spec(
            match latest {
                Some(h) => Some(h@),
                None => None,
            },
        ),
{
    match latest {
        Some(h) => h,
        None => String::from_str("0"),
    }
}

/// One stored event as the chain sees it.
pub struct ChainLink {
    pub hmac: Seq<char>,
    pub prev_hmac: Seq<char>,
}

/// Every event names the HMAC of the event before it (the first names `"0"`).
pub open spec fn chain_linked(events: Seq<ChainLink>) -> bool {
    forall|i: int|
        0 <= i < events.len() ==> (#[trigger] events[i]).prev_hmac == (if i == 0 {
            genesis_hmac()
        } else {
            events[i - 1].hmac
        })
}

/// The latest HMAC of a ledger, if it has events.
pub open spec fn latest_hmac(events: Seq<ChainLink>) -> Option<Seq<char>> {
    if events.len() == 0 {
        None
    } else {
        Some(events.last().hmac)
    }
}

/// Law: recording an event whose `prev_hmac` is computed from the latest
/// stored HMAC keeps a linked chain linked, whatever HMAC the new event gets.
pub proof fn lemma_append_keeps_chain_linked(events: Seq<ChainLink>, hmac: Seq<char>)
    requires
        chain_linked(events),
    ensures
        chain_linked(
            events.push(ChainLink { hmac, prev_hmac: prev_hmac_spec(latest_hmac(events)) }),
        ),
{
    let next = events.push(ChainLink { hmac, prev_hmac: prev_hmac_spec(latest_hmac(events)) });
    assert forall|i: int| 0 <= i < next.len() implies (#[trigger] next[i]).prev_hmac == (if i
        == 0 {
        genesis_hmac()
    } else {
        next[i - 1].hmac
    }) by {
        if i < events.len() {
            assert(next[i] == events[i]);
        }
    }
}

} // verus!
