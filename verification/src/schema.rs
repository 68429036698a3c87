//! Schema versioning and the settings clean-ups done by migrations.
//!
//! The version is kept as decimal text under `schema_version` in the `meta`
//! table. On startup every migration numbered above the stored version runs,
//! in order, after which the current version is written back.

use vstd::prelude::*;
use crate::text::{
    chars_of, decimal, digit_char, ends_with, has_prefix, has_suffix, starts_with, str_eq,
    u64_to_decimal,
};

verus! {

/// Version the schema has after all migrations ran.
pub const CURRENT_SCHEMA_VERSION: u32 = 38;

/// `c` is an ASCII decimal digit.
pub open spec fn is_digit(c: char) -> bool {
    '0' <= c && c <= '9'
}

/// Value of a string of decimal digits.
pub open spec fn digits_value(d: Seq<char>) -> nat
    decreases d.len(),
{
    if d.len() == 0 {
        0
    } else {
        digits_value(d.drop_last()) * 10 + ((d.last() as nat) - 48) as nat
    }
}

/// The digits part of text to be parsed as an unsigned number: the text
/// without one leading `+` sign.
pub open spec fn unsigned_digits(s: Seq<char>) -> Seq<char> {
    if s.len() > 0 && s[0] == '+' {
        s.drop_first()
    } else {
        s
    }
}

/// Every character is a decimal digit.
pub open spec fn all_digits(d: Seq<char>) -> bool {
    forall|i: int| 0 <= i < d.len() ==> is_digit(#[trigger] d[i])
}

/// What `str::parse::<u32>` gives: an optional `+` sign followed by at least
/// one decimal digit, with a value that fits in `u32`.
pub open spec fn parse_u32_spec(s: Seq<char>) -> Option<u32> {
    let d = unsigned_digits(s);
    if d.len() > 0 && all_digits(d) && digits_value(d) <= u32::MAX {
        Some(digits_value(d) as u32)
    } else {
        None
    }
}

proof fn lemma_digits_value_monotone(d: Seq<char>, j: int)
    requires
        0 <= j <= d.len(),
        forall|i: int| 0 <= i < d.len() ==> is_digit(#[trigger] d[i]),
    ensures
        digits_value(d.take(j)) <= digits_value(d),
    decreases d.len() - j,
{
    if j < d.len() {
        lemma_digits_value_monotone(d, j + 1);
        assert(d.take(j + 1).drop_last() =~= d.take(j));
    } else {
        assert(d.take(j) =~= d);
    }
}

/// Parses a `u32` the way `str::parse::<u32>` does.
pub fn parse_u32(s: &str) -> (r: Option<u32>)
    ensures
        r == parse_u32_spec(s@),
{
    let v = chars_of(s);
    let start: usize = if v.len() > 0 && v[0] == '+' {
        1
    } else {
        0
    };
    let ghost d = unsigned_digits(s@);
    assert(d =~= v@.subrange(start as int, v@.len() as int));
    if start >= v.len() {
        return None;
    }
    let mut acc: u64 = 0;
    let mut i: usize = start;
    while i < v.len()
        invariant
            v@ == s@,
            start <= i <= v.len(),
            d == v@.subrange(start as int, v@.len() as int),
            d == unsigned_digits(s@),
            forall|j: int| start <= j < i ==> is_digit(#[trigger] v@[j]),
            acc == digits_value(d.take(i - start)),
            acc <= u32::MAX,
        decreases v.len() - i,
    {
        let c = v[i];
        if !('0' <= c && c <= '9') {
            assert(d[i - start] == c);
            assert(!is_digit(d[(i - start) as int]));
            return None;
        }
        let digit = (c as u32 - 48) as u64;
        assert(d.take(i + 1 - start).drop_last() =~= d.take(i - start));
        let next = acc * 10 + digit;
        assert(d.take(i + 1 - start).last() == c);
        assert(digits_value(d.take(i + 1 - start)) == next);
        if next > 0xffff_ffff {
            proof {
                assert forall|j: int| 0 <= j < d.len() && j <= i - start implies is_digit(
                    #[trigger] d[j],
                ) by {
                    assert(d[j] == v@[start + j]);
                }
                if all_digits(d) {
                    lemma_digits_value_monotone(d, i + 1 - start);
                }
            }
            return None;
        }
        acc = next;
        i = i + 1;
    }
    assert(d.take(d.len() as int) =~= d);
    assert forall|j: int| 0 <= j < d.len() implies is_digit(#[trigger] d[j]) by {
        assert(d[j] == v@[start + j]);
    }
    Some(acc as u32)
}

/// Version read from the stored `schema_version` text; text that does not
/// parse as a `u32` counts as version 0 (the whole schema is rebuilt).
pub fn schema_version_from_meta(stored: &str) -> (r: u32)
    ensures
        r == match parse_u32_spec(stored@) {
            Some(n) => n,
            None => 0,
        },
{
    match parse_u32(stored) {
        Some(n) => n,
        None => 0,
    }
}

/// Version of a database without a stored version: 1 when the first
/// `sessions` table exists (a database from before versioning), else 0.
pub fn legacy_schema_version(sessions_tables: i64) -> (r: u32)
    ensures
        r == (if sessions_tables > 0 {
            1u32
        } else {
            0u32
        }),
{
    if sessions_tables > 0 {
        1
    } else {
        0
    }
}

/// Migrations still to run from `current`: every version above it up to the
/// current one, in ascending order.
pub open spec fn pending_spec(current: u32) -> Seq<u32> {
    if current >= CURRENT_SCHEMA_VERSION {
        seq![]
    } else {
        Seq::new(
            (CURRENT_SCHEMA_VERSION - current) as nat,
            |i: int| (current + 1 + i) as u32,
        )
    }
}

/// The migration versions to run on a database at version `current`.
pub fn pending_migrations(current: u32) -> (r: Vec<u32>)
    ensures
        r@ == pending_spec(current),
{
    let mut r: Vec<u32> = Vec::new();
    let mut v: u32 = 1;
    while v <= CURRENT_SCHEMA_VERSION
        invariant
            1 <= v <= CURRENT_SCHEMA_VERSION + 1,
            r@ == (if current >= v - 1 {
                Seq::<u32>::empty()
            } else {
                Seq::new((v - 1 - current) as nat, |i: int| (current + 1 + i) as u32)
            }),
        decreases CURRENT_SCHEMA_VERSION + 1 - v,
    {
        if current < v {
            r.push(v);
            assert(r@ =~= Seq::new((v - current) as nat, |i: int| (current + 1 + i) as u32));
        }
        v = v + 1;
    }
    assert(r@ =~= pending_spec(current));
    r
}

/// Text stored under `schema_version` once all migrations ran.
pub fn current_version_text() -> (r: String)
    ensures
        r@ == decimal(CURRENT_SCHEMA_VERSION as nat),
{
    u64_to_decimal(CURRENT_SCHEMA_VERSION as u64)
}

proof fn lemma_decimal_digits(n: nat)
    ensures
        decimal(n).len() > 0,
        forall|i: int| 0 <= i < decimal(n).len() ==> is_digit(#[trigger] decimal(n)[i]),
        digits_value(decimal(n)) == n,
    decreases n,
{
    if n >= 10 {
        lemma_decimal_digits(n / 10);
        let s = decimal(n);
        assert(s.drop_last() =~= decimal(n / 10));
        assert(digit_char(n % 10) as nat == n % 10 + 48);
        vstd::arithmetic::div_mod::lemma_fundamental_div_mod(n as int, 10);
        assert(digits_value(s) == digits_value(decimal(n / 10)) * 10 + n % 10);
    } else {
        assert(digit_char(n) as nat == n + 48);
        assert(decimal(n).drop_last() =~= Seq::<char>::empty());
        assert(digits_value(Seq::<char>::empty()) == 0);
    }
}

/// Law: a version written as decimal text reads back as the same version.
pub proof fn lemma_version_text_round_trip(n: u32)
    ensures
        parse_u32_spec(decimal(n as nat)) == Some(n),
{
    lemma_decimal_digits(n as nat);
}

/// Law: once the current version has been written back, no migration is pending.
pub proof fn lemma_migrated_database_is_current()
    ensures
        pending_spec(
            match parse_u32_spec(decimal(CURRENT_SCHEMA_VERSION as nat)) {
                Some(n) => n,
                None => 0,
            },
        ).len() == 0,
{
    lemma_version_text_round_trip(CURRENT_SCHEMA_VERSION);
}

/// The pragma setting how long SQLite waits on a locked database.
pub fn busy_timeout_pragma(busy_timeout_ms: u64) -> (r: String)
    ensures
        r@ == "PRAGMA busy_timeout="@ + decimal(busy_timeout_ms as nat),
{
    let mut r = String::from_str("PRAGMA busy_timeout=");
    let d = u64_to_decimal(busy_timeout_ms);
    r.append(d.as_str());
    r
}

/// Prefix of the dynamic per-skill settings keys.
pub open spec fn skill_entry_prefix() -> Seq<char> {
    "skills.entries."@
}

/// Suffix of the dynamic per-skill settings keys.
pub open spec fn skill_entry_suffix() -> Seq<char> {
    ".enabled"@
}

/// A stored settings key is stale when the registry does not know it and it
/// is not a dynamic `skills.entries.<name>.enabled` key.
pub open spec fn is_stale_setting_spec(key: Seq<char>, known: Seq<Seq<char>>) -> bool {
    &&& !known.contains(key)
    &&& !(starts_with(key, skill_entry_prefix()) && ends_with(key, skill_entry_suffix()))
}

/// Law: a stored key unknown to the registry is stale unless it is a dynamic
/// per-skill key, and only keys that both start with `skills.entries.` and
/// end with `.enabled` are dynamic. Registered keys are never stale.
pub proof fn lemma_stale_setting_rule(key: Seq<char>, known: Seq<Seq<char>>)
    ensures
        known.contains(key) ==> !is_stale_setting_spec(key, known),
        !known.contains(key) && !starts_with(key, "skills.entries."@) ==> is_stale_setting_spec(
            key,
            known,
        ),
        !known.contains(key) && !ends_with(key, ".enabled"@) ==> is_stale_setting_spec(key, known),
        !known.contains(key) && starts_with(key, "skills.entries."@) && ends_with(
            key,
            ".enabled"@,
        ) ==> !is_stale_setting_spec(key, known),
{
}

/// Views of a list of strings.
pub open spec fn views(v: Seq<String>) -> Seq<Seq<char>> {
    v.map_values(|s: String| s@)
}

/// Whether `key` is one of `names` (also how a column is found in `PRAGMA table_info`).
pub fn contains_name(known: &Vec<String>, key: &str) -> (r: bool)
    ensures
        r == views(known@).contains(key@),
{
    let mut i: usize = 0;
    while i < known.len()
        invariant
            i <= known.len(),
            forall|j: int| 0 <= j < i ==> known@[j]@ != key@,
        decreases known.len() - i,
    {
        if str_eq(known[i].as_str(), key) {
            assert(views(known@)[i as int] == key@);
            return true;
        }
        i = i + 1;
    }
    assert forall|j: int| 0 <= j < views(known@).len() implies views(known@)[j] != key@ by {
        assert(views(known@)[j] == known@[j]@);
    }
    false
}

/// Whether a stored settings key is stale.
pub fn is_stale_setting(key: &str, known: &Vec<String>) -> (r: bool)
    ensures
        r == is_stale_setting_spec(key@, views(known@)),
{
    if contains_name(known, key) {
        return false;
    }
    !(has_prefix(key, "skills.entries.") && has_suffix(key, ".enabled"))
}

/// The stored keys to delete, in their stored order.
pub fn stale_setting_keys(stored: &Vec<String>, known: &Vec<String>) -> (r: Vec<String>)
    ensures
        views(r@) == views(stored@).filter(|k: Seq<char>| is_stale_setting_spec(k, views(known@))),
{
    let ghost pred = |k: Seq<char>| is_stale_setting_spec(k, views(known@));
    let mut r: Vec<String> = Vec::new();
    let mut i: usize = 0;
    while i < stored.len()
        invariant
            i <= stored.len(),
            pred == (|k: Seq<char>| is_stale_setting_spec(k, views(known@))),
            views(r@) == views(stored@).take(i as int).filter(pred),
        decreases stored.len() - i,
    {
        let key = stored[i].as_str();
        proof {
            assert(views(stored@).take(i + 1).drop_last() =~= views(stored@).take(i as int));
            reveal_with_fuel(Seq::filter, 1);
        }
        if is_stale_setting(key, known) {
            r.push(stored[i].clone());
            assert(views(r@) =~= views(stored@).take(i + 1).filter(pred));
        } else {
            assert(views(r@) =~= views(stored@).take(i + 1).filter(pred));
        }
        i = i + 1;
    }
    assert(views(stored@).take(stored.len() as int) =~= views(stored@));
    r
}

/// A value from the retired `config.toml` is imported into the settings
/// table only when it differs from the compiled default, is not empty, and
/// the key has no stored value yet.
pub fn should_import_setting(file_value: &str, default_value: &str, already_stored: bool) -> (r:
    bool)
    ensures
        r == (file_value@ != default_value@ && file_value@.len() > 0 && !already_stored),
{
    !str_eq(file_value, default_value) && !file_value.is_empty() && !already_stored
}

} // verus!
