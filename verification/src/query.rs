//! SQL text and parameters for the queries whose shape depends on the
//! caller's input: the activity-log query and the deletion of the last
//! assistant turn.

use vstd::prelude::*;
use crate::text::{decimal, ends_with, starts_with, str_eq, u64_to_decimal};
use crate::models::MessageRow;

verus! {

/// A positional parameter bound to a statement.
#[derive(Debug, Clone)]
pub enum SqlParam {
    Integer(i64),
    Text(String),
}

/// A statement with the parameters for its `?N` placeholders, in order.
pub struct SqlQuery {
    pub sql: String,
    pub params: Vec<SqlParam>,
}

/// The parameter is the text `t`.
pub open spec fn is_text(p: SqlParam, t: Seq<char>) -> bool {
    p matches SqlParam::Text(s) && s@ == t
}

/// The parameter is the integer `n`.
pub open spec fn is_integer(p: SqlParam, n: i64) -> bool {
    p matches SqlParam::Integer(m) && m == n
}

/// Log levels shown for a minimum level (error > warn > info > debug).
/// No minimum, and unknown names, mean info and above; `all` means debug.
pub open spec fn activity_levels_spec(min_level: Option<Seq<char>>) -> Seq<Seq<char>> {
    let e = "error"@;
    let w = "warn"@;
    let i = "info"@;
    let d = "debug"@;
    match min_level {
        Some(m) => if m == e {
            seq![e]
        } else if m == w {
            seq![e, w]
        } else if m == i {
            seq![e, w, i]
        } else if m == d || m == "all"@ {
            seq![e, w, i, d]
        } else {
            seq![e, w, i]
        },
        None => seq![e, w, i],
    }
}

/// The view of an optional string argument.
pub open spec fn opt_view(o: Option<&str>) -> Option<Seq<char>> {
    match o {
        Some(s) => Some(s@),
        None => None,
    }
}

/// The levels of entries returned for `min_level`.
pub fn activity_levels(min_level: Option<&str>) -> (r: Vec<&'static str>)
    ensures
        r@.map_values(|s: &'static str| s@) == activity_levels_spec(opt_view(min_level)),
{
    let mut r: Vec<&'static str> = Vec::new();
    r.push("error");
    let n: usize = match min_level {
        Some(m) => if str_eq(m, "error") {
            1
        } else if str_eq(m, "warn") {
            2
        } else if str_eq(m, "info") {
            3
        } else if str_eq(m, "debug") || str_eq(m, "all") {
            4
        } else {
            3
        },
        None => 3,
    };
    if n >= 2 {
        r.push("warn");
    }
    if n >= 3 {
        r.push("info");
    }
    if n >= 4 {
        r.push("debug");
    }
    assert(r@.map_values(|s: &'static str| s@) =~= activity_levels_spec(opt_view(min_level)));
    r
}

/// All log levels, most severe first.
pub open spec fn all_levels() -> Seq<Seq<char>> {
    seq!["error"@, "warn"@, "info"@, "debug"@]
}

/// Law: the levels shown always form the most severe end of the hierarchy:
/// errors are always shown, and a level is shown only with all levels above it.
pub proof fn lemma_levels_are_hierarchy_prefix(min_level: Option<Seq<char>>)
    ensures
        1 <= activity_levels_spec(min_level).len() <= 4,
        activity_levels_spec(min_level) == all_levels().take(
            activity_levels_spec(min_level).len() as int,
        ),
{
    assert(seq!["error"@] =~= all_levels().take(1));
    assert(seq!["error"@, "warn"@] =~= all_levels().take(2));
    assert(seq!["error"@, "warn"@, "info"@] =~= all_levels().take(3));
    assert(all_levels() =~= all_levels().take(4));
}

/// `?1, ?2, ..., ?n`.
pub open spec fn numbered_placeholders(n: nat) -> Seq<char>
    decreases n,
{
    if n == 0 {
        seq![]
    } else if n == 1 {
        "?1"@
    } else {
        numbered_placeholders((n - 1) as nat) + ", ?"@ + decimal(n)
    }
}

fn numbered_placeholders_exec(n: usize) -> (r: String)
    ensures
        r@ == numbered_placeholders(n as nat),
{
    let mut r = String::new();
    let mut k: usize = 0;
    while k < n
        invariant
            k <= n,
            r@ == numbered_placeholders(k as nat),
        decreases n - k,
    {
        k = k + 1;
        if k == 1 {
            r.append("?1");
        } else {
            r.append(", ?");
            let d = u64_to_decimal(k as u64);
            r.append(d.as_str());
        }
    }
    r
}

/// Line break and indentation between the clauses of the activity query.
pub open spec fn clause_break() -> Seq<char> {
    "\n                     "@
}

/// SQL of the activity query for `n` levels, with or without a category filter.
pub open spec fn activity_sql_spec(n: nat, with_category: bool) -> Seq<char> {
    "SELECT id, level, category, message, detail, created_at"@ + clause_break()
        + "FROM activity_log"@ + clause_break() + "WHERE level IN ("@ + numbered_placeholders(n)
        + ")"@ + (if with_category {
        " AND category = ?"@ + decimal(n + 1)
    } else {
        seq![]
    }) + clause_break() + "ORDER BY created_at DESC"@ + clause_break() + "LIMIT ?"@ + decimal(
        if with_category {
            n + 2
        } else {
            n + 1
        },
    )
}

/// `t` occurs in `s` starting at index `i`.
pub open spec fn occurs_at(s: Seq<char>, t: Seq<char>, i: int) -> bool {
    0 <= i && i + t.len() <= s.len() && s.subrange(i, i + t.len()) == t
}

/// `t` occurs somewhere in `s`.
pub open spec fn contains_text(s: Seq<char>, t: Seq<char>) -> bool {
    exists|i: int| #[trigger] occurs_at(s, t, i)
}

/// Law: each `?N` of the activity query names the parameter its clause
/// binds. With `n` levels bound as `?1` to `?n`, the category clause right
/// after the level list reads `category = ?(n+1)`, the position of the
/// category text among the parameters, and `LIMIT` reads the last
/// parameter: `?(n+2)` with a category, `?(n+1)` without.
pub proof fn lemma_activity_placeholders(n: nat, with_category: bool)
    ensures
        with_category ==> contains_text(
            activity_sql_spec(n, true),
            ")"@ + " AND category = ?"@ + decimal(n + 1) + "\n"@,
        ),
        ends_with(
            activity_sql_spec(n, with_category),
            "LIMIT ?"@ + decimal(
                if with_category {
                    n + 2
                } else {
                    n + 1
                },
            ),
        ),
{
    reveal_strlit("\n                     ");
    reveal_strlit("\n");
    let k: nat = if with_category {
        n + 2
    } else {
        n + 1
    };
    let sql = activity_sql_spec(n, with_category);
    let tail = "LIMIT ?"@ + decimal(k);
    assert(sql.subrange(sql.len() - tail.len(), sql.len() as int) =~= tail);
    if with_category {
        let p1 = "SELECT id, level, category, message, detail, created_at"@ + clause_break()
            + "FROM activity_log"@ + clause_break() + "WHERE level IN ("@ + numbered_placeholders(
            n,
        );
        let t = ")"@ + " AND category = ?"@ + decimal(n + 1) + "\n"@;
        assert(sql.subrange(p1.len() as int, (p1.len() + t.len()) as int) =~= t);
        assert(occurs_at(sql, t, p1.len() as int));
    }
}

/// The activity-log query: entries of the shown levels (and category, if
/// given), newest first, at most `count` of them. The category clause binds
/// parameter `n + 1` (where the category text stands) and `LIMIT` binds the
/// last parameter (the count).
pub fn activity_query(count: usize, min_level: Option<&str>, category: Option<&str>) -> (r:
    SqlQuery)
    ensures
        ({
            let levels = activity_levels_spec(opt_view(min_level));
            let n = levels.len();
            &&& r.sql@ == activity_sql_spec(n, category is Some)
            &&& category is Some ==> contains_text(
                r.sql@,
                ")"@ + " AND category = ?"@ + decimal(n + 1) + "\n"@,
            )
            &&& ends_with(r.sql@, "LIMIT ?"@ + decimal(r.params@.len()))
            &&& r.params@.len() == n + (if category is Some {
                2int
            } else {
                1int
            })
            &&& forall|i: int| 0 <= i < n ==> is_text(#[trigger] r.params@[i], levels[i])
            &&& category matches Some(c) ==> is_text(r.params@[n as int], c@)
            &&& is_integer(r.params@.last(), count as i64)
        }),
{
    let levels = activity_levels(min_level);
    let ghost lv = activity_levels_spec(opt_view(min_level));
    let n = levels.len();
    let mut sql = String::from_str("SELECT id, level, category, message, detail, created_at");
    sql.append("\n                     ");
    sql.append("FROM activity_log");
    sql.append("\n                     ");
    sql.append("WHERE level IN (");
    let ph = numbered_placeholders_exec(n);
    sql.append(ph.as_str());
    sql.append(")");
    let mut params: Vec<SqlParam> = Vec::new();
    let mut i: usize = 0;
    while i < n
        invariant
            n == levels@.len(),
            levels@.map_values(|s: &'static str| s@) == lv,
            i <= n,
            params@.len() == i,
            forall|j: int| 0 <= j < i ==> is_text(#[trigger] params@[j], lv[j]),
        decreases n - i,
    {
        params.push(SqlParam::Text(String::from_str(levels[i])));
        assert(lv[i as int] == levels@[i as int]@);
        i = i + 1;
    }
    let last_idx: usize;
    match category {
        Some(c) => {
            sql.append(" AND category = ?");
            let d = u64_to_decimal((n + 1) as u64);
            sql.append(d.as_str());
            params.push(SqlParam::Text(String::from_str(c)));
            last_idx = n + 2;
        },
        None => {
            last_idx = n + 1;
        },
    }
    sql.append("\n                     ");
    sql.append("ORDER BY created_at DESC");
    sql.append("\n                     ");
    sql.append("LIMIT ?");
    let d = u64_to_decimal(last_idx as u64);
    sql.append(d.as_str());
    params.push(SqlParam::Integer(count as i64));
    proof {
        lemma_activity_placeholders(lv.len(), category is Some);
        assert(params@.len() == last_idx);
    }
    SqlQuery { sql, params }
}

/// Columns and order of the chunk listing for a scope.
pub open spec fn chunks_base_sql() -> Seq<char> {
    "SELECT id, scope, filename, chunk_index, start_line, end_line, content, content_hash, embedding, created_at\n                     FROM memory_chunks WHERE scope = ?1 ORDER BY filename, chunk_index"@
}

/// Law: the chunk listing selects the chunk-row columns in the order the row
/// mapping reads them by position: `id`, `scope`, `filename`, `chunk_index`,
/// `start_line` (column 4), `end_line` (column 5), `content`, `content_hash`,
/// `embedding`, `created_at`.
pub proof fn lemma_chunk_columns_in_row_order()
    ensures
        starts_with(
            chunks_base_sql(),
            "SELECT id, scope, filename, chunk_index, start_line, end_line, content, content_hash, embedding, created_at\n"@,
        ),
{
    reveal_strlit(
        "SELECT id, scope, filename, chunk_index, start_line, end_line, content, content_hash, embedding, created_at\n                     FROM memory_chunks WHERE scope = ?1 ORDER BY filename, chunk_index",
    );
    reveal_strlit(
        "SELECT id, scope, filename, chunk_index, start_line, end_line, content, content_hash, embedding, created_at\n",
    );
    let p = "SELECT id, scope, filename, chunk_index, start_line, end_line, content, content_hash, embedding, created_at\n"@;
    assert(chunks_base_sql().subrange(0, p.len() as int) =~= p);
}

/// The chunk listing of a scope, optionally limited to `limit` rows.
pub fn all_chunks_query(scope: &str, limit: Option<usize>) -> (r: SqlQuery)
    ensures
        r.sql@ == match limit {
            Some(_) => chunks_base_sql() + " LIMIT ?2"@,
            None => chunks_base_sql(),
        },
        is_text(r.params@[0], scope@),
        r.params@.len() == match limit {
            Some(_) => 2int,
            None => 1int,
        },
        limit matches Some(n) ==> is_integer(r.params@[1], n as i64),
{
    let mut sql = String::from_str(
        "SELECT id, scope, filename, chunk_index, start_line, end_line, content, content_hash, embedding, created_at\n                     FROM memory_chunks WHERE scope = ?1 ORDER BY filename, chunk_index",
    );
    let mut params: Vec<SqlParam> = Vec::new();
    params.push(SqlParam::Text(String::from_str(scope)));
    if let Some(n) = limit {
        sql.append(" LIMIT ?2");
        params.push(SqlParam::Integer(n as i64));
    }
    SqlQuery { sql, params }
}

/// Ids of the last assistant turn: walking back from the newest message,
/// every message up to (not including) the latest user message, newest first.
pub open spec fn last_turn_ids(messages: Seq<MessageRow>) -> Seq<i64>
    decreases messages.len(),
{
    if messages.len() == 0 || messages.last().role@ == "user"@ {
        seq![]
    } else {
        seq![messages.last().id] + last_turn_ids(messages.drop_last())
    }
}

/// Law: the ids undone are those of the newest messages, newest first, up to
/// the latest user message, which is kept (as is everything before it).
pub proof fn lemma_last_turn_stops_at_user(messages: Seq<MessageRow>)
    ensures
        last_turn_ids(messages).len() <= messages.len(),
        forall|i: int|
            0 <= i < last_turn_ids(messages).len() ==> {
                &&& #[trigger] last_turn_ids(messages)[i] == messages[messages.len() - 1 - i].id
                &&& messages[messages.len() - 1 - i].role@ != "user"@
            },
        last_turn_ids(messages).len() < messages.len() ==> messages[messages.len() - 1
            - last_turn_ids(messages).len()].role@ == "user"@,
    decreases messages.len(),
{
    if messages.len() > 0 && messages.last().role@ != "user"@ {
        let rest = messages.drop_last();
        lemma_last_turn_stops_at_user(rest);
        assert forall|i: int| 0 <= i < last_turn_ids(messages).len() implies {
            &&& #[trigger] last_turn_ids(messages)[i] == messages[messages.len() - 1 - i].id
            &&& messages[messages.len() - 1 - i].role@ != "user"@
        } by {
            if i > 0 {
                assert(last_turn_ids(messages)[i] == last_turn_ids(rest)[i - 1]);
                assert(rest[rest.len() - 1 - (i - 1)] == messages[messages.len() - 1 - i]);
            }
        }
        if last_turn_ids(messages).len() < messages.len() {
            assert(rest[rest.len() - 1 - last_turn_ids(rest).len()] == messages[messages.len() - 1
                - last_turn_ids(messages).len()]);
        }
    }
}

/// The messages to delete when the last assistant turn is undone.
pub fn last_assistant_turn_ids(messages: &Vec<MessageRow>) -> (r: Vec<i64>)
    ensures
        r@ == last_turn_ids(messages@),
{
    let mut r: Vec<i64> = Vec::new();
    let mut k: usize = messages.len();
    assert(messages@.take(k as int) =~= messages@);
    assert(r@ + last_turn_ids(messages@.take(k as int)) =~= last_turn_ids(messages@));
    while k > 0
        invariant
            k <= messages.len(),
            last_turn_ids(messages@) == r@ + last_turn_ids(messages@.take(k as int)),
        decreases k,
    {
        let m = &messages[k - 1];
        assert(messages@.take(k as int).drop_last() =~= messages@.take(k - 1));
        assert(messages@.take(k as int).last() == messages@[k - 1]);
        if str_eq(m.role.as_str(), "user") {
            assert(r@ + last_turn_ids(messages@.take(k as int)) =~= r@);
            return r;
        }
        r.push(m.id);
        k = k - 1;
        assert(last_turn_ids(messages@) == r@ + last_turn_ids(messages@.take(k as int)));
    }
    assert(messages@.take(0) =~= Seq::<MessageRow>::empty());
    assert(r@ + last_turn_ids(messages@.take(0)) =~= r@);
    r
}

/// `?,?,...,?` with `n` placeholders.
pub open spec fn anonymous_placeholders(n: nat) -> Seq<char>
    decreases n,
{
    if n == 0 {
        seq![]
    } else if n == 1 {
        "?"@
    } else {
        anonymous_placeholders((n - 1) as nat) + ",?"@
    }
}

/// Statement deleting the given messages of a session.
pub open spec fn delete_turn_sql_spec(n: nat) -> Seq<char> {
    "DELETE FROM messages WHERE session_id = ?1 AND id IN ("@ + anonymous_placeholders(n) + ")"@
}

/// The statement that deletes `ids` from session `session_id`:
/// the session is `?1`, then one placeholder per id.
pub fn delete_turn_query(session_id: &str, ids: &Vec<i64>) -> (r: SqlQuery)
    ensures
        r.sql@ == delete_turn_sql_spec(ids@.len()),
        r.params@.len() == ids@.len() + 1,
        is_text(r.params@[0], session_id@),
        forall|i: int| 0 <= i < ids@.len() ==> is_integer(#[trigger] r.params@[i + 1], ids@[i]),
{
    let mut sql = String::from_str("DELETE FROM messages WHERE session_id = ?1 AND id IN (");
    let mut params: Vec<SqlParam> = Vec::new();
    params.push(SqlParam::Text(String::from_str(session_id)));
    let ghost base = sql@;
    let mut k: usize = 0;
    while k < ids.len()
        invariant
            k <= ids.len(),
            base == "DELETE FROM messages WHERE session_id = ?1 AND id IN ("@,
            sql@ == base + anonymous_placeholders(k as nat),
            params@.len() == k + 1,
            is_text(params@[0], session_id@),
            forall|i: int| 0 <= i < k ==> is_integer(#[trigger] params@[i + 1], ids@[i]),
        decreases ids.len() - k,
    {
        if k == 0 {
            sql.append("?");
        } else {
            sql.append(",?");
        }
        params.push(SqlParam::Integer(ids[k]));
        k = k + 1;
        assert(sql@ =~= base + anonymous_placeholders(k as nat));
    }
    sql.append(")");
    SqlQuery { sql, params }
}

} // verus!
