//! Text rules of the memory store: full-text query sanitising, appending to
//! an entry, and which imported files count as empty.

use vstd::prelude::*;
use crate::text::{chars_of, is_whitespace_char, is_ws, push_char};

verus! {

/// Whitespace-separated words of `s`, left to right (`str::split_whitespace`).
pub open spec fn ws_words(s: Seq<char>) -> Seq<Seq<char>>
    decreases s.len(),
{
    if s.len() == 0 {
        seq![]
    } else {
        let w = ws_words(s.drop_last());
        let c = s.last();
        if is_ws(c) {
            w
        } else if s.len() > 1 && !is_ws(s[s.len() - 2]) {
            w.update(w.len() - 1, w.last().push(c))
        } else {
            w.push(seq![c])
        }
    }
}

/// `w` with every double quote removed.
pub open spec fn strip_quotes(w: Seq<char>) -> Seq<char>
    decreases w.len(),
{
    if w.len() == 0 {
        w
    } else {
        let r = strip_quotes(w.drop_last());
        if w.last() == '"' {
            r
        } else {
            r.push(w.last())
        }
    }
}

/// A word made safe for an FTS5 `MATCH`: its quotes removed, then wrapped in quotes.
pub open spec fn quoted(w: Seq<char>) -> Seq<char> {
    seq!['"'] + strip_quotes(w) + seq!['"']
}

/// The words joined with single spaces.
pub open spec fn join_space(ws: Seq<Seq<char>>) -> Seq<char>
    decreases ws.len(),
{
    if ws.len() == 0 {
        seq![]
    } else if ws.len() == 1 {
        ws[0]
    } else {
        join_space(ws.drop_last()) + seq![' '] + ws.last()
    }
}

/// The FTS5 query for the user's text: every word quoted, joined by spaces.
pub open spec fn sanitize_fts_spec(s: Seq<char>) -> Seq<char> {
    join_space(ws_words(s).map_values(|w: Seq<char>| quoted(w)))
}

proof fn lemma_ws_words_nonempty(s: Seq<char>)
    requires
        s.len() > 0,
        !is_ws(s.last()),
    ensures
        ws_words(s).len() > 0,
    decreases s.len(),
{
    if s.len() > 1 && !is_ws(s[s.len() - 2]) {
        lemma_ws_words_nonempty(s.drop_last());
    }
}

spec fn words_view(ws: Seq<Vec<char>>) -> Seq<Seq<char>> {
    ws.map_values(|w: Vec<char>| w@)
}

fn split_words(v: &Vec<char>) -> (r: Vec<Vec<char>>)
    ensures
        words_view(r@) == ws_words(v@),
{
    let mut words: Vec<Vec<char>> = Vec::new();
    let mut cur: Vec<char> = Vec::new();
    let mut in_word = false;
    let mut i: usize = 0;
    while i < v.len()
        invariant
            i <= v.len(),
            in_word == (i > 0 && !is_ws(v@[i - 1])),
            !in_word ==> cur@.len() == 0,
            in_word ==> words_view(words@).push(cur@) == ws_words(v@.take(i as int)),
            !in_word ==> words_view(words@) == ws_words(v@.take(i as int)),
        decreases v.len() - i,
    {
        let c = v[i];
        let ghost pre = v@.take(i as int);
        assert(v@.take(i + 1).drop_last() =~= pre);
        assert(v@.take(i + 1).last() == c);
        if is_whitespace_char(c) {
            if in_word {
                let ghost before = words@;
                let w = cur;
                cur = Vec::new();
                words.push(w);
                assert(words_view(words@) =~= words_view(before).push(w@));
            }
            in_word = false;
            assert(words_view(words@) == ws_words(v@.take(i + 1)));
        } else {
            if in_word {
                proof {
                    lemma_ws_words_nonempty(pre);
                }
                cur.push(c);
                assert(words_view(words@).push(cur@) =~= ws_words(pre).update(
                    ws_words(pre).len() - 1,
                    ws_words(pre).last().push(c),
                ));
            } else {
                cur.push(c);
                assert(cur@ =~= seq![c]);
            }
            in_word = true;
        }
        i = i + 1;
    }
    assert(v@.take(v.len() as int) =~= v@);
    if in_word {
        words.push(cur);
    }
    proof {
        assert(words_view(words@) =~= ws_words(v@));
    }
    words
}

fn append_quoted(out: &mut String, w: &Vec<char>)
    ensures
        final(out)@ == old(out)@ + quoted(w@),
{
    push_char(out, '"');
    let mut j: usize = 0;
    while j < w.len()
        invariant
            j <= w.len(),
            out@ == old(out)@ + seq!['"'] + strip_quotes(w@.take(j as int)),
        decreases w.len() - j,
    {
        let c = w[j];
        assert(w@.take(j + 1).drop_last() =~= w@.take(j as int));
        if c != '"' {
            push_char(out, c);
        }
        j = j + 1;
        assert(out@ =~= old(out)@ + seq!['"'] + strip_quotes(w@.take(j as int)));
    }
    assert(w@.take(w.len() as int) =~= w@);
    push_char(out, '"');
    assert(out@ =~= old(out)@ + quoted(w@));
}

/// Makes user text safe for an FTS5 `MATCH`: each whitespace-separated word
/// has its double quotes removed and is wrapped in double quotes; words are
/// joined by one space. Text without words gives the empty string.
pub fn sanitize_fts_query(query: &str) -> (r: String)
    ensures
        r@ == sanitize_fts_spec(query@),
{
    let v = chars_of(query);
    let words = split_words(&v);
    let ghost qs = ws_words(query@).map_values(|w: Seq<char>| quoted(w));
    let mut out = String::new();
    let mut k: usize = 0;
    while k < words.len()
        invariant
            k <= words.len(),
            words_view(words@) == ws_words(query@),
            qs == ws_words(query@).map_values(|w: Seq<char>| quoted(w)),
            out@ == join_space(qs.take(k as int)),
        decreases words.len() - k,
    {
        assert(qs.take(k + 1).drop_last() =~= qs.take(k as int));
        assert(qs[k as int] == quoted(words@[k as int]@)) by {
            assert(words_view(words@)[k as int] == words@[k as int]@);
        }
        if k > 0 {
            push_char(&mut out, ' ');
        }
        append_quoted(&mut out, &words[k]);
        k = k + 1;
        assert(out@ =~= join_space(qs.take(k as int)));
    }
    assert(qs.take(words.len() as int) =~= qs);
    out
}

proof fn lemma_strip_quotes_has_none(w: Seq<char>)
    ensures
        !strip_quotes(w).contains('"'),
    decreases w.len(),
{
    if w.len() > 0 {
        lemma_strip_quotes_has_none(w.drop_last());
        let r = strip_quotes(w.drop_last());
        if w.last() != '"' {
            assert forall|i: int| 0 <= i < r.push(w.last()).len() implies r.push(w.last())[i]
                != '"' by {
                if i < r.len() {
                    assert(r.push(w.last())[i] == r[i]);
                }
            }
        }
    }
}

/// Law: a sanitised query cannot smuggle FTS5 syntax through quotes. Every
/// quoted word holds no double quote between its two enclosing quotes.
pub proof fn lemma_quoted_words_are_closed(w: Seq<char>)
    ensures
        quoted(w).len() >= 2,
        quoted(w)[0] == '"',
        quoted(w).last() == '"',
        !quoted(w).subrange(1, quoted(w).len() - 1).contains('"'),
{
    lemma_strip_quotes_has_none(w);
    assert(quoted(w).subrange(1, quoted(w).len() - 1) =~= strip_quotes(w));
}

proof fn lemma_strip_quotes_is_filter(w: Seq<char>)
    ensures
        strip_quotes(w) == w.filter(|c: char| c != '"'),
    decreases w.len(),
{
    reveal_with_fuel(Seq::filter, 1);
    if w.len() > 0 {
        lemma_strip_quotes_is_filter(w.drop_last());
    }
}

/// Law: sanitising removes only double quotes. Each word of the text becomes
/// the word with its `"` characters filtered out (every other character,
/// apostrophes included, kept in order), wrapped in double quotes; the words
/// are joined by single spaces.
pub proof fn lemma_sanitize_removes_only_double_quotes(s: Seq<char>, w: Seq<char>)
    ensures
        quoted(w) == seq!['"'] + w.filter(|c: char| c != '"') + seq!['"'],
        sanitize_fts_spec(s) == join_space(
            ws_words(s).map_values(|x: Seq<char>| seq!['"'] + x.filter(|c: char| c != '"') + seq!['"']),
        ),
{
    lemma_strip_quotes_is_filter(w);
    let ws = ws_words(s);
    assert forall|i: int| 0 <= i < ws.len() implies #[trigger] quoted(ws[i]) == seq!['"']
        + ws[i].filter(|c: char| c != '"') + seq!['"'] by {
        lemma_strip_quotes_is_filter(ws[i]);
    }
    assert(ws.map_values(|x: Seq<char>| quoted(x)) =~= ws.map_values(
        |x: Seq<char>| seq!['"'] + x.filter(|c: char| c != '"') + seq!['"'],
    ));
}

/// Every character of `s` is whitespace (`s.trim().is_empty()`).
pub open spec fn is_blank_spec(s: Seq<char>) -> bool {
    forall|i: int| 0 <= i < s.len() ==> is_ws(#[trigger] s[i])
}

/// Whether `s` has nothing but whitespace; such memory files are not imported.
pub fn is_blank(s: &str) -> (r: bool)
    ensures
        r == is_blank_spec(s@),
{
    let v = chars_of(s);
    let mut i: usize = 0;
    while i < v.len()
        invariant
            v@ == s@,
            i <= v.len(),
            forall|j: int| 0 <= j < i ==> is_ws(#[trigger] v@[j]),
        decreases v.len() - i,
    {
        if !is_whitespace_char(v[i]) {
            return false;
        }
        i = i + 1;
    }
    true
}

/// Content of an entry after appending `content`: the previous content, a
/// newline unless it already ends with one, then the new content; without a
/// previous entry, just the new content.
pub open spec fn appended_content(previous: Option<Seq<char>>, content: Seq<char>) -> Seq<char> {
    match previous {
        Some(p) => if p.len() > 0 && p.last() == '\n' {
            p + content
        } else {
            p + seq!['\n'] + content
        },
        None => content,
    }
}

/// Computes the content stored by an append.
pub fn append_content(previous: Option<&str>, content: &str) -> (r: String)
    ensures
        r@ == appended_content(
            match previous {
                Some(p) => Some(p@),
                None => None,
            },
            content@,
        ),
{
    match previous {
        Some(p) => {
            let pv = chars_of(p);
            let mut out = String::from_str(p);
            if !(pv.len() > 0 && pv[pv.len() - 1] == '\n') {
                push_char(&mut out, '\n');
            }
            out.append(content);
            out
        },
        None => String::from_str(content),
    }
}

/// Law: appending keeps the previous content as a prefix and the new content
/// as a suffix, with at most one newline inserted between them.
pub proof fn lemma_append_keeps_both(previous: Seq<char>, content: Seq<char>)
    ensures
        appended_content(Some(previous), content).subrange(0, previous.len() as int) == previous,
        appended_content(Some(previous), content).subrange(
            appended_content(Some(previous), content).len() - content.len(),
            appended_content(Some(previous), content).len() as int,
        ) == content,
        appended_content(Some(previous), content).len() <= previous.len() + 1 + content.len(),
{
    let r = appended_content(Some(previous), content);
    assert(r.subrange(0, previous.len() as int) =~= previous);
    assert(r.subrange(r.len() - content.len(), r.len() as int) =~= content);
}

/// Name under which a daily memory file `memory/daily/<stem>.md` is imported.
pub fn daily_entry_name(stem: &str) -> (r: String)
    ensures
        r@ == "daily/"@ + stem@,
{
    let mut r = String::from_str("daily/");
    r.append(stem);
    r
}

} // verus!
