//! Properties of the line filter that hold for every query and text.

use vstd::prelude::*;

use crate::search::{filtered, keeps, MatchMode};
use crate::text::{has_substring, is_white_space, lower_of, split_lines, trim, trim_end, trim_start};

verus! {

/// `idx` places each element of `a` in `b`, at strictly increasing
/// positions.
pub open spec fn places<T>(idx: Seq<int>, a: Seq<T>, b: Seq<T>) -> bool {
    &&& idx.len() == a.len()
    &&& forall|k: int|
        0 <= k < idx.len() ==> 0 <= #[trigger] idx[k] < b.len() && a[k] == b[idx[k]]
    &&& forall|k: int, m: int| 0 <= k < m < idx.len() ==> #[trigger] idx[k] < #[trigger] idx[m]
}

/// `a` is `b` with some elements left out and the rest in their order.
pub open spec fn is_subsequence<T>(a: Seq<T>, b: Seq<T>) -> bool {
    exists|idx: Seq<int>| places(idx, a, b)
}

/// Filtering by a predicate that holds everywhere keeps the sequence.
proof fn lemma_filter_keeps_all<T>(s: Seq<T>, p: spec_fn(T) -> bool)
    requires
        forall|i: int| 0 <= i < s.len() ==> p(#[trigger] s[i]),
    ensures
        s.filter(p) == s,
    decreases s.len(),
{
    reveal(Seq::filter);
    if s.len() > 0 {
        lemma_filter_keeps_all(s.drop_last(), p);
        assert(p(s[s.len() - 1]));
        assert(s.drop_last().push(s.last()) =~= s);
    }
}

/// What a predicate keeps, a weaker one keeps too, in the same order.
proof fn lemma_filter_weaker<T>(s: Seq<T>, p: spec_fn(T) -> bool, q: spec_fn(T) -> bool) -> (idx:
    Seq<int>)
    requires
        forall|i: int| 0 <= i < s.len() && p(#[trigger] s[i]) ==> q(s[i]),
    ensures
        places(idx, s.filter(p), s.filter(q)),
    decreases s.len(),
{
    reveal(Seq::filter);
    if s.len() == 0 {
        Seq::empty()
    } else {
        let rest = s.drop_last();
        let x = s.last();
        assert forall|i: int| 0 <= i < rest.len() && p(#[trigger] rest[i]) implies q(rest[i]) by {
            assert(rest[i] == s[i]);
        }
        let prev = lemma_filter_weaker(rest, p, q);
        assert(p(s[s.len() - 1]) ==> q(s[s.len() - 1]));
        if p(x) {
            let idx = prev.push(rest.filter(q).len() as int);
            assert(places(idx, s.filter(p), s.filter(q)));
            idx
        } else {
            prev
        }
    }
}

/// An empty query keeps every line of the text, in order.
pub proof fn lemma_empty_query_keeps_every_line(contents: Seq<char>)
    ensures
        filtered(Seq::empty(), contents, MatchMode::CaseSensitive) == split_lines(contents),
{
    let lines = split_lines(contents);
    let pred = keeps(Seq::empty(), MatchMode::CaseSensitive);
    assert(trim(Seq::<char>::empty()) =~= Seq::<char>::empty());
    assert forall|i: int| 0 <= i < lines.len() implies pred(#[trigger] lines[i]) by {
        let e = trim(Seq::<char>::empty());
        assert(lines[i].subrange(0, 0 + e.len() as int) =~= e);
        assert(has_substring(lines[i], e));
    }
    lemma_filter_keeps_all(lines, pred);
}

/// The result is the text's lines with some left out and none moved or
/// added, so it never has more lines than the text.
pub proof fn lemma_result_is_subsequence(query: Seq<char>, contents: Seq<char>, mode: MatchMode)
    ensures
        is_subsequence(filtered(query, contents, mode), split_lines(contents)),
        filtered(query, contents, mode).len() <= split_lines(contents).len(),
{
    let lines = split_lines(contents);
    let all = |line: Seq<char>| true;
    lemma_filter_keeps_all(lines, all);
    let idx = lemma_filter_weaker(lines, keeps(query, mode), all);
    assert(places(idx, filtered(query, contents, mode), lines));
    lines.lemma_filter_len(keeps(query, mode));
}

/// Every line kept case-sensitively is kept case-insensitively too, in
/// the same order, for texts whose lines keep the trimmed query, once
/// lower-cased, when they hold it.
pub proof fn lemma_exact_matches_kept_when_folded(query: Seq<char>, contents: Seq<char>)
    requires
        forall|line: Seq<char>|
            #![trigger split_lines(contents).contains(line), has_substring(line, trim(query))]
            split_lines(contents).contains(line) && has_substring(line, trim(query))
                ==> has_substring(lower_of(line), lower_of(trim(query))),
    ensures
        is_subsequence(
            filtered(query, contents, MatchMode::CaseSensitive),
            filtered(query, contents, MatchMode::CaseInsensitive),
        ),
{
    let lines = split_lines(contents);
    let p = keeps(query, MatchMode::CaseSensitive);
    let q = keeps(query, MatchMode::CaseInsensitive);
    assert forall|i: int| 0 <= i < lines.len() && p(#[trigger] lines[i]) implies q(lines[i]) by {
        assert(lines.contains(lines[i]));
    }
    let idx = lemma_filter_weaker(lines, p, q);
    assert(places(idx, lines.filter(p), lines.filter(q)));
}

/// The first character of `trim_start(s)` is no white space.
proof fn lemma_trim_start_head(s: Seq<char>)
    ensures
        trim_start(s).len() > 0 ==> !is_white_space(trim_start(s)[0]),
    decreases s.len(),
{
    if s.len() > 0 && is_white_space(s[0]) {
        lemma_trim_start_head(s.drop_first());
    }
}

/// `trim_end(s)` is a prefix of `s` whose last character is no white space.
proof fn lemma_trim_end_prefix(s: Seq<char>)
    ensures
        trim_end(s).len() <= s.len(),
        trim_end(s) == s.take(trim_end(s).len() as int),
        trim_end(s).len() > 0 ==> !is_white_space(trim_end(s).last()),
    decreases s.len(),
{
    if s.len() > 0 && is_white_space(s.last()) {
        lemma_trim_end_prefix(s.drop_last());
        assert(s.drop_last().take(trim_end(s).len() as int) =~= s.take(trim_end(s).len() as int));
    } else {
        assert(s.take(s.len() as int) =~= s);
    }
}

/// Trimming twice is trimming once.
pub proof fn lemma_trim_idempotent(s: Seq<char>)
    ensures
        trim(trim(s)) == trim(s),
{
    let u = trim_start(s);
    let t = trim_end(u);
    lemma_trim_start_head(s);
    lemma_trim_end_prefix(u);
    if t.len() > 0 {
        assert(t[0] == u[0]);
    }
    assert(trim_start(t) == t);
    lemma_trim_end_prefix(t);
    assert(trim_end(t) == t);
}

/// Two queries that trim to the same text select the same lines; in
/// particular padding a query with white space changes nothing.
pub proof fn lemma_same_trim_same_lines(
    q1: Seq<char>,
    q2: Seq<char>,
    contents: Seq<char>,
    mode: MatchMode,
)
    requires
        trim(q1) == trim(q2),
    ensures
        filtered(q1, contents, mode) == filtered(q2, contents, mode),
{
    assert(keeps(q1, mode) =~= keeps(q2, mode));
}

/// A query and its trimmed form select the same lines.
pub proof fn lemma_trimmed_query_same_lines(query: Seq<char>, contents: Seq<char>, mode: MatchMode)
    ensures
        filtered(trim(query), contents, mode) == filtered(query, contents, mode),
{
    lemma_trim_idempotent(query);
    lemma_same_trim_same_lines(trim(query), query, contents, mode);
}

/// An empty text has no lines to keep.
pub proof fn lemma_empty_text_keeps_nothing(query: Seq<char>, mode: MatchMode)
    ensures
        filtered(query, Seq::empty(), mode) == Seq::<Seq<char>>::empty(),
{
    reveal(Seq::filter);
}

} // verus!
