//! Selecting the lines of a text that contain a query.

use vstd::prelude::*;

use crate::text::{
    contains_str, has_substring, lines_of, lower_of, lowercase, split_lines, trim, trimmed, views,
};

verus! {

/// How a line is compared with the query.
#[derive(Clone, Copy, Debug, PartialEq, Eq, Structural)]
pub enum MatchMode {
    /// The line must hold the query character for character.
    CaseSensitive,
    /// Line and query are both lower-cased before the comparison.
    CaseInsensitive,
}

/// Whether `line` is kept for `query` under `mode`. Surrounding white
/// space of the query never counts.
pub open spec fn line_matches(query: Seq<char>, line: Seq<char>, mode: MatchMode) -> bool {
    match mode {
        MatchMode::CaseSensitive => has_substring(line, trim(query)),
        MatchMode::CaseInsensitive => has_substring(lower_of(line), lower_of(trim(query))),
    }
}

/// The test `line_matches` as a predicate on lines.
pub open spec fn keeps(query: Seq<char>, mode: MatchMode) -> spec_fn(Seq<char>) -> bool {
    |line: Seq<char>| line_matches(query, line, mode)
}

/// The lines of `contents` that match `query` under `mode`, in order.
pub open spec fn filtered(query: Seq<char>, contents: Seq<char>, mode: MatchMode) -> Seq<
    Seq<char>,
> {
    split_lines(contents).filter(keeps(query, mode))
}

/// The lines whose key contains `needle`, where `keys[i]` is the key of
/// `lines[i]`.
pub open spec fn select_by_keys(
    lines: Seq<Seq<char>>,
    keys: Seq<Seq<char>>,
    needle: Seq<char>,
) -> Seq<Seq<char>>
    decreases lines.len(),
{
    if lines.len() == 0 {
        Seq::empty()
    } else {
        let kept = select_by_keys(lines.drop_last(), keys.drop_last(), needle);
        if has_substring(keys[lines.len() - 1], needle) {
            kept.push(lines.last())
        } else {
            kept
        }
    }
}

/// The character sequences of a sequence of strings.
pub open spec fn string_views(v: Seq<String>) -> Seq<Seq<char>> {
    v.map_values(|s: String| s@)
}

/// Lines of `contents` that contain `query`, trimmed of surrounding white
/// space, in their order in `contents`.
pub fn search<'a>(query: &str, contents: &'a str) -> (r: Vec<&'a str>)
    ensures
        views(r@) == filtered(query@, contents@, MatchMode::CaseSensitive),
{
    let needle = trimmed(query);
    let lines = lines_of(contents);
    let ghost all = views(lines@);
    let ghost pred = keeps(query@, MatchMode::CaseSensitive);
    let mut r: Vec<&'a str> = Vec::new();
    let mut i: usize = 0;
    while i < lines.len()
        invariant
            i <= lines.len(),
            all == views(lines@),
            all == split_lines(contents@),
            needle@ == trim(query@),
            pred == keeps(query@, MatchMode::CaseSensitive),
            views(r@) == all.take(i as int).filter(pred),
        decreases lines.len() - i,
    {
        let line = lines[i];
        let ghost before = r@;
        let found = contains_str(line, needle);
        if found {
            r.push(line);
        }
        proof {
            assert(all.take(i + 1).drop_last() =~= all.take(i as int));
            assert(all[i as int] == line@);
            reveal(Seq::filter);
            if found {
                assert(views(r@) =~= views(before).push(line@));
            }
        }
        i += 1;
    }
    proof {
        assert(all.take(i as int) =~= all);
    }
    r
}

/// Lines whose key contains `needle`, in order: `keys[i]` is the key of
/// `lines[i]`.
pub fn select_lines<'a>(lines: &Vec<&'a str>, keys: &Vec<String>, needle: &str) -> (r: Vec<
    &'a str,
>)
    requires
        lines.len() == keys.len(),
    ensures
        views(r@) == select_by_keys(views(lines@), string_views(keys@), needle@),
{
    let ghost all = views(lines@);
    let ghost all_keys = string_views(keys@);
    let mut r: Vec<&'a str> = Vec::new();
    let mut i: usize = 0;
    while i < lines.len()
        invariant
            i <= lines.len(),
            lines.len() == keys.len(),
            all == views(lines@),
            all_keys == string_views(keys@),
            views(r@) == select_by_keys(all.take(i as int), all_keys.take(i as int), needle@),
        decreases lines.len() - i,
    {
        let line = lines[i];
        let ghost before = r@;
        let found = contains_str(keys[i].as_str(), needle);
        if found {
            r.push(line);
        }
        proof {
            assert(all.take(i + 1).drop_last() =~= all.take(i as int));
            assert(all_keys.take(i + 1).drop_last() =~= all_keys.take(i as int));
            assert(all_keys.take(i + 1)[i as int] == keys@[i as int]@);
            if found {
                assert(views(r@) =~= views(before).push(line@));
            }
        }
        i += 1;
    }
    proof {
        assert(all.take(i as int) =~= all);
        assert(all_keys.take(i as int) =~= all_keys);
    }
    r
}

/// Selecting by lower-cased keys is filtering by the case-insensitive test.
proof fn lemma_select_by_folded_keys(lines: Seq<Seq<char>>, keys: Seq<Seq<char>>, query: Seq<char>)
    requires
        keys.len() == lines.len(),
        forall|i: int| 0 <= i < lines.len() ==> #[trigger] keys[i] == lower_of(lines[i]),
    ensures
        select_by_keys(lines, keys, lower_of(trim(query))) == lines.filter(
            keeps(query, MatchMode::CaseInsensitive),
        ),
    decreases lines.len(),
{
    reveal(Seq::filter);
    if lines.len() > 0 {
        let n = lines.len() - 1;
        assert(keys[n] == lower_of(lines[n]));
        lemma_select_by_folded_keys(lines.drop_last(), keys.drop_last(), query);
    }
}

/// Lines of `contents` that contain `query`, trimmed of surrounding white
/// space, when both are lower-cased, in their order in `contents`.
pub fn search_case_insensitive<'a>(query: &str, contents: &'a str) -> (r: Vec<&'a str>)
    ensures
        views(r@) == filtered(query@, contents@, MatchMode::CaseInsensitive),
{
    let needle = lowercase(trimmed(query));
    let lines = lines_of(contents);
    let mut keys: Vec<String> = Vec::new();
    let mut i: usize = 0;
    while i < lines.len()
        invariant
            i <= lines.len(),
            keys.len() == i,
            forall|j: int| 0 <= j < i ==> #[trigger] keys@[j]@ == lower_of(lines@[j]@),
        decreases lines.len() - i,
    {
        keys.push(lowercase(lines[i]));
        i += 1;
    }
    proof {
        let all = views(lines@);
        let all_keys = string_views(keys@);
        assert forall|j: int| 0 <= j < all.len() implies #[trigger] all_keys[j] == lower_of(
            all[j],
        ) by {
            assert(keys@[j]@ == lower_of(lines@[j]@));
        }
        lemma_select_by_folded_keys(all, all_keys, query@);
    }
    select_lines(&lines, &keys, needle.as_str())
}

/// Lines of `contents` that match `query` under `mode`, in order.
pub fn filter<'a>(query: &str, contents: &'a str, mode: MatchMode) -> (r: Vec<&'a str>)
    ensures
        views(r@) == filtered(query@, contents@, mode),
{
    match mode {
        MatchMode::CaseSensitive => search(query, contents),
        MatchMode::CaseInsensitive => search_case_insensitive(query, contents),
    }
}

} // verus!
