use rust_notes::search::{filter, search, search_case_insensitive, MatchMode};

const TOOL_TEXT: &str = "Rust:\nsafe, fast, productive.\nPick three.\nDuct tape.";
const TRUST_TEXT: &str = "Rust:\nsafe, fast, productive.\nPick three.\nTrust me.";

#[test]
fn case_sensitive() {
    let query = "duct";
    let contents = "\
Rust:
safe, fast, productive.
Pick three.
Duct tape.";
    assert_eq!(vec!["safe, fast, productive."], search(query, contents));
}

#[test]
fn case_insensitive() {
    let query = "rUsT";
    let contents = "\
Rust:
safe, fast, productive.
Pick three.
Trust me.";
    assert_eq!(
        vec!["Rust:", "Trust me."],
        search_case_insensitive(query, contents)
    );
}

#[test]
fn empty_query_keeps_every_line_in_order() {
    let lines: Vec<&str> = TOOL_TEXT.lines().collect();
    assert_eq!(search("", TOOL_TEXT), lines);
    assert_eq!(filter("", TOOL_TEXT, MatchMode::CaseSensitive).len(), 4);
}

#[test]
fn result_keeps_document_order() {
    let text = "b one\na two\nb three\nc four\nb five";
    assert_eq!(search("b", text), vec!["b one", "b three", "b five"]);
    assert_eq!(search("zzz", text), Vec::<&str>::new());
}

#[test]
fn exact_matches_are_kept_when_folded() {
    let exact = search("ust", TRUST_TEXT);
    let folded = search_case_insensitive("ust", TRUST_TEXT);
    assert_eq!(exact, vec!["Rust:", "Trust me."]);
    assert_eq!(folded, vec!["Rust:", "Trust me."]);
    for line in &exact {
        assert!(folded.contains(line));
    }
    assert_eq!(search("Duct", TOOL_TEXT), vec!["Duct tape."]);
    assert_eq!(
        search_case_insensitive("Duct", TOOL_TEXT),
        vec!["safe, fast, productive.", "Duct tape."]
    );
}

#[test]
fn padded_query_matches_as_trimmed() {
    for mode in [MatchMode::CaseSensitive, MatchMode::CaseInsensitive] {
        assert_eq!(
            filter(" duct ", TOOL_TEXT, mode),
            filter("duct", TOOL_TEXT, mode)
        );
    }
    assert_eq!(search(" duct ", TOOL_TEXT), vec!["safe, fast, productive."]);
    assert_eq!(search("\tduct\n", TOOL_TEXT), vec!["safe, fast, productive."]);
}

#[test]
fn empty_document_gives_no_lines() {
    for mode in [MatchMode::CaseSensitive, MatchMode::CaseInsensitive] {
        assert!(filter("", "", mode).is_empty());
        assert!(filter("duct", "", mode).is_empty());
    }
}

#[test]
fn filter_follows_the_mode() {
    assert_eq!(
        filter("duct", TOOL_TEXT, MatchMode::CaseSensitive),
        vec!["safe, fast, productive."]
    );
    assert_eq!(
        filter("DUCT", TOOL_TEXT, MatchMode::CaseInsensitive),
        vec!["safe, fast, productive.", "Duct tape."]
    );
    assert!(filter("DUCT", TOOL_TEXT, MatchMode::CaseSensitive).is_empty());
}

#[test]
fn line_endings() {
    let text = "one\r\ntwo\n\nthree\n";
    assert_eq!(search("", text), vec!["one", "two", "", "three"]);
    assert_eq!(search("e", text), vec!["one", "three"]);
    assert_eq!(search("", "\n"), vec![""]);
}

#[test]
fn folding_can_lose_an_exact_match() {
    // A capital sigma at the end of a word lower-cases to the final form,
    // while the query alone lower-cases to the medial form.
    let text = "\u{391}\u{3a3}";
    assert_eq!(search("\u{3a3}", text), vec![text]);
    assert!(search_case_insensitive("\u{3a3}", text).is_empty());
}
