use slopjson::json_reader::parse_json_content;
use slopjson::navigation::{ancestors_of, search_forest, SearchSession};
use slopjson::search::{find_all_occurrences, find_unit_occurrences, resolve_highlight_range};
use slopjson::tree_model::{build_tree_from_parse_result, TreeNode};

fn tree_of(text: &str, name: &str) -> TreeNode {
    build_tree_from_parse_result(parse_json_content(text).unwrap(), name)
}

#[test]
fn occurrences_are_character_ranges_without_overlap() {
    assert_eq!(find_all_occurrences("aaaa", "aa", true), vec![(0, 2), (2, 4)]);
    assert_eq!(find_all_occurrences("ébcBC", "bc", false), vec![(1, 3), (3, 5)]);
    assert_eq!(find_all_occurrences("ébcBC", "bc", true), vec![(1, 3)]);
    assert_eq!(find_all_occurrences("abc", "", false), vec![]);
    assert_eq!(find_all_occurrences("ab", "abc", false), vec![]);
}

#[test]
fn case_insensitive_search_folds_both_sides() {
    assert_eq!(find_all_occurrences("ÄPFEL äpfel", "äPFEL", false), vec![(0, 5), (6, 11)]);
}

#[test]
fn one_value_match_and_its_highlight() {
    let root = tree_of(r#"{"name":"test"}"#, "doc");
    let matches = search_forest(&vec![root], "TEST", false);
    assert_eq!(matches.len(), 1);
    assert_eq!(matches[0].path, "$.name");
    assert!(!matches[0].is_key_match);
    assert_eq!(matches[0].position, vec![0, 0]);
    let range = resolve_highlight_range(&vec![(0, false)], 0, "test", "TEST", false);
    assert_eq!(range, Some((0, 4)));
}

#[test]
fn key_matches_come_before_value_matches() {
    let root = tree_of(r#"{"ab": "xabyab", "c": {"ab": 1}}"#, "doc");
    let matches = search_forest(&vec![root], "ab", true);
    let summary: Vec<(&str, bool)> = matches.iter().map(|m| (m.path.as_str(), m.is_key_match)).collect();
    assert_eq!(summary, vec![("$.ab", true), ("$.ab", false), ("$.ab", false), ("$.c.ab", true)]);
    assert_eq!(matches[3].position, vec![0, 1, 0]);
}

#[test]
fn highlight_follows_the_rank_among_value_matches() {
    let entries = vec![(4, true), (5, false), (6, false)];
    assert_eq!(resolve_highlight_range(&entries, 6, "xabyab", "ab", true), Some((4, 6)));
    assert_eq!(resolve_highlight_range(&entries, 5, "xabyab", "ab", true), Some((1, 3)));
    assert_eq!(resolve_highlight_range(&entries, 4, "xabyab", "ab", true), None);
    assert_eq!(resolve_highlight_range(&entries, 9, "xabyab", "ab", true), None);
    assert_eq!(resolve_highlight_range(&entries, 6, "xab", "ab", true), None);
}

#[test]
fn navigation_wraps_both_ways() {
    let root = tree_of(r#"["a", "a", "a"]"#, "doc");
    let mut session = SearchSession::new();
    session.search(&vec![root], "a", true, None);
    assert_eq!(session.matches().len(), 3);
    assert_eq!(session.current_index(), Some(0));
    session.previous();
    assert_eq!(session.current_index(), Some(2));
    session.next();
    assert_eq!(session.current_index(), Some(0));
    session.next();
    session.next();
    assert_eq!(session.current_index(), Some(2));
    session.next();
    assert_eq!(session.current_index(), Some(0));
}

#[test]
fn search_starts_at_or_after_the_selection() {
    let roots = vec![tree_of(r#"{"x": "hit", "y": {"z": "hit"}}"#, "one"), tree_of(r#"["hit"]"#, "two")];
    let mut session = SearchSession::new();
    session.search(&roots, "hit", true, Some(&vec![0, 1]));
    assert_eq!(session.current_index(), Some(1));
    session.search(&roots, "hit", true, Some(&vec![1, 0]));
    assert_eq!(session.current_index(), Some(1));
    session.search(&roots, "hit", true, Some(&vec![1]));
    assert_eq!(session.current_index(), Some(0));
    session.search(&roots, "hit", true, Some(&vec![0, 0]));
    assert_eq!(session.current_index(), Some(0));
    session.search(&roots, "hit", true, Some(&vec![5, 5, 5]));
    assert_eq!(session.current_index(), Some(0));
    session.search(&roots, "hit", true, Some(&vec![1, 0, 0]));
    assert_eq!(session.current_index(), Some(0));
}

#[test]
fn empty_query_clears_the_matches() {
    let root = tree_of(r#"["a"]"#, "doc");
    let mut session = SearchSession::new();
    session.search(&vec![root], "", false, None);
    assert!(session.matches().is_empty());
    assert_eq!(session.current_index(), None);
    session.next();
    session.previous();
    assert_eq!(session.current_index(), None);
}

#[test]
fn current_highlight_of_the_session() {
    let root = tree_of(r#"{"k": "Bob and BOB"}"#, "doc");
    let mut session = SearchSession::new();
    session.search(&vec![root], "bob", false, None);
    assert_eq!(session.matches().len(), 2);
    assert_eq!(session.current_highlight("Bob and BOB"), Some((0, 3)));
    session.next();
    assert_eq!(session.path_matches(&vec![0, 0]), vec![(0, false), (1, false)]);
    assert_eq!(session.current_highlight("Bob and BOB"), Some((8, 11)));
    session.clear();
    assert_eq!(session.current_highlight("Bob and BOB"), None);
}

#[test]
fn ancestors_run_from_the_root_down() {
    assert_eq!(ancestors_of(&vec![2, 0, 5]), vec![vec![2], vec![2, 0]]);
    assert_eq!(ancestors_of(&vec![3]), Vec::<Vec<usize>>::new());
    assert_eq!(ancestors_of(&vec![]), Vec::<Vec<usize>>::new());
}

#[test]
fn current_match_follows_navigation() {
    let root = tree_of(r#"{"a": "x", "b": ["x"]}"#, "doc");
    let mut session = SearchSession::new();
    assert!(session.current_match().is_none());
    session.search(&vec![root], "x", true, None);
    assert_eq!(session.current_match().map(|m| m.path.as_str()), Some("$.a"));
    session.next();
    assert_eq!(session.current_match().map(|m| m.path.as_str()), Some("$.b[0]"));
    assert_eq!(session.current_match().map(|m| m.position.clone()), Some(vec![0, 1, 0]));
}

fn units(parts: &[&str]) -> Vec<String> {
    parts.iter().map(|p| p.to_string()).collect()
}

#[test]
fn unit_occurrences_compare_given_keys() {
    let haystack = units(&["ss", "a", "ss", "ss", "a"]);
    assert_eq!(find_unit_occurrences(&haystack, &units(&["ss", "a"])), vec![(0, 2), (3, 5)]);
    assert_eq!(find_unit_occurrences(&haystack, &units(&["ss", "ss"])), vec![(2, 4)]);
    assert_eq!(find_unit_occurrences(&haystack, &units(&[])), vec![]);
}
