use fsbot_rs::text::join_with;
use fsbot_rs::text::search_name_matches;
use fsbot_rs::text::to_lower_char;
use fsbot_rs::text::tokenize;

#[test]
fn tokenize_splits_on_whitespace_runs() {
    let toks = tokenize("create  file \t notes.txt ");
    assert_eq!(toks, vec!["create", "file", "notes.txt"]);
    assert_eq!(tokenize(""), Vec::<String>::new());
    assert_eq!(tokenize("   \n "), Vec::<String>::new());
    assert_eq!(tokenize("one"), vec!["one"]);
}

#[test]
fn lowering_touches_only_ascii_uppercase() {
    assert_eq!(to_lower_char('A'), 'a');
    assert_eq!(to_lower_char('Z'), 'z');
    assert_eq!(to_lower_char('a'), 'a');
    assert_eq!(to_lower_char('3'), '3');
    assert_eq!(to_lower_char('.'), '.');
}

#[test]
fn name_matching_ignores_case_on_both_sides() {
    assert!(search_name_matches("Notes.TXT", "notes"));
    assert!(search_name_matches("notes.txt", "NOTES"));
    assert!(search_name_matches("my_Report.md", "report"));
    assert!(!search_name_matches("my_Report.md", "notes"));
    // An empty query matches every name, as a substring always present.
    assert!(search_name_matches("anything", ""));
    assert!(!search_name_matches("a", "abc"));
}

#[test]
fn join_inserts_separator_between_neighbours() {
    let items = vec!["a".to_string(), "b".to_string(), "c".to_string()];
    assert_eq!(join_with(&items, "\n"), "a\nb\nc");
    assert_eq!(join_with(&vec!["solo".to_string()], "\n"), "solo");
    assert_eq!(join_with(&Vec::new(), "\n"), "");
}
