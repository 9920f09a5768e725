use fsbot_rs::dispatch::FsOutcome;
use fsbot_rs::dispatch::FsRequest;
use fsbot_rs::dispatch::Step;
use fsbot_rs::dispatch::plan_utterance;
use fsbot_rs::dispatch::render_outcome;
use fsbot_rs::extract::extract_filename;
use fsbot_rs::extract::extract_search_query;
use fsbot_rs::intent::Intent;
use fsbot_rs::intent::classify;

#[test]
fn classify_create_needs_both_keywords() {
    assert_eq!(classify("create file notes.txt"), Intent::Create);
    assert_eq!(classify("please CREATE a FILE now"), Intent::Create);
    // "create" alone, without "file", falls through to Unknown.
    assert_eq!(classify("create notes"), Intent::Unknown);
}

#[test]
fn classify_all_families() {
    assert_eq!(classify("delete notes.txt"), Intent::Delete);
    assert_eq!(classify("remove the old one"), Intent::Delete);
    assert_eq!(classify("find Python files"), Intent::Search);
    assert_eq!(classify("search documents"), Intent::Search);
    assert_eq!(classify("read notes.txt"), Intent::Read);
    assert_eq!(classify("open the log"), Intent::Read);
    assert_eq!(classify("help"), Intent::Help);
    assert_eq!(classify("hello"), Intent::Greet);
    assert_eq!(classify("bye"), Intent::Farewell);
    assert_eq!(classify("goodbye"), Intent::Farewell);
    assert_eq!(classify("what is the weather"), Intent::Unknown);
}

#[test]
fn classify_priority_search_beats_help() {
    // Matches both the "help" and the "find" families; search wins
    // because it is checked first.
    assert_eq!(classify("help me find files"), Intent::Search);
}

#[test]
fn classify_priority_delete_beats_search() {
    assert_eq!(classify("help me remove or find files"), Intent::Delete);
}

#[test]
fn classify_matches_substrings() {
    // Substring matching, not word boundaries: "history" contains "hi".
    assert_eq!(classify("history"), Intent::Greet);
    // ... and "thread" contains "read".
    assert_eq!(classify("thread"), Intent::Read);
}

#[test]
fn classify_is_pure() {
    let utterance = "Find my Notes please";
    let first = classify(utterance);
    let second = classify(utterance);
    assert_eq!(first, second);
    assert_eq!(first, Intent::Search);
}

#[test]
fn filename_is_first_dot_token_after_head() {
    assert_eq!(extract_filename("create file notes.txt"), Some("notes.txt".to_string()));
    // Case and inner dots are preserved verbatim.
    assert_eq!(extract_filename("read My.Report.V2"), Some("My.Report.V2".to_string()));
    // The first qualifying token wins.
    assert_eq!(extract_filename("delete a.txt b.txt"), Some("a.txt".to_string()));
}

#[test]
fn filename_ignores_leading_token() {
    // A dot in the very first token does not count.
    assert_eq!(extract_filename("notes.txt"), None);
}

#[test]
fn no_dot_no_filename() {
    assert_eq!(extract_filename("create file please"), None);
    assert_eq!(extract_filename(""), None);
}

#[test]
fn search_query_drops_verb_and_stop_word() {
    // Tokens after the verb, minus "files", case preserved, trimmed.
    assert_eq!(extract_search_query("find Python files"), "Python");
    assert_eq!(extract_search_query("search documents"), "documents");
    assert_eq!(extract_search_query("find my notes files now"), "my notes now");
}

#[test]
fn search_query_stop_word_is_case_insensitive() {
    assert_eq!(extract_search_query("search Files files"), "");
}

#[test]
fn search_query_of_bare_verb_is_empty() {
    assert_eq!(extract_search_query("find"), "");
    assert_eq!(extract_search_query(""), "");
}

#[test]
fn plan_create_with_filename() {
    match plan_utterance("create file notes.txt") {
        Step::Fs(FsRequest::Create(name)) => assert_eq!(name, "notes.txt"),
        _ => panic!("expected a create request"),
    }
}

#[test]
fn plan_create_without_filename_asks_for_one() {
    match plan_utterance("create a file") {
        Step::Reply(r) => assert_eq!(
            r,
            "Please specify a filename to create. Example: 'create file notes.txt'"
        ),
        _ => panic!("expected a fixed reply"),
    }
}

#[test]
fn plan_delete_without_filename_asks_for_one() {
    match plan_utterance("delete it") {
        Step::Reply(r) => assert_eq!(
            r,
            "Please specify a filename to delete. Example: 'delete notes.txt'"
        ),
        _ => panic!("expected a fixed reply"),
    }
}

#[test]
fn plan_read_without_filename_asks_for_one() {
    match plan_utterance("open it") {
        Step::Reply(r) => assert_eq!(r, "Please specify a filename to read. Example: 'read notes.txt'"),
        _ => panic!("expected a fixed reply"),
    }
}

#[test]
fn plan_search_always_dispatches() {
    match plan_utterance("find notes") {
        Step::Fs(FsRequest::Search(query)) => assert_eq!(query, "notes"),
        _ => panic!("expected a search request"),
    }
    match plan_utterance("find") {
        Step::Fs(FsRequest::Search(query)) => assert_eq!(query, ""),
        _ => panic!("expected a search request"),
    }
}

#[test]
fn plan_fixed_replies() {
    match plan_utterance("xyzzy") {
        Step::Reply(r) => assert!(r.starts_with("I understand you're asking about something.")),
        _ => panic!("expected the clarification reply"),
    }
    match plan_utterance("hello") {
        Step::Reply(r) => assert!(r.starts_with("Hello! I'm your AI assistant.")),
        _ => panic!("expected the greeting"),
    }
    match plan_utterance("bye") {
        Step::Reply(r) => assert_eq!(r, "Goodbye! Feel free to ask for help anytime. Have a great day!"),
        _ => panic!("expected the goodbye"),
    }
    match plan_utterance("help") {
        Step::Reply(r) => {
            assert!(r.starts_with("I can help you with these file operations:\n"));
            assert!(r.ends_with("What would you like to do?"));
        },
        _ => panic!("expected the capability summary"),
    }
}

#[test]
fn render_search_without_matches() {
    let req = FsRequest::Search("notes".to_string());
    let reply = render_outcome(&req, &FsOutcome::Matches(Vec::new()));
    assert_eq!(reply, "No files found matching your search.");
}

#[test]
fn render_search_with_matches_joins_paths() {
    let req = FsRequest::Search("notes".to_string());
    let paths = vec!["./notes.txt".to_string(), "./old/notes.md".to_string()];
    let reply = render_outcome(&req, &FsOutcome::Matches(paths));
    assert_eq!(reply, "Found these files:\n./notes.txt\n./old/notes.md");
}

#[test]
fn render_create_success() {
    let req = FsRequest::Create("notes.txt".to_string());
    let reply = render_outcome(&req, &FsOutcome::Success);
    assert_eq!(reply, "I've created the file: notes.txt");
}

#[test]
fn render_delete_success() {
    let req = FsRequest::Delete("notes.txt".to_string());
    let reply = render_outcome(&req, &FsOutcome::Success);
    assert_eq!(reply, "I've deleted the file: notes.txt");
}

#[test]
fn render_delete_failure_reports_error() {
    let req = FsRequest::Delete("missing.txt".to_string());
    let reply = render_outcome(&req, &FsOutcome::Failure("No such file or directory".to_string()));
    assert!(reply.starts_with("Error deleting file: "));
    assert_eq!(reply, "Error deleting file: No such file or directory");
}

#[test]
fn render_other_failures_report_errors() {
    let create = FsRequest::Create("x.txt".to_string());
    let reply = render_outcome(&create, &FsOutcome::Failure("full".to_string()));
    assert_eq!(reply, "Error creating file: full");
    let search = FsRequest::Search("x".to_string());
    let reply = render_outcome(&search, &FsOutcome::Failure("denied".to_string()));
    assert_eq!(reply, "Error searching files: denied");
    let read = FsRequest::Read("x.txt".to_string());
    let reply = render_outcome(&read, &FsOutcome::Failure("denied".to_string()));
    assert_eq!(reply, "Error reading file: denied");
}

#[test]
fn render_read_contents() {
    let req = FsRequest::Read("notes.txt".to_string());
    let reply = render_outcome(&req, &FsOutcome::Content("milk\neggs".to_string()));
    assert_eq!(reply, "File contents:\nmilk\neggs");
}
