use fsbot_rs::ai::AiClient;
use fsbot_rs::app::App;
use fsbot_rs::app::KeyInput;
use fsbot_rs::conversation::ConversationState;
use fsbot_rs::conversation::Message;
use fsbot_rs::conversation::Role;
use fsbot_rs::dispatch::FsOutcome;
use fsbot_rs::dispatch::FsRequest;
use fsbot_rs::dispatch::Step;
use fsbot_rs::ui::Ui;

fn type_line(app: &mut App, line: &str) {
    for c in line.chars() {
        let pending = app.handle_key(KeyInput::Char(c));
        assert!(pending.is_none());
    }
}

#[test]
fn transcript_starts_empty_and_only_appends() {
    let mut s = ConversationState::new();
    assert_eq!(s.len(), 0);
    s.append(Message::new(Role::User, "hi there".to_string()));
    s.append(Message::new(Role::Assistant, "hello".to_string()));
    assert_eq!(s.len(), 2);
    assert_eq!(s.get(0).role(), Role::User);
    assert_eq!(s.get(0).content().as_str(), "hi there");
    assert_eq!(s.get(1).role(), Role::Assistant);
    assert_eq!(s.get(1).content().as_str(), "hello");
    let snapshot = s.snapshot();
    assert_eq!(snapshot.len(), 2);
    assert_eq!(snapshot[0].content().as_str(), "hi there");
}

#[test]
fn each_turn_appends_one_user_and_one_assistant_message() {
    let mut client = AiClient::new();
    assert_eq!(client.conversation().len(), 0);
    let utterances = ["hello", "what can you do", "bye"];
    for (n, utterance) in utterances.iter().enumerate() {
        let step = client.begin_turn(utterance);
        let reply = match step {
            Step::Reply(r) => r,
            Step::Fs(_) => panic!("these utterances need no filesystem"),
        };
        client.finish_turn(&reply);
        assert_eq!(client.conversation().len(), 2 * (n + 1));
    }
    // Strict arrival order: user and assistant alternate.
    for n in 0..utterances.len() {
        let user = client.conversation().get(2 * n);
        assert_eq!(user.role(), Role::User);
        assert_eq!(user.content().as_str(), utterances[n]);
        assert_eq!(client.conversation().get(2 * n + 1).role(), Role::Assistant);
    }
}

#[test]
fn turn_with_filesystem_appends_two_messages_as_well() {
    let mut client = AiClient::new();
    let step = client.begin_turn("delete missing.txt");
    let req = match step {
        Step::Fs(req) => req,
        Step::Reply(_) => panic!("expected a filesystem request"),
    };
    assert_eq!(client.conversation().len(), 1);
    let reply = fsbot_rs::dispatch::render_outcome(
        &req,
        &FsOutcome::Failure("No such file or directory".to_string()),
    );
    client.finish_turn(&reply);
    assert_eq!(client.conversation().len(), 2);
    assert!(client.conversation().get(1).content().starts_with("Error deleting file: "));
}

#[test]
fn setters_are_accepted() {
    let mut client = AiClient::new();
    client.set_api_key("not-a-real-key".to_string());
    client.set_model("gpt-4".to_string());
    assert_eq!(client.conversation().len(), 0);
}

#[test]
fn ui_starts_with_welcome_line() {
    let ui = Ui::new();
    assert_eq!(ui.input_text().as_str(), "");
    assert_eq!(ui.message_lines().len(), 1);
    assert_eq!(
        ui.message_lines()[0],
        "Welcome to fsbot-rs! Type your message and press Enter."
    );
}

#[test]
fn ui_edits_input_line() {
    let mut ui = Ui::new();
    ui.push_input_char('h');
    ui.push_input_char('i');
    assert_eq!(ui.input_text().as_str(), "hi");
    ui.backspace();
    assert_eq!(ui.input_text().as_str(), "h");
    ui.backspace();
    ui.backspace();
    assert_eq!(ui.input_text().as_str(), "");
    ui.push_input_char('x');
    ui.clear_input();
    assert_eq!(ui.input_text().as_str(), "");
}

#[test]
fn app_quits_on_q_or_ctrl_c() {
    let mut app = App::new();
    assert!(!app.wants_quit());
    app.handle_key(KeyInput::Char('q'));
    assert!(app.wants_quit());
    let mut app = App::new();
    app.handle_key(KeyInput::CtrlC);
    assert!(app.wants_quit());
}

#[test]
fn app_enter_on_empty_input_does_nothing() {
    let mut app = App::new();
    let pending = app.handle_key(KeyInput::Enter);
    assert!(pending.is_none());
    assert_eq!(app.ui().message_lines().len(), 1);
    assert_eq!(app.client().conversation().len(), 0);
}

#[test]
fn app_runs_a_direct_reply_turn() {
    let mut app = App::new();
    type_line(&mut app, "hello");
    assert_eq!(app.ui().input_text().as_str(), "hello");
    let pending = app.handle_key(KeyInput::Enter);
    assert!(pending.is_none());
    assert_eq!(app.ui().input_text().as_str(), "");
    let lines = app.ui().message_lines();
    assert_eq!(lines.len(), 3);
    assert_eq!(lines[1], "You: hello");
    assert!(lines[2].starts_with("Assistant: Hello! I'm your AI assistant."));
    assert_eq!(app.client().conversation().len(), 2);
}

#[test]
fn app_runs_a_filesystem_turn() {
    let mut app = App::new();
    type_line(&mut app, "find notes");
    let pending = app.handle_key(KeyInput::Enter);
    let req = pending.expect("a search needs the filesystem");
    match &req {
        FsRequest::Search(query) => assert_eq!(query.as_str(), "notes"),
        _ => panic!("expected a search request"),
    }
    // Mid-turn: the user message is recorded, the reply is not yet.
    assert_eq!(app.client().conversation().len(), 1);
    app.finish_dispatch(&req, &FsOutcome::Matches(Vec::new()));
    assert_eq!(app.client().conversation().len(), 2);
    let lines = app.ui().message_lines();
    assert_eq!(lines.len(), 3);
    assert_eq!(lines[1], "You: find notes");
    assert_eq!(lines[2], "Assistant: No files found matching your search.");
}

#[test]
fn app_backspace_edits_typed_text() {
    let mut app = App::new();
    type_line(&mut app, "finx");
    app.handle_key(KeyInput::Backspace);
    app.handle_key(KeyInput::Char('d'));
    assert_eq!(app.ui().input_text().as_str(), "find");
    app.handle_key(KeyInput::Other);
    assert_eq!(app.ui().input_text().as_str(), "find");
}

#[test]
fn typing_q_asks_to_quit_even_mid_word() {
    // The quit key is checked before ordinary characters, so "q" can
    // never be typed into the input line.
    let mut app = App::new();
    type_line(&mut app, "se");
    app.handle_key(KeyInput::Char('q'));
    assert!(app.wants_quit());
    assert_eq!(app.ui().input_text().as_str(), "se");
}
