use rcon_client::repl::{
    chars_of, execute, is_history_request, is_quit, shown, Key, Mode, Step, TerminalState, PROMPT,
};

fn type_text(ts: &mut TerminalState, text: &str) {
    for c in text.chars() {
        ts.handle_key(Key::Char(c), 0);
    }
}

#[test]
fn typing_inserts_at_the_edit_position() {
    let mut ts = TerminalState::new();
    assert_eq!(ts.mode, Mode::Editing);
    assert!(!ts.dirty);
    type_text(&mut ts, "lst");
    assert_eq!(ts.line(), "lst");
    assert_eq!(ts.position, 3);
    assert!(ts.dirty);
    ts.drawn();
    ts.handle_key(Key::Left, 0);
    ts.handle_key(Key::Left, 0);
    assert_eq!(ts.position, 1);
    assert!(!ts.dirty);
    ts.handle_key(Key::Char('i'), 0);
    assert_eq!(ts.line(), "list");
    assert_eq!(ts.position, 2);
    assert!(ts.dirty);
}

#[test]
fn backspace_and_delete() {
    let mut ts = TerminalState::new();
    ts.handle_key(Key::Backspace, 0);
    ts.handle_key(Key::Delete, 0);
    assert_eq!(ts.line(), "");
    assert!(!ts.dirty);
    type_text(&mut ts, "abcd");
    ts.drawn();
    ts.handle_key(Key::Delete, 0);
    assert_eq!(ts.line(), "abcd");
    assert!(!ts.dirty);
    ts.handle_key(Key::Backspace, 0);
    assert_eq!(ts.line(), "abc");
    assert_eq!(ts.position, 3);
    assert!(ts.dirty);
    ts.handle_key(Key::Left, 0);
    ts.handle_key(Key::Left, 0);
    ts.handle_key(Key::Delete, 0);
    assert_eq!(ts.line(), "ac");
    assert_eq!(ts.position, 1);
    ts.handle_key(Key::Backspace, 0);
    assert_eq!(ts.line(), "c");
    assert_eq!(ts.position, 0);
    ts.drawn();
    ts.handle_key(Key::Backspace, 0);
    ts.handle_key(Key::Left, 0);
    assert_eq!(ts.line(), "c");
    assert_eq!(ts.position, 0);
    assert!(!ts.dirty);
    ts.handle_key(Key::Right, 0);
    ts.handle_key(Key::Right, 0);
    assert_eq!(ts.position, 1);
}

#[test]
fn enter_submits_and_complete_returns_to_editing() {
    let mut ts = TerminalState::new();
    type_text(&mut ts, "list");
    ts.handle_key(Key::Enter, 9);
    assert_eq!(ts.mode, Mode::Submitted);
    assert_eq!(ts.row, 9);
    assert_eq!(ts.position, 0);
    // keys do nothing while a line waits
    ts.handle_key(Key::Char('x'), 0);
    ts.handle_key(Key::Escape, 0);
    assert_eq!(ts.mode, Mode::Submitted);
    assert_eq!(ts.line(), "list");
    match ts.submit() {
        Step::Run(cmd) => assert_eq!(cmd, "list"),
        Step::ShowHistory => panic!("the line is a command"),
    }
    assert_eq!(ts.history.len(), 1);
    ts.complete(Some("There are 2 players online".to_string()));
    assert_eq!(ts.mode, Mode::Editing);
    assert_eq!(ts.line(), "");
    assert_eq!(ts.position, 0);
    assert_eq!(ts.scroller.lines, vec!["There are 2 players online".to_string()]);
    assert_eq!(ts.scroller.index, 0);
}

#[test]
fn empty_response_shows_nothing() {
    let mut ts = TerminalState::new();
    type_text(&mut ts, "seed");
    ts.handle_key(Key::Enter, 0);
    ts.submit();
    ts.complete(Some(String::new()));
    assert!(ts.scroller.lines.is_empty());
    type_text(&mut ts, "seed");
    ts.handle_key(Key::Enter, 0);
    ts.submit();
    ts.complete(None);
    assert!(ts.scroller.lines.is_empty());
    assert_eq!(ts.history.len(), 2);
    assert_eq!(ts.mode, Mode::Editing);
}

#[test]
fn history_request_is_kept_local() {
    let mut ts = TerminalState::new();
    type_text(&mut ts, "~history");
    ts.handle_key(Key::Enter, 0);
    assert!(matches!(ts.submit(), Step::ShowHistory));
    let stored: Vec<String> = ts.history.iter().cloned().collect();
    assert_eq!(stored, vec!["~history".to_string()]);
    ts.complete(None);
    assert_eq!(ts.mode, Mode::Editing);
}

#[test]
fn arrows_recall_commands() {
    let mut ts = TerminalState::new();
    for cmd in ["a1", "b22", "c333"] {
        type_text(&mut ts, cmd);
        ts.handle_key(Key::Enter, 0);
        ts.submit();
        ts.complete(None);
    }
    ts.drawn();
    type_text(&mut ts, "dr");
    ts.drawn();
    ts.handle_key(Key::Up, 0);
    assert_eq!(ts.line(), "c333");
    assert_eq!(ts.position, 4);
    assert!(ts.dirty);
    ts.handle_key(Key::Up, 0);
    assert_eq!(ts.line(), "b22");
    assert_eq!(ts.position, 3);
    ts.handle_key(Key::Up, 0);
    assert_eq!(ts.line(), "a1");
    ts.drawn();
    ts.handle_key(Key::Up, 0);
    assert_eq!(ts.line(), "a1");
    assert_eq!(ts.position, 2);
    assert!(!ts.dirty);
    ts.handle_key(Key::Down, 0);
    assert_eq!(ts.line(), "a1");
    ts.handle_key(Key::Down, 0);
    assert_eq!(ts.line(), "b22");
    ts.handle_key(Key::Down, 0);
    assert_eq!(ts.line(), "c333");
    ts.drawn();
    ts.handle_key(Key::Down, 0);
    assert_eq!(ts.line(), "c333");
    assert!(!ts.dirty);
}

#[test]
fn escape_and_quit_leave() {
    let mut ts = TerminalState::new();
    type_text(&mut ts, "half a li");
    ts.handle_key(Key::Escape, 0);
    assert_eq!(ts.mode, Mode::Exited);
    ts.handle_key(Key::Char('x'), 0);
    assert_eq!(ts.line(), "half a li");

    let mut ts = TerminalState::new();
    type_text(&mut ts, "q");
    ts.handle_key(Key::Enter, 0);
    match ts.submit() {
        Step::Run(cmd) => assert_eq!(cmd, "q"),
        Step::ShowHistory => panic!("the line is a command"),
    }
    assert!(ts.quit);
    ts.complete(None);
    assert_eq!(ts.mode, Mode::Exited);
}

#[test]
fn execute_stores_the_line() {
    let mut ts = TerminalState::new();
    match execute(&mut ts, "list") {
        Step::Run(cmd) => assert_eq!(cmd, "list"),
        Step::ShowHistory => panic!("the line is a command"),
    }
    assert!(!ts.quit);
    assert!(matches!(execute(&mut ts, "~history"), Step::ShowHistory));
    assert!(matches!(execute(&mut ts, "q"), Step::Run(_)));
    assert!(ts.quit);
    let stored: Vec<String> = ts.history.iter().cloned().collect();
    assert_eq!(stored, vec!["list".to_string(), "~history".to_string(), "q".to_string()]);
    assert_eq!(ts.history.index, 3);
}

#[test]
fn sentinels_and_helpers() {
    assert!(is_history_request("~history"));
    assert!(!is_history_request("~history "));
    assert!(!is_history_request("history"));
    assert!(is_quit("q"));
    assert!(!is_quit("q\n"));
    assert!(!is_quit(""));
    assert_eq!(shown(String::new()), None);
    assert_eq!(shown("ok".to_string()), Some("ok".to_string()));
    assert_eq!(chars_of("h\u{e9}!"), vec!['h', '\u{e9}', '!']);
    assert_eq!(chars_of(""), Vec::<char>::new());
}

#[test]
fn prompt_line_shows_the_prompt_and_the_line() {
    let mut ts = TerminalState::new();
    assert_eq!(ts.prompt_line(), "rcon> ");
    type_text(&mut ts, "list");
    assert_eq!(ts.prompt_line(), "rcon> list");
    assert_eq!(PROMPT, "rcon> ");
}

#[test]
fn redraw_only_what_changed() {
    let mut ts = TerminalState::new();
    assert_eq!(ts.redraw(), None);
    type_text(&mut ts, "li");
    assert_eq!(ts.redraw(), Some("rcon> li".to_string()));
    assert!(!ts.dirty);
    assert_eq!(ts.redraw(), None);
    ts.handle_key(Key::Left, 0);
    assert_eq!(ts.redraw(), None);
    ts.handle_key(Key::Delete, 0);
    assert_eq!(ts.redraw(), Some("rcon> l".to_string()));
}
