use plz::suggestion::Suggestion;
use plz::ui::tui::{
    choice_prefix, explanation_line, hints, query_cursor_column, waiting_text, Action, App, Event,
    Screen,
};
use plz::ui::{is_text, Key, KeyCode, Modifiers, Outcome};

fn press(app: &mut App, code: KeyCode, modifiers: Modifiers) -> Action {
    app.handle(Event::Key(Key { code, modifiers }))
}

fn typed(app: &mut App, text: &str) {
    for c in text.chars() {
        assert!(matches!(press(app, KeyCode::Char(c), Modifiers::none()), Action::Continue));
    }
}

fn finished(action: Action) -> Option<Outcome> {
    match action {
        Action::Finish(outcome) => Some(outcome),
        _ => None,
    }
}

#[test]
fn a_bare_character_is_text() {
    assert!(is_text(Modifiers::none()));
    assert!(is_text(Modifiers::shift()));
}

#[test]
fn a_chord_is_not_text() {
    assert!(!is_text(Modifiers::control()));
    assert!(!is_text(Modifiers::alt()));
    assert!(!is_text(Modifiers::alt().with(Modifiers::shift())));
}

#[test]
fn altgr_types_a_character() {
    // A Windows console reports AltGr as Ctrl+Alt, and that is the only way
    // to type `@` or `€` on a good half of the world's layouts.
    assert!(is_text(Modifiers::control().with(Modifiers::alt())));
}

#[test]
fn enter_sends_the_trimmed_query_and_a_blank_one_is_ignored() {
    let mut app = App::new(true, 3);
    typed(&mut app, "   ");
    assert!(matches!(press(&mut app, KeyCode::Enter, Modifiers::none()), Action::Continue));
    assert!(matches!(app.screen, Screen::Editing));
    typed(&mut app, "list files ");
    match press(&mut app, KeyCode::Enter, Modifiers::none()) {
        Action::Request(query) => assert_eq!(query, "list files"),
        _ => panic!("Enter sends the query"),
    }
    assert!(matches!(app.screen, Screen::Waiting));
}

#[test]
fn suggestions_arrive_and_a_digit_runs_one() {
    let mut app = App::new(false, 3);
    typed(&mut app, "disk usage");
    press(&mut app, KeyCode::Enter, Modifiers::none());
    app.handle(Event::Reply(Ok(vec![
        Suggestion::new("df -h", "disks"),
        Suggestion::new("du -sh .", "here"),
    ])));
    assert!(matches!(app.screen, Screen::Choosing { selected: 0 }));
    press(&mut app, KeyCode::Down, Modifiers::none());
    assert!(matches!(app.screen, Screen::Choosing { selected: 1 }));
    assert_eq!(
        finished(press(&mut app, KeyCode::Tab, Modifiers::none())),
        Some(Outcome::Copy(1)),
        "without a buffer Tab copies"
    );
    assert_eq!(
        finished(press(&mut app, KeyCode::Char('2'), Modifiers::none())),
        Some(Outcome::Run(1))
    );
    let session = app.into_session(Outcome::Run(1));
    assert_eq!(session.suggestions.len(), 2);
    assert_eq!(session.outcome, Outcome::Run(1));
}

#[test]
fn an_empty_reply_or_an_error_is_shown_and_any_key_edits_again() {
    let mut app = App::new(true, 3);
    typed(&mut app, "x");
    press(&mut app, KeyCode::Enter, Modifiers::none());
    app.handle(Event::Reply(Ok(Vec::new())));
    match &app.screen {
        Screen::Failed { message } => assert_eq!(message, "The model returned no suggestions."),
        _ => panic!("an empty reply is a failure"),
    }
    press(&mut app, KeyCode::Char('a'), Modifiers::none());
    assert!(matches!(app.screen, Screen::Editing));
    press(&mut app, KeyCode::Enter, Modifiers::none());
    app.handle(Event::ReplyLost);
    match &app.screen {
        Screen::Failed { message } => assert_eq!(message, "the background request was interrupted"),
        _ => panic!("a lost request is a failure"),
    }
}

#[test]
fn escape_cancels_on_every_screen() {
    let mut app = App::new(true, 3);
    assert_eq!(finished(press(&mut app, KeyCode::Esc, Modifiers::none())), Some(Outcome::Cancel));
    typed(&mut app, "x");
    press(&mut app, KeyCode::Enter, Modifiers::none());
    assert_eq!(finished(press(&mut app, KeyCode::Esc, Modifiers::none())), Some(Outcome::Cancel));
    assert_eq!(
        finished(press(&mut app, KeyCode::Char('c'), Modifiers::control())),
        Some(Outcome::Cancel)
    );
    app.handle(Event::Reply(Err("boom".into())));
    assert_eq!(finished(press(&mut app, KeyCode::Esc, Modifiers::none())), Some(Outcome::Cancel));
}

#[test]
fn ctrl_n_starts_over_and_ctrl_r_asks_again() {
    let mut app = App::new(true, 3);
    typed(&mut app, "find logs");
    press(&mut app, KeyCode::Enter, Modifiers::none());
    app.handle(Event::Reply(Ok(vec![Suggestion::new("ls *.log", "")])));
    match press(&mut app, KeyCode::Char('r'), Modifiers::control()) {
        Action::Request(query) => assert_eq!(query, "find logs"),
        _ => panic!("Ctrl+R retries"),
    }
    app.handle(Event::Reply(Ok(vec![Suggestion::new("ls *.log", "")])));
    press(&mut app, KeyCode::Char('n'), Modifiers::control());
    assert!(matches!(app.screen, Screen::Editing));
    assert!(app.query.is_blank());
    assert!(app.suggestions.is_empty());
}

#[test]
fn pasted_text_only_reaches_the_query_while_editing() {
    let mut app = App::new(true, 3);
    app.handle(Event::Paste("one\ntwo".into()));
    assert_eq!(app.query.text(), "one two");
    press(&mut app, KeyCode::Enter, Modifiers::none());
    app.handle(Event::Paste("three".into()));
    assert_eq!(app.query.text(), "one two");
}

#[test]
fn a_chord_does_not_type_but_altgr_does() {
    let mut app = App::new(true, 3);
    press(&mut app, KeyCode::Char('x'), Modifiers::control());
    assert_eq!(app.query.text(), "");
    press(&mut app, KeyCode::Char('@'), Modifiers::control().with(Modifiers::alt()));
    assert_eq!(app.query.text(), "@");
    typed(&mut app, " two words");
    press(&mut app, KeyCode::Char('w'), Modifiers::control());
    assert_eq!(app.query.text(), "@ two ");
    press(&mut app, KeyCode::Char('a'), Modifiers::control());
    press(&mut app, KeyCode::Char('k'), Modifiers::control());
    assert_eq!(app.query.text(), "");
}

#[test]
fn the_spinner_turns_on_each_tick() {
    let mut app = App::new(true, 3);
    app.handle(Event::Tick);
    app.handle(Event::Tick);
    assert_eq!(app.spinner, 2);
    assert_eq!(waiting_text(0, 0), "⠋ Thinking…");
    assert_eq!(waiting_text(9, 12), "⠙ Thinking… (12s)");
}

#[test]
fn each_screen_has_its_hints() {
    assert_eq!(hints(&Screen::Editing, true), "Enter send · Esc quit");
    assert_eq!(hints(&Screen::Waiting, true), "Esc cancel");
    assert!(hints(&Screen::Choosing { selected: 0 }, true).contains("Tab to edit"));
    assert!(hints(&Screen::Choosing { selected: 0 }, false).contains("Tab to copy"));
    assert!(!hints(&Screen::Choosing { selected: 0 }, false).contains("Ctrl+C"));
}

#[test]
fn the_list_lines_are_numbered_from_one() {
    assert_eq!(choice_prefix(0, true), "❯ 1  ");
    assert_eq!(choice_prefix(4, false), "  5  ");
    assert_eq!(explanation_line(""), None);
    assert_eq!(explanation_line("disks").as_deref(), Some("     disks"));
}

#[test]
fn the_cursor_stays_inside_the_query_box() {
    assert_eq!(query_cursor_column(0, 40, 5), 6);
    assert_eq!(query_cursor_column(2, 10, 8), 10);
    assert_eq!(query_cursor_column(0, 0, 0), 0);
}
