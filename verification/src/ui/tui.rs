//! Full-screen interactive mode: running `plz` with no arguments.
//!
//! The mode is a state machine. Each event — a key, a paste, the reply to a
//! request, a tick of the spinner — moves it to its next state and tells the
//! caller what to do: keep going, finish with an outcome, or send a request.
//! Reading the terminal, drawing and talking to the model happen outside.

use vstd::prelude::*;
use crate::suggestion::Suggestion;
use crate::text::{decimal, push_char, push_decimal, trim};
use crate::ui::editor::{
    after_backspace, after_delete, after_insert, pasted, word_end, word_start, LineEditor,
};
use crate::ui::select::{marker, picker_key, picker_step, outcome_index, PickerStep};
use crate::ui::{types_text, is_text, Key, KeyCode, Outcome};

verus! {

/// What the interactive mode produced.
pub struct Session {
    pub outcome: Outcome,
    pub suggestions: Vec<Suggestion>,
}

/// What is currently on screen.
pub enum Screen {
    /// Typing the query
    Editing,
    /// Request sent, waiting for a reply
    Waiting,
    /// Suggestions arrived
    Choosing { selected: usize },
    /// The request failed; the error is shown without leaving the mode
    Failed { message: String },
}

/// Something that happened while the mode runs.
pub enum Event {
    /// A key was pressed
    Key(Key),
    /// Text was pasted in one piece
    Paste(String),
    /// The request came back: the suggestions, or the error to show
    Reply(Result<Vec<Suggestion>, String>),
    /// The request was lost before it could answer
    ReplyLost,
    /// Time passed with nothing else happening
    Tick,
}

/// What the caller has to do after an event.
pub enum Action {
    /// Keep going
    Continue,
    /// Leave the mode with this outcome
    Finish(Outcome),
    /// Send this query to the model; its reply comes back as `Event::Reply`
    Request(String),
}

/// A change to the query that a key asks for.
#[derive(Debug, Clone, Copy, PartialEq, Eq, Structural)]
pub enum Edit {
    Insert(char),
    Backspace,
    Delete,
    Left,
    Right,
    Home,
    End,
    WordLeft,
    WordRight,
    DeleteWordBack,
    KillToStart,
    KillToEnd,
}

/// What a key means while the query is being typed.
#[derive(Debug, Clone, Copy, PartialEq, Eq, Structural)]
pub enum EditingCommand {
    Cancel,
    Send,
    Edit(Edit),
    Nothing,
}

/// What a key means while the query is typed, given whether the query is
/// blank.
///
/// Terminals disagree about which movement keys they send at all —
/// Terminal.app has no Ctrl+arrows, a bare console has no Alt — so every
/// movement answers to several keys, with the Ctrl+letter pair as the one that
/// works everywhere. A letter chord is Ctrl alone: Ctrl+Alt is how AltGr
/// arrives, and that is someone typing a character.
pub open spec fn editing_command(key: Key, blank: bool) -> EditingCommand {
    let ctrl = key.modifiers.control;
    let alt = key.modifiers.alt;
    let chord = ctrl && !alt;
    let code = key.code;
    if code == KeyCode::Esc {
        EditingCommand::Cancel
    } else if chord && (code == KeyCode::Char('c') || code == KeyCode::Char('d')) {
        EditingCommand::Cancel
    } else if code == KeyCode::Enter && !blank {
        EditingCommand::Send
    } else if code == KeyCode::Left && (ctrl || alt) {
        EditingCommand::Edit(Edit::WordLeft)
    } else if code == KeyCode::Right && (ctrl || alt) {
        EditingCommand::Edit(Edit::WordRight)
    } else if code == KeyCode::Char('b') && alt {
        EditingCommand::Edit(Edit::WordLeft)
    } else if code == KeyCode::Char('f') && alt {
        EditingCommand::Edit(Edit::WordRight)
    } else if code == KeyCode::Left {
        EditingCommand::Edit(Edit::Left)
    } else if code == KeyCode::Right {
        EditingCommand::Edit(Edit::Right)
    } else if code == KeyCode::Home {
        EditingCommand::Edit(Edit::Home)
    } else if code == KeyCode::End {
        EditingCommand::Edit(Edit::End)
    } else if code == KeyCode::Char('a') && chord {
        EditingCommand::Edit(Edit::Home)
    } else if code == KeyCode::Char('e') && chord {
        EditingCommand::Edit(Edit::End)
    } else if code == KeyCode::Backspace && (ctrl || alt) {
        EditingCommand::Edit(Edit::DeleteWordBack)
    } else if code == KeyCode::Char('w') && chord {
        EditingCommand::Edit(Edit::DeleteWordBack)
    } else if code == KeyCode::Char('u') && chord {
        EditingCommand::Edit(Edit::KillToStart)
    } else if code == KeyCode::Char('k') && chord {
        EditingCommand::Edit(Edit::KillToEnd)
    } else if code == KeyCode::Backspace {
        EditingCommand::Edit(Edit::Backspace)
    } else if code == KeyCode::Delete {
        EditingCommand::Edit(Edit::Delete)
    } else {
        match code {
            KeyCode::Char(c) => if types_text(key.modifiers) {
                EditingCommand::Edit(Edit::Insert(c))
            } else {
                EditingCommand::Nothing
            },
            _ => EditingCommand::Nothing,
        }
    }
}

/// What a key means while the query is typed.
pub fn editing_key(key: Key, blank: bool) -> (r: EditingCommand)
    ensures
        r == editing_command(key, blank),
{
    let ctrl = key.modifiers.control;
    let alt = key.modifiers.alt;
    let chord = ctrl && !alt;
    match key.code {
        KeyCode::Esc => EditingCommand::Cancel,
        KeyCode::Enter => if !blank {
            EditingCommand::Send
        } else {
            EditingCommand::Nothing
        },
        KeyCode::Left => if ctrl || alt {
            EditingCommand::Edit(Edit::WordLeft)
        } else {
            EditingCommand::Edit(Edit::Left)
        },
        KeyCode::Right => if ctrl || alt {
            EditingCommand::Edit(Edit::WordRight)
        } else {
            EditingCommand::Edit(Edit::Right)
        },
        KeyCode::Home => EditingCommand::Edit(Edit::Home),
        KeyCode::End => EditingCommand::Edit(Edit::End),
        KeyCode::Backspace => if ctrl || alt {
            EditingCommand::Edit(Edit::DeleteWordBack)
        } else {
            EditingCommand::Edit(Edit::Backspace)
        },
        KeyCode::Delete => EditingCommand::Edit(Edit::Delete),
        KeyCode::Char(c) => {
            if chord && (c == 'c' || c == 'd') {
                EditingCommand::Cancel
            } else if c == 'b' && alt {
                EditingCommand::Edit(Edit::WordLeft)
            } else if c == 'f' && alt {
                EditingCommand::Edit(Edit::WordRight)
            } else if c == 'a' && chord {
                EditingCommand::Edit(Edit::Home)
            } else if c == 'e' && chord {
                EditingCommand::Edit(Edit::End)
            } else if c == 'w' && chord {
                EditingCommand::Edit(Edit::DeleteWordBack)
            } else if c == 'u' && chord {
                EditingCommand::Edit(Edit::KillToStart)
            } else if c == 'k' && chord {
                EditingCommand::Edit(Edit::KillToEnd)
            } else if is_text(key.modifiers) {
                EditingCommand::Edit(Edit::Insert(c))
            } else {
                EditingCommand::Nothing
            }
        },
        _ => EditingCommand::Nothing,
    }
}

/// The query (text, cursor, window offset) after an edit.
pub open spec fn edit_result(v: (Seq<char>, nat, nat), e: Edit) -> (Seq<char>, nat, nat) {
    let (t, k, o) = v;
    match e {
        Edit::Insert(c) => (after_insert(t, k, c).0, after_insert(t, k, c).1, o),
        Edit::Backspace => (after_backspace(t, k).0, after_backspace(t, k).1, o),
        Edit::Delete => (after_delete(t, k), k, o),
        Edit::Left => (t, if k > 0 { (k - 1) as nat } else { 0nat }, o),
        Edit::Right => (t, if k < t.len() { k + 1 } else { t.len() }, o),
        Edit::Home => (t, 0nat, o),
        Edit::End => (t, t.len(), o),
        Edit::WordLeft => (t, word_start(t, k) as nat, o),
        Edit::WordRight => (t, word_end(t, k) as nat, o),
        Edit::DeleteWordBack => (
            t.subrange(0, word_start(t, k)) + t.subrange(k as int, t.len() as int),
            word_start(t, k) as nat,
            o,
        ),
        Edit::KillToStart => (t.subrange(k as int, t.len() as int), 0nat, o),
        Edit::KillToEnd => (t.subrange(0, k as int), k, o),
    }
}

/// Applies an edit to the query.
pub fn apply_edit(query: &mut LineEditor, e: Edit)
    ensures
        final(query)@ == edit_result(old(query)@, e),
{
    match e {
        Edit::Insert(c) => query.insert_char(c),
        Edit::Backspace => query.backspace(),
        Edit::Delete => query.delete(),
        Edit::Left => query.left(),
        Edit::Right => query.right(),
        Edit::Home => query.home(),
        Edit::End => query.end(),
        Edit::WordLeft => query.word_left(),
        Edit::WordRight => query.word_right(),
        Edit::DeleteWordBack => query.delete_word_back(),
        Edit::KillToStart => query.kill_to_start(),
        Edit::KillToEnd => query.kill_to_end(),
    }
}

/// The query after a paste: the pasted text goes in at the cursor.
pub open spec fn paste_result(v: (Seq<char>, nat, nat), s: Seq<char>) -> (Seq<char>, nat, nat) {
    (
        v.0.subrange(0, v.1 as int) + pasted(s) + v.0.subrange(v.1 as int, v.0.len() as int),
        v.1 + pasted(s).len(),
        v.2,
    )
}

/// The screen as the specification sees it.
pub enum ScreenView {
    Editing,
    Waiting,
    Choosing(usize),
    Failed(Seq<char>),
}

pub open spec fn screen_view(s: Screen) -> ScreenView {
    match s {
        Screen::Editing => ScreenView::Editing,
        Screen::Waiting => ScreenView::Waiting,
        Screen::Choosing { selected } => ScreenView::Choosing(selected),
        Screen::Failed { message } => ScreenView::Failed(message@),
    }
}

/// The state of the mode as the specification sees it.
pub struct AppView {
    pub query: (Seq<char>, nat, nat),
    pub screen: ScreenView,
    pub suggestions: Seq<Suggestion>,
    pub spinner: usize,
    pub buffer_supported: bool,
    pub count: usize,
}

/// An action as the specification sees it.
pub enum ActionView {
    Continue,
    Finish(Outcome),
    Request(Seq<char>),
}

pub open spec fn action_view(a: Action) -> ActionView {
    match a {
        Action::Continue => ActionView::Continue,
        Action::Finish(o) => ActionView::Finish(o),
        Action::Request(q) => ActionView::Request(q@),
    }
}

pub const NO_SUGGESTIONS: &'static str = "The model returned no suggestions.";

pub const REQUEST_LOST: &'static str = "the background request was interrupted";

/// Whether a key cancels from the waiting and failed screens: Esc, or
/// Ctrl+C / Ctrl+D.
pub open spec fn cancels(key: Key) -> bool {
    key.code == KeyCode::Esc || (key.modifiers.control && (key.code == KeyCode::Char('c')
        || key.code == KeyCode::Char('d')))
}

/// The next state and the action for an event.
pub open spec fn transition(m: AppView, e: Event) -> (AppView, ActionView) {
    match e {
        Event::Tick => (
            AppView { spinner: (if m.spinner == usize::MAX { 0 } else { m.spinner + 1 }) as usize, ..m },
            ActionView::Continue,
        ),
        Event::Paste(text) => match m.screen {
            ScreenView::Editing => (
                AppView { query: paste_result(m.query, text@), ..m },
                ActionView::Continue,
            ),
            _ => (m, ActionView::Continue),
        },
        Event::Reply(reply) => match m.screen {
            ScreenView::Waiting => match reply {
                Ok(v) => if v@.len() == 0 {
                    (AppView { screen: ScreenView::Failed(NO_SUGGESTIONS@), ..m }, ActionView::Continue)
                } else {
                    (
                        AppView { screen: ScreenView::Choosing(0), suggestions: v@, ..m },
                        ActionView::Continue,
                    )
                },
                Err(message) => (
                    AppView { screen: ScreenView::Failed(message@), ..m },
                    ActionView::Continue,
                ),
            },
            _ => (m, ActionView::Continue),
        },
        Event::ReplyLost => match m.screen {
            ScreenView::Waiting => (
                AppView { screen: ScreenView::Failed(REQUEST_LOST@), ..m },
                ActionView::Continue,
            ),
            _ => (m, ActionView::Continue),
        },
        Event::Key(key) => key_transition(m, key),
    }
}

/// The next state and the action for a key press.
pub open spec fn key_transition(m: AppView, key: Key) -> (AppView, ActionView) {
    let ctrl = key.modifiers.control;
    match m.screen {
        ScreenView::Editing => match editing_command(key, trim(m.query.0).len() == 0) {
            EditingCommand::Cancel => (m, ActionView::Finish(Outcome::Cancel)),
            EditingCommand::Send => (
                AppView { screen: ScreenView::Waiting, ..m },
                ActionView::Request(trim(m.query.0)),
            ),
            EditingCommand::Edit(e) => (
                AppView { query: edit_result(m.query, e), ..m },
                ActionView::Continue,
            ),
            EditingCommand::Nothing => (m, ActionView::Continue),
        },
        ScreenView::Waiting => if cancels(key) {
            (m, ActionView::Finish(Outcome::Cancel))
        } else {
            (m, ActionView::Continue)
        },
        ScreenView::Failed(_) => if cancels(key) {
            (m, ActionView::Finish(Outcome::Cancel))
        } else {
            (AppView { screen: ScreenView::Editing, ..m }, ActionView::Continue)
        },
        ScreenView::Choosing(selected) => if ctrl && key.code == KeyCode::Char('n') {
            (
                AppView {
                    query: (Seq::empty(), 0nat, 0nat),
                    suggestions: Seq::empty(),
                    screen: ScreenView::Editing,
                    ..m
                },
                ActionView::Continue,
            )
        } else if ctrl && key.code == KeyCode::Char('r') {
            (AppView { screen: ScreenView::Waiting, ..m }, ActionView::Request(trim(m.query.0)))
        } else {
            match picker_step(selected, m.suggestions.len() as usize, key, m.buffer_supported) {
                PickerStep::Stay(s) => (
                    AppView { screen: ScreenView::Choosing(s), ..m },
                    ActionView::Continue,
                ),
                PickerStep::Done(o) => (m, ActionView::Finish(o)),
            }
        },
    }
}

/// The state of the full-screen mode.
pub struct App {
    pub query: LineEditor,
    pub screen: Screen,
    pub suggestions: Vec<Suggestion>,
    pub spinner: usize,
    pub buffer_supported: bool,
    pub count: usize,
}

impl App {
    /// The state as the specification sees it.
    pub open spec fn model(&self) -> AppView {
        AppView {
            query: self.query@,
            screen: screen_view(self.screen),
            suggestions: self.suggestions@,
            spinner: self.spinner,
            buffer_supported: self.buffer_supported,
            count: self.count,
        }
    }

    /// While choosing, the highlighted suggestion exists.
    pub open spec fn valid(&self) -> bool {
        valid_view(self.model())
    }

    /// A fresh session: an empty query being typed.
    pub fn new(buffer_supported: bool, count: usize) -> (r: App)
        ensures
            r.model() == (AppView {
                query: (Seq::empty(), 0nat, 0nat),
                screen: ScreenView::Editing,
                suggestions: Seq::empty(),
                spinner: 0,
                buffer_supported,
                count,
            }),
            r.valid(),
    {
        let app = App {
            query: LineEditor::default(),
            screen: Screen::Editing,
            suggestions: Vec::new(),
            spinner: 0,
            buffer_supported,
            count,
        };
        assert(app.suggestions@ =~= Seq::<Suggestion>::empty());
        app
    }

    /// Moves the mode on by one event and says what the caller must do.
    pub fn handle(&mut self, event: Event) -> (r: Action)
        requires
            old(self).valid(),
        ensures
            (final(self).model(), action_view(r)) == transition(old(self).model(), event),
            final(self).valid(),
    {
        match event {
            Event::Tick => {
                self.spinner = self.spinner.wrapping_add(1);
                Action::Continue
            },
            Event::Paste(text) => {
                if let Screen::Editing = self.screen {
                    self.query.insert_str(text.as_str());
                }
                Action::Continue
            },
            Event::Reply(reply) => {
                if let Screen::Waiting = self.screen {
                    match reply {
                        Ok(v) => {
                            if v.len() == 0 {
                                self.screen = Screen::Failed { message: String::from_str(NO_SUGGESTIONS) };
                            } else {
                                self.suggestions = v;
                                self.screen = Screen::Choosing { selected: 0 };
                            }
                        },
                        Err(message) => {
                            self.screen = Screen::Failed { message };
                        },
                    }
                }
                Action::Continue
            },
            Event::ReplyLost => {
                if let Screen::Waiting = self.screen {
                    self.screen = Screen::Failed { message: String::from_str(REQUEST_LOST) };
                }
                Action::Continue
            },
            Event::Key(key) => self.handle_key(key),
        }
    }

    fn handle_key(&mut self, key: Key) -> (r: Action)
        requires
            old(self).valid(),
        ensures
            (final(self).model(), action_view(r)) == key_transition(old(self).model(), key),
            final(self).valid(),
    {
        let ctrl = key.modifiers.control;
        match self.screen {
            Screen::Editing => {
                match editing_key(key, self.query.is_blank()) {
                    EditingCommand::Cancel => Action::Finish(Outcome::Cancel),
                    EditingCommand::Send => {
                        self.screen = Screen::Waiting;
                        Action::Request(trimmed_query(&self.query))
                    },
                    EditingCommand::Edit(e) => {
                        apply_edit(&mut self.query, e);
                        Action::Continue
                    },
                    EditingCommand::Nothing => Action::Continue,
                }
            },
            Screen::Waiting => {
                if is_cancel(key) {
                    Action::Finish(Outcome::Cancel)
                } else {
                    Action::Continue
                }
            },
            Screen::Failed { .. } => {
                if is_cancel(key) {
                    Action::Finish(Outcome::Cancel)
                } else {
                    self.screen = Screen::Editing;
                    Action::Continue
                }
            },
            Screen::Choosing { selected } => {
                if ctrl && key.code == KeyCode::Char('n') {
                    self.query.clear();
                    self.suggestions.clear();
                    self.screen = Screen::Editing;
                    Action::Continue
                } else if ctrl && key.code == KeyCode::Char('r') {
                    self.screen = Screen::Waiting;
                    Action::Request(trimmed_query(&self.query))
                } else {
                    match picker_key(selected, self.suggestions.len(), key, self.buffer_supported) {
                        PickerStep::Stay(s) => {
                            self.screen = Screen::Choosing { selected: s };
                            Action::Continue
                        },
                        PickerStep::Done(o) => Action::Finish(o),
                    }
                }
            },
        }
    }

    /// What the session produced, once the mode finishes with `outcome`.
    pub fn into_session(self, outcome: Outcome) -> (r: Session)
        ensures
            r.outcome == outcome,
            r.suggestions@ == self.suggestions@,
    {
        Session { outcome, suggestions: self.suggestions }
    }
}

/// While choosing, the highlighted suggestion exists.
pub open spec fn valid_view(m: AppView) -> bool {
    &&& m.suggestions.len() <= usize::MAX
    &&& m.screen matches ScreenView::Choosing(s) ==> s < m.suggestions.len()
}

/// Whether a key cancels from the waiting and failed screens.
fn is_cancel(key: Key) -> (r: bool)
    ensures
        r == cancels(key),
{
    match key.code {
        KeyCode::Esc => true,
        KeyCode::Char(c) => key.modifiers.control && (c == 'c' || c == 'd'),
        _ => false,
    }
}

/// The query as it is sent: trimmed.
fn trimmed_query(query: &LineEditor) -> (r: String)
    ensures
        r@ == trim(query@.0),
{
    let t = crate::text::trim_ws(&crate::text::chars_of(query.text()));
    crate::text::string_of(&t)
}

/// Every outcome the mode finishes with names a suggestion that exists, and
/// every state it moves to keeps the highlighted suggestion in range.
pub proof fn lemma_outcomes_name_existing_suggestions(m: AppView, e: Event)
    requires
        valid_view(m),
    ensures
        valid_view(transition(m, e).0),
        transition(m, e).1 matches ActionView::Finish(o) ==> (outcome_index(o) matches Some(i)
            ==> i < transition(m, e).0.suggestions.len()),
{
    match m.screen {
        ScreenView::Choosing(selected) => {
            crate::ui::select::lemma_picker_stays_in_range(
                selected,
                m.suggestions.len() as usize,
                match e {
                    Event::Key(k) => k,
                    _ => Key { code: KeyCode::Other, modifiers: crate::ui::Modifiers { shift: false, control: false, alt: false } },
                },
                m.buffer_supported,
            );
        },
        _ => {
            if let Event::Reply(Ok(v)) = e {
                assert(v@.len() == v.len());
            }
        },
    }
}

/// Esc leaves the mode from every screen, as does Ctrl+C held without Alt.
pub proof fn lemma_escape_always_cancels(m: AppView, key: Key)
    requires
        key.code == KeyCode::Esc || (key.code == KeyCode::Char('c') && key.modifiers.control
            && !key.modifiers.alt),
    ensures
        key_transition(m, key).1 == ActionView::Finish(Outcome::Cancel),
        key_transition(m, key).0 == m,
{
}

/// The line-editing chords while the query is typed (Control held, Alt not):
/// Ctrl+U deletes everything before the cursor and leaves the cursor at the
/// start, Ctrl+K deletes everything from the cursor on, Ctrl+A and Ctrl+E
/// move to the start and to the end; none of them sends or leaves the mode.
pub proof fn lemma_line_editing_chords(m: AppView, letter: char, shift: bool)
    requires
        m.screen is Editing,
        m.query.1 <= m.query.0.len(),
        letter == 'u' || letter == 'k' || letter == 'a' || letter == 'e',
    ensures
        ({
            let key = Key {
                code: KeyCode::Char(letter),
                modifiers: crate::ui::Modifiers { shift: shift, control: true, alt: false },
            };
            let (next, action) = key_transition(m, key);
            let (t, k) = (m.query.0, m.query.1 as int);
            &&& action == ActionView::Continue
            &&& next.screen == m.screen
            &&& next.suggestions == m.suggestions
            &&& (letter == 'u' ==> next.query.0 == t.subrange(k, t.len() as int) && next.query.1 == 0)
            &&& (letter == 'k' ==> next.query.0 == t.subrange(0, k) && next.query.1 == k)
            &&& (letter == 'a' ==> next.query.0 == t && next.query.1 == 0)
            &&& (letter == 'e' ==> next.query.0 == t && next.query.1 == t.len())
        }),
{
}

/// Ctrl+U and Ctrl+K split the line at the cursor: what Ctrl+U keeps and what
/// Ctrl+K keeps, put together, are the whole line.
pub proof fn lemma_kill_chords_split_the_line(m: AppView, shift: bool)
    requires
        m.screen is Editing,
        m.query.1 <= m.query.0.len(),
    ensures
        ({
            let u = Key {
                code: KeyCode::Char('u'),
                modifiers: crate::ui::Modifiers { shift: shift, control: true, alt: false },
            };
            let k = Key {
                code: KeyCode::Char('k'),
                modifiers: crate::ui::Modifiers { shift: shift, control: true, alt: false },
            };
            key_transition(m, k).0.query.0 + key_transition(m, u).0.query.0 == m.query.0
        }),
{
    lemma_line_editing_chords(m, 'u', shift);
    lemma_line_editing_chords(m, 'k', shift);
    let t = m.query.0;
    let c = m.query.1 as int;
    assert(t.subrange(0, c) + t.subrange(c, t.len() as int) =~= t);
}

/// Pasted text reaches the query only while it is being typed, and never
/// sends it: on the other screens every key is a command, and a paste changes
/// nothing. What is pasted stays on one line.
pub proof fn lemma_paste_only_edits_the_query(m: AppView, text: String)
    ensures
        transition(m, Event::Paste(text)).1 == ActionView::Continue,
        !(m.screen is Editing) ==> transition(m, Event::Paste(text)).0 == m,
        m.screen is Editing ==> transition(m, Event::Paste(text)).0.query == paste_result(m.query, text@),
        !pasted(text@).contains('\n'),
{
    crate::ui::editor::lemma_paste_is_one_line(text@);
}

// ---------------------------------------------------------------------------
// What the screens show
// ---------------------------------------------------------------------------

/// The spinner's frame for a tick count.
pub open spec fn spinner_frame(n: nat) -> char {
    seq!['⠋', '⠙', '⠹', '⠸', '⠼', '⠴', '⠦', '⠧'][(n % 8) as int]
}

fn frame_char(n: usize) -> (c: char)
    ensures
        c == spinner_frame(n as nat),
{
    match n % 8 {
        0 => '⠋',
        1 => '⠙',
        2 => '⠹',
        3 => '⠸',
        4 => '⠼',
        5 => '⠴',
        6 => '⠦',
        _ => '⠧',
    }
}

/// The waiting screen's text: the spinner, and the seconds waited once there
/// have been three.
pub open spec fn waiting_text_of(spinner: nat, seconds: nat) -> Seq<char> {
    seq![spinner_frame(spinner)] + " Thinking…"@ + (if seconds >= 3 {
        " ("@ + decimal(seconds) + "s)"@
    } else {
        Seq::empty()
    })
}

/// The waiting screen's text.
pub fn waiting_text(spinner: usize, seconds: u64) -> (r: String)
    ensures
        r@ == waiting_text_of(spinner as nat, seconds as nat),
{
    let mut text = String::new();
    push_char(&mut text, frame_char(spinner));
    text.append(" Thinking…");
    let ghost before = text@;
    if seconds >= 3 {
        text.append(" (");
        push_decimal(&mut text, seconds);
        text.append("s)");
    }
    assert(text@ =~= waiting_text_of(spinner as nat, seconds as nat));
    text
}

/// The key hints under each screen.
pub open spec fn hints_text(screen: ScreenView, buffer_supported: bool) -> Seq<char> {
    match screen {
        ScreenView::Editing => "Enter send · Esc quit"@,
        ScreenView::Waiting => "Esc cancel"@,
        ScreenView::Failed(_) => "Any key to edit the query · Esc quit"@,
        ScreenView::Choosing(_) => "1-9/↑↓ select · Enter run · "@ + (if buffer_supported {
            "Tab to edit"@
        } else {
            "Tab to copy"@
        }) + " · c copy · Ctrl+R retry · Ctrl+N new query · Esc quit"@,
    }
}

/// The key hints for the screen on show.
pub fn hints(screen: &Screen, buffer_supported: bool) -> (r: String)
    ensures
        r@ == hints_text(screen_view(*screen), buffer_supported),
{
    match screen {
        Screen::Editing => String::from_str("Enter send · Esc quit"),
        Screen::Waiting => String::from_str("Esc cancel"),
        Screen::Failed { .. } => String::from_str("Any key to edit the query · Esc quit"),
        Screen::Choosing { .. } => {
            let mut text = String::from_str("1-9/↑↓ select · Enter run · ");
            text.append(if buffer_supported { "Tab to edit" } else { "Tab to copy" });
            text.append(" · c copy · Ctrl+R retry · Ctrl+N new query · Esc quit");
            text
        },
    }
}

/// The number column of a suggestion in the list: marker, number, two spaces.
pub open spec fn choice_prefix_text(index: nat, highlighted: bool) -> Seq<char> {
    marker(highlighted) + seq![' '] + decimal(index + 1) + seq![' ', ' ']
}

/// The number column of the suggestion at `index`.
pub fn choice_prefix(index: usize, highlighted: bool) -> (r: String)
    requires
        index < usize::MAX,
    ensures
        r@ == choice_prefix_text(index as nat, highlighted),
{
    let mut text = String::new();
    push_char(&mut text, if highlighted { '❯' } else { ' ' });
    push_char(&mut text, ' ');
    push_decimal(&mut text, (index + 1) as u64);
    push_char(&mut text, ' ');
    push_char(&mut text, ' ');
    assert(text@ =~= choice_prefix_text(index as nat, highlighted));
    text
}

/// The line under a suggestion with its explanation, indented under the
/// command; none when there is no explanation.
pub fn explanation_line(explanation: &str) -> (r: Option<String>)
    ensures
        explanation@.len() == 0 ==> r is None,
        explanation@.len() > 0 ==> (r matches Some(line) && line@ == "     "@ + explanation@),
{
    let n = explanation.unicode_len();
    if n == 0 {
        None
    } else {
        let mut line = String::from_str("     ");
        line.append(explanation);
        Some(line)
    }
}

/// The width inside the query box's borders.
pub open spec fn inner_width(area_width: u16) -> nat {
    if area_width >= 2 {
        (area_width - 2) as nat
    } else {
        0
    }
}

/// Where the cursor goes in the query box: one column in from the box's left
/// edge (saturating) plus its offset in the visible text, never past the
/// box's last inner column.
pub open spec fn cursor_column(area_x: u16, area_width: u16, offset: u16) -> nat {
    let first = if area_x < u16::MAX { area_x + 1 } else { area_x as int };
    let last = area_x + inner_width(area_width);
    if first + offset <= last {
        (first + offset) as nat
    } else {
        last as nat
    }
}

/// The column of the cursor in the query box.
pub fn query_cursor_column(area_x: u16, area_width: u16, offset: u16) -> (r: u16)
    requires
        area_x + area_width <= u16::MAX,
        offset <= inner_width(area_width),
    ensures
        r == cursor_column(area_x, area_width, offset),
{
    let inner: u16 = if area_width >= 2 { area_width - 2 } else { 0 };
    let last_column = area_x + inner;
    let first: u16 = if area_x < u16::MAX { area_x + 1 } else { area_x };
    if offset == 0 {
        if first <= last_column { first } else { last_column }
    } else {
        let x = first + offset;
        if x <= last_column { x } else { last_column }
    }
}

} // verus!
