use plz::ui::select::{
    before_picking, footer_line, picker_key, picker_row, tab_hint_key, truncate, PickerStep,
};
use plz::ui::{Key, KeyCode, Modifiers, Outcome};

fn key(code: KeyCode) -> Key {
    Key { code, modifiers: Modifiers::none() }
}

fn ctrl(c: char) -> Key {
    Key { code: KeyCode::Char(c), modifiers: Modifiers::control() }
}

#[test]
fn truncate_keeps_short_text_intact() {
    assert_eq!(truncate("ls -la", 20), "ls -la");
}

#[test]
fn truncate_shortens_long_text_with_an_ellipsis() {
    let result = truncate("git log --oneline --graph --decorate --all", 12);
    assert_eq!(result.chars().count(), 12);
    assert!(result.ends_with('…'));
}

#[test]
fn truncate_counts_characters_not_bytes() {
    // These characters take more than one byte each; slicing on bytes would
    // both shorten the string too much and panic mid-character.
    let text = "afficher l'espace disque utilisé";
    let result = truncate(text, 10);
    assert_eq!(result.chars().count(), 10);
}

#[test]
fn truncate_handles_zero_width() {
    assert_eq!(truncate("anything at all", 0), "");
}

#[test]
fn hints_mention_the_actual_tab_behaviour() {
    assert_eq!(tab_hint_key(true), "tui.tab_to_edit");
    assert_eq!(tab_hint_key(false), "tui.tab_to_copy");
}

#[test]
fn empty_list_cancels_instead_of_hanging() {
    // Cancel rather than Listed: nothing was printed, so nothing was
    // delivered either, and callers must not treat it as a success.
    assert_eq!(before_picking(0, true), Some(Outcome::Cancel));
    assert_eq!(before_picking(0, false), Some(Outcome::Cancel));
}

#[test]
fn a_non_interactive_stderr_lists_instead_of_cancelling() {
    assert_eq!(before_picking(1, false), Some(Outcome::Listed));
    assert_eq!(before_picking(3, true), None);
}

#[test]
fn ctrl_c_cancels_and_a_plain_c_copies() {
    // The ctrl guard must stay above the plain 'c', which is the one that copies.
    assert_eq!(picker_key(1, 3, ctrl('c'), true), PickerStep::Done(Outcome::Cancel));
    assert_eq!(picker_key(1, 3, ctrl('d'), true), PickerStep::Done(Outcome::Cancel));
    assert_eq!(picker_key(1, 3, key(KeyCode::Char('c')), true), PickerStep::Done(Outcome::Copy(1)));
    assert_eq!(picker_key(1, 3, key(KeyCode::Esc), true), PickerStep::Done(Outcome::Cancel));
    assert_eq!(picker_key(1, 3, key(KeyCode::Char('q')), true), PickerStep::Done(Outcome::Cancel));
}

#[test]
fn tab_edits_where_the_shell_can_and_copies_elsewhere() {
    assert_eq!(picker_key(2, 3, key(KeyCode::Tab), true), PickerStep::Done(Outcome::Buffer(2)));
    assert_eq!(picker_key(2, 3, key(KeyCode::Tab), false), PickerStep::Done(Outcome::Copy(2)));
    assert_eq!(picker_key(0, 3, key(KeyCode::Char('e')), true), PickerStep::Done(Outcome::Buffer(0)));
    assert_eq!(picker_key(0, 3, key(KeyCode::Enter), true), PickerStep::Done(Outcome::Run(0)));
}

#[test]
fn the_selection_wraps_around_both_ends() {
    assert_eq!(picker_key(0, 3, key(KeyCode::Up), true), PickerStep::Stay(2));
    assert_eq!(picker_key(2, 3, key(KeyCode::Down), true), PickerStep::Stay(0));
    assert_eq!(picker_key(1, 3, key(KeyCode::Char('k')), true), PickerStep::Stay(0));
    assert_eq!(picker_key(1, 3, key(KeyCode::Char('j')), true), PickerStep::Stay(2));
    // Down then up comes back to where it started.
    for start in 0..3 {
        let PickerStep::Stay(down) = picker_key(start, 3, key(KeyCode::Down), true) else {
            panic!("moving stays in the picker")
        };
        assert_eq!(picker_key(down, 3, key(KeyCode::Up), true), PickerStep::Stay(start));
    }
}

#[test]
fn a_digit_runs_the_suggestion_it_names() {
    assert_eq!(picker_key(0, 3, key(KeyCode::Char('3')), true), PickerStep::Done(Outcome::Run(2)));
    // A digit past the list does nothing.
    assert_eq!(picker_key(0, 3, key(KeyCode::Char('4')), true), PickerStep::Stay(0));
    assert_eq!(picker_key(1, 3, key(KeyCode::Char('x')), true), PickerStep::Stay(1));
}

#[test]
fn a_row_shows_the_marker_the_number_and_the_command() {
    assert_eq!(picker_row(0, true, "ls -la", 80), "❯ 1  ls -la");
    assert_eq!(picker_row(11, false, "ls -la", 80), "  12  ls -la");
    assert_eq!(picker_row(0, false, "git log --oneline", 10), "  1  git…");
    assert_eq!(footer_line("list files", 8), "  list…");
}
