use plz::ui::editor::LineEditor;

/// An editor holding `text` with the cursor at its end, as if typed.
fn editor(text: &str) -> LineEditor {
    let mut editor = LineEditor::default();
    for c in text.chars() {
        editor.insert_char(c);
    }
    editor
}

#[test]
fn typing_goes_in_at_the_cursor() {
    let mut editor = editor("find files");
    editor.home();
    editor.insert_char('!');
    assert_eq!(editor.text(), "!find files");
    editor.end();
    editor.insert_char('?');
    assert_eq!(editor.text(), "!find files?");
}

#[test]
fn backspace_and_delete_work_on_both_sides_of_the_cursor() {
    let mut editor = editor("abcd");
    editor.left();
    editor.left();
    editor.backspace();
    assert_eq!(editor.text(), "acd");
    editor.delete();
    assert_eq!(editor.text(), "ad");
}

#[test]
fn the_cursor_stops_at_both_ends() {
    let mut editor = editor("ab");
    for _ in 0..5 {
        editor.left();
    }
    editor.backspace();
    assert_eq!(editor.text(), "ab", "backspace at the start deletes nothing");
    for _ in 0..5 {
        editor.right();
    }
    editor.delete();
    assert_eq!(editor.text(), "ab", "delete at the end deletes nothing");
}

#[test]
fn words_are_bounded_by_whitespace() {
    let mut editor = editor("покажи занятое место");
    editor.word_left();
    assert_eq!(editor.cursor(), 15, "start of «место»");
    editor.word_left();
    assert_eq!(editor.cursor(), 7, "start of «занятое»");
    editor.word_right();
    assert_eq!(editor.cursor(), 14, "end of «занятое»");
}

#[test]
fn deleting_a_word_takes_the_space_before_it() {
    let mut editor = editor("find the largest file");
    editor.delete_word_back();
    assert_eq!(editor.text(), "find the largest ");
    editor.delete_word_back();
    assert_eq!(editor.text(), "find the ");
}

#[test]
fn killing_to_the_start_leaves_the_tail() {
    let mut line = editor("занятое место");
    line.word_left();
    line.kill_to_start();
    assert_eq!(line.text(), "место");
    assert_eq!(line.cursor(), 0);
}

#[test]
fn killing_to_the_end_leaves_the_head() {
    let mut line = editor("занятое место");
    line.word_left();
    line.kill_to_end();
    assert_eq!(line.text(), "занятое ");
}

#[test]
fn a_short_query_is_shown_whole() {
    let (visible, cursor) = editor("find big files").visible(40);
    assert_eq!(visible, "find big files");
    assert_eq!(cursor, 14);
}

#[test]
fn a_long_query_scrolls_to_keep_the_end_in_view() {
    // Typing past the right edge used to leave the user writing blind.
    let (visible, cursor) = editor("abcdefghijklmnopqrstuvwxyz").visible(10);
    assert_eq!(visible, "rstuvwxyz");
    assert_eq!(visible.chars().count(), 9, "one column is left for the cursor");
    assert_eq!(cursor, 9);
}

#[test]
fn the_window_follows_the_cursor_back_to_the_start() {
    let mut editor = editor("abcdefghijklmnopqrstuvwxyz");
    editor.visible(10);
    editor.home();
    let (visible, cursor) = editor.visible(10);
    assert_eq!(visible, "abcdefghi");
    assert_eq!(cursor, 0);
}

#[test]
fn the_window_stays_put_while_the_cursor_moves_inside_it() {
    let mut editor = editor("abcdefghijklmnopqrstuvwxyz");
    let (before, _) = editor.visible(10);
    editor.left();
    let (after, cursor) = editor.visible(10);
    assert_eq!(before, after, "one step left must not scroll the text");
    assert_eq!(cursor, 8);
}

#[test]
fn the_cursor_never_leaves_the_box() {
    for width in 0..40u16 {
        let mut editor = editor("a rather long query indeed");
        editor.word_left();
        let (visible, cursor) = editor.visible(width);
        assert!(cursor <= width, "cursor {cursor} past width {width}");
        assert!(visible.chars().count() <= width as usize);
    }
}

#[test]
fn scrolling_counts_characters_not_bytes() {
    // Slicing these on bytes would both cut too much and panic mid-character.
    let (visible, cursor) = editor("покажи занятое место на диске").visible(10);
    assert_eq!(visible, " на диске");
    assert_eq!(cursor, 9);
}

#[test]
fn a_query_of_spaces_is_blank() {
    assert!(editor("   ").is_blank());
    assert!(!editor(" go ").is_blank());
}

#[test]
fn a_paste_goes_in_at_the_cursor_as_one_line() {
    let mut line = editor("ls ");
    line.insert_str("-la\r\n/tmp");
    assert_eq!(line.text(), "ls -la /tmp");
    assert_eq!(line.cursor(), 11);
}

#[test]
fn backspace_undoes_typing_a_character() {
    let mut line = editor("git stat");
    line.left();
    line.insert_char('x');
    line.backspace();
    assert_eq!(line.text(), "git stat");
    assert_eq!(line.cursor(), 7);
}

#[test]
fn clearing_empties_the_query() {
    let mut line = editor("something");
    line.clear();
    assert_eq!(line.text(), "");
    assert_eq!(line.cursor(), 0);
    assert!(line.is_blank());
}
