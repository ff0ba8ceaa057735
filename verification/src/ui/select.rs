//! The inline suggestion picker: the list is drawn right under the prompt,
//! with no alternate screen. This module holds what the picker decides and
//! the lines it draws; reading keys and writing to the terminal stay outside.

use vstd::prelude::*;
use crate::text::{chars_of, decimal, push_char, push_decimal, string_of, sub_vec};
use crate::ui::{digit_index, digit_pick, Key, KeyCode, Outcome};

verus! {

/// What a key press does to the picker.
#[derive(Debug, Clone, Copy, PartialEq, Eq, Structural)]
pub enum PickerStep {
    /// Keep picking, with this suggestion highlighted
    Stay(usize),
    /// The choice is made
    Done(Outcome),
}

/// What to do with the chosen suggestion when Tab (or `e`) is pressed: insert
/// it into the prompt buffer where the shell supports that, copy it otherwise.
pub open spec fn tab_outcome(selected: usize, buffer_supported: bool) -> Outcome {
    if buffer_supported {
        Outcome::Buffer(selected)
    } else {
        Outcome::Copy(selected)
    }
}

/// The suggestion above, wrapping around to the last one.
pub open spec fn above(selected: nat, total: nat) -> nat {
    if selected == 0 {
        (total - 1) as nat
    } else {
        (selected - 1) as nat
    }
}

/// The suggestion below, wrapping around to the first one.
pub open spec fn below(selected: nat, total: nat) -> nat {
    (selected + 1) % total
}

/// What the picker does with a key, with `selected` highlighted among
/// `total` suggestions.
///
/// Ctrl+C and Ctrl+D cancel; a plain `c` copies. A digit picks and runs at
/// once — the fast path the whole tool exists for.
pub open spec fn picker_step(selected: usize, total: usize, key: Key, buffer_supported: bool) -> PickerStep {
    let ctrl = key.modifiers.control;
    let code = key.code;
    if ctrl && (code == KeyCode::Char('c') || code == KeyCode::Char('d')) {
        PickerStep::Done(Outcome::Cancel)
    } else if code == KeyCode::Esc || code == KeyCode::Char('q') {
        PickerStep::Done(Outcome::Cancel)
    } else if code == KeyCode::Char('c') {
        PickerStep::Done(Outcome::Copy(selected))
    } else if code == KeyCode::Enter {
        PickerStep::Done(Outcome::Run(selected))
    } else if code == KeyCode::Tab || code == KeyCode::Char('e') {
        PickerStep::Done(tab_outcome(selected, buffer_supported))
    } else if code == KeyCode::Up || code == KeyCode::Char('k') {
        PickerStep::Stay(above(selected as nat, total as nat) as usize)
    } else if code == KeyCode::Down || code == KeyCode::Char('j') {
        PickerStep::Stay(below(selected as nat, total as nat) as usize)
    } else {
        match code {
            KeyCode::Char(c) => match digit_index(c) {
                Some(i) => if i < total {
                    PickerStep::Done(Outcome::Run(i as usize))
                } else {
                    PickerStep::Stay(selected)
                },
                None => PickerStep::Stay(selected),
            },
            _ => PickerStep::Stay(selected),
        }
    }
}

/// The index an outcome refers to, if it refers to one.
pub open spec fn outcome_index(o: Outcome) -> Option<usize> {
    match o {
        Outcome::Run(i) => Some(i),
        Outcome::Buffer(i) => Some(i),
        Outcome::Copy(i) => Some(i),
        _ => None,
    }
}

/// What the picker does with a key press.
pub fn picker_key(selected: usize, total: usize, key: Key, buffer_supported: bool) -> (r: PickerStep)
    requires
        selected < total,
    ensures
        r == picker_step(selected, total, key, buffer_supported),
        r matches PickerStep::Stay(s) ==> s < total,
        r matches PickerStep::Done(o) ==> (outcome_index(o) matches Some(i) ==> i < total),
{
    let ctrl = key.modifiers.control;
    match key.code {
        KeyCode::Char(c) => {
            if ctrl && (c == 'c' || c == 'd') {
                return PickerStep::Done(Outcome::Cancel);
            }
            if c == 'q' {
                return PickerStep::Done(Outcome::Cancel);
            }
            if c == 'c' {
                return PickerStep::Done(Outcome::Copy(selected));
            }
            if c == 'e' {
                return PickerStep::Done(
                    if buffer_supported {
                        Outcome::Buffer(selected)
                    } else {
                        Outcome::Copy(selected)
                    },
                );
            }
            if c == 'k' {
                return PickerStep::Stay(if selected == 0 { total - 1 } else { selected - 1 });
            }
            if c == 'j' {
                return PickerStep::Stay((selected + 1) % total);
            }
            match digit_pick(c) {
                Some(i) => {
                    if i < total {
                        PickerStep::Done(Outcome::Run(i))
                    } else {
                        PickerStep::Stay(selected)
                    }
                },
                None => PickerStep::Stay(selected),
            }
        },
        KeyCode::Esc => PickerStep::Done(Outcome::Cancel),
        KeyCode::Enter => PickerStep::Done(Outcome::Run(selected)),
        KeyCode::Tab => PickerStep::Done(
            if buffer_supported {
                Outcome::Buffer(selected)
            } else {
                Outcome::Copy(selected)
            },
        ),
        KeyCode::Up => PickerStep::Stay(if selected == 0 { total - 1 } else { selected - 1 }),
        KeyCode::Down => PickerStep::Stay((selected + 1) % total),
        _ => PickerStep::Stay(selected),
    }
}

/// Moving down undoes moving up, and moving up undoes moving down.
pub proof fn lemma_up_and_down_undo_each_other(selected: nat, total: nat)
    requires
        selected < total,
    ensures
        below(above(selected, total), total) == selected,
        above(below(selected, total), total) == selected,
        above(selected, total) < total,
        below(selected, total) < total,
{
    if selected + 1 == total {
        assert((selected + 1) % total == 0) by (nonlinear_arith)
            requires
                selected + 1 == total,
        ;
    } else {
        assert((selected + 1) % total == selected + 1) by (nonlinear_arith)
            requires
                selected + 1 < total,
        ;
    }
    if selected == 0 {
        assert(((total - 1) + 1) % (total as int) == 0) by (nonlinear_arith)
            requires
                total > 0,
        ;
    } else {
        assert(((selected - 1) + 1) % (total as int) == selected) by (nonlinear_arith)
            requires
                0 < selected < total,
        ;
    }
}

/// Whatever key is pressed, the picker keeps a highlighted suggestion that
/// exists and only ever returns the index of one.
pub proof fn lemma_picker_stays_in_range(selected: usize, total: usize, key: Key, buffer_supported: bool)
    requires
        selected < total,
    ensures
        picker_step(selected, total, key, buffer_supported) matches PickerStep::Stay(s) ==> s < total,
        picker_step(selected, total, key, buffer_supported) matches PickerStep::Done(o) ==> (
        outcome_index(o) matches Some(i) ==> i < total),
{
    lemma_up_and_down_undo_each_other(selected as nat, total as nat);
}

/// What the picker settles before it reads a key: an empty list cancels, and
/// without a terminal the list is printed and nothing is picked.
pub open spec fn settled_before_picking(count: nat, interactive: bool) -> Option<Outcome> {
    if count == 0 {
        Some(Outcome::Cancel)
    } else if !interactive {
        Some(Outcome::Listed)
    } else {
        None
    }
}

/// The outcome that needs no key press, if there is one.
///
/// An empty list is a cancellation: nothing was printed, so nothing was
/// delivered. With no terminal to pick with, the list is printed and that is
/// the whole run: `plz "task" > file` did exactly what was asked.
pub fn before_picking(count: usize, interactive: bool) -> (r: Option<Outcome>)
    ensures
        r == settled_before_picking(count as nat, interactive),
{
    if count == 0 {
        Some(Outcome::Cancel)
    } else if !interactive {
        Some(Outcome::Listed)
    } else {
        None
    }
}

/// The text cut to `max` characters, the last of them an ellipsis when it
/// does not fit.
pub open spec fn fitted(text: Seq<char>, max: nat) -> Seq<char> {
    if max == 0 {
        Seq::empty()
    } else if text.len() <= max {
        text
    } else {
        text.take(max - 1).push('…')
    }
}

/// Truncate a string to the terminal's visible width.
///
/// Counted in characters, not bytes: non-ASCII explanations would otherwise be
/// cut far too early.
pub fn truncate(text: &str, max: usize) -> (r: String)
    ensures
        r@ == fitted(text@, max as nat),
        r@.len() <= max,
{
    if max == 0 {
        return String::new();
    }
    let chars = chars_of(text);
    if chars.len() <= max {
        return string_of(&chars);
    }
    let mut cut = sub_vec(&chars, 0, max - 1);
    cut.push('…');
    assert(cut@ =~= text@.take(max - 1).push('…'));
    string_of(&cut)
}

/// The marker in front of the highlighted suggestion.
pub open spec fn marker(highlighted: bool) -> Seq<char> {
    if highlighted {
        seq!['❯']
    } else {
        seq![' ']
    }
}

/// A line of the picker's list: marker, number, then the command cut to the
/// width left beside them.
pub open spec fn picker_row_text(index: nat, highlighted: bool, command: Seq<char>, width: nat) -> Seq<
    char,
> {
    marker(highlighted) + seq![' '] + decimal(index + 1) + seq![' ', ' '] + fitted(
        command,
        if width >= 6 {
            (width - 6) as nat
        } else {
            0
        },
    )
}

/// The list line for the suggestion at `index`.
pub fn picker_row(index: usize, highlighted: bool, command: &str, width: usize) -> (r: String)
    requires
        index < usize::MAX,
    ensures
        r@ == picker_row_text(index as nat, highlighted, command@, width as nat),
{
    let mut line = String::new();
    push_char(&mut line, if highlighted { '❯' } else { ' ' });
    push_char(&mut line, ' ');
    push_decimal(&mut line, (index + 1) as u64);
    push_char(&mut line, ' ');
    push_char(&mut line, ' ');
    let room: usize = if width >= 6 { width - 6 } else { 0 };
    let shown = truncate(command, room);
    line.append(shown.as_str());
    assert(line@ =~= picker_row_text(index as nat, highlighted, command@, width as nat));
    line
}

/// A footer line under the list: indented by two, cut to the width that
/// leaves.
pub open spec fn footer_text(text: Seq<char>, width: nat) -> Seq<char> {
    seq![' ', ' '] + fitted(
        text,
        if width >= 3 {
            (width - 3) as nat
        } else {
            0
        },
    )
}

/// The footer line for an explanation or the key hints.
pub fn footer_line(text: &str, width: usize) -> (r: String)
    ensures
        r@ == footer_text(text@, width as nat),
{
    let mut line = String::new();
    push_char(&mut line, ' ');
    push_char(&mut line, ' ');
    let room: usize = if width >= 3 { width - 3 } else { 0 };
    let shown = truncate(text, room);
    line.append(shown.as_str());
    assert(line@ =~= footer_text(text@, width as nat));
    line
}

/// The catalogue message naming what Tab does: edit where the shell takes a
/// command into its prompt buffer, copy elsewhere.
pub fn tab_hint_key(buffer_supported: bool) -> (r: &'static str)
    ensures
        r == (if buffer_supported {
            "tui.tab_to_edit"
        } else {
            "tui.tab_to_copy"
        }),
{
    if buffer_supported {
        "tui.tab_to_edit"
    } else {
        "tui.tab_to_copy"
    }
}

} // verus!
