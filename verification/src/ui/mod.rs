//! The interactive parts: the query editor and the decisions behind the
//! picker and the full-screen mode. Drawing and reading keys stay outside.

pub mod editor;
pub mod select;
pub mod tui;

use vstd::prelude::*;

verus! {

/// What the user decided to do with the chosen suggestion.
#[derive(Debug, Clone, Copy, PartialEq, Eq, Structural)]
pub enum Outcome {
    /// Run the suggestion at this index
    Run(usize),
    /// Insert it into the shell's prompt buffer without running it
    Buffer(usize),
    /// Copy to the clipboard and exit
    Copy(usize),
    /// The suggestions were printed with no way to pick one, because there was
    /// no terminal to pick with. Nothing ran, but nothing failed either.
    Listed,
    /// Cancel: do nothing
    Cancel,
}

/// A key as the interactive parts see it, whatever terminal library read it.
#[derive(Debug, Clone, Copy, PartialEq, Eq, Structural)]
pub enum KeyCode {
    Char(char),
    Enter,
    Esc,
    Tab,
    Backspace,
    Delete,
    Left,
    Right,
    Up,
    Down,
    Home,
    End,
    /// Any key the interface has no use for
    Other,
}

/// The modifier keys held with a key.
#[derive(Debug, Clone, Copy, PartialEq, Eq, Structural)]
pub struct Modifiers {
    pub shift: bool,
    pub control: bool,
    pub alt: bool,
}

impl Modifiers {
    /// No modifier.
    pub fn none() -> (r: Modifiers)
        ensures
            r == (Modifiers { shift: false, control: false, alt: false }),
    {
        Modifiers { shift: false, control: false, alt: false }
    }

    /// Shift alone.
    pub fn shift() -> (r: Modifiers)
        ensures
            r == (Modifiers { shift: true, control: false, alt: false }),
    {
        Modifiers { shift: true, control: false, alt: false }
    }

    /// Control alone.
    pub fn control() -> (r: Modifiers)
        ensures
            r == (Modifiers { shift: false, control: true, alt: false }),
    {
        Modifiers { shift: false, control: true, alt: false }
    }

    /// Alt alone.
    pub fn alt() -> (r: Modifiers)
        ensures
            r == (Modifiers { shift: false, control: false, alt: true }),
    {
        Modifiers { shift: false, control: false, alt: true }
    }

    /// Both sets of modifiers held together.
    pub fn with(self, other: Modifiers) -> (r: Modifiers)
        ensures
            r == (Modifiers {
                shift: self.shift || other.shift,
                control: self.control || other.control,
                alt: self.alt || other.alt,
            }),
    {
        Modifiers {
            shift: self.shift || other.shift,
            control: self.control || other.control,
            alt: self.alt || other.alt,
        }
    }
}

/// A key press: the key and the modifiers held with it.
#[derive(Debug, Clone, Copy, PartialEq, Eq, Structural)]
pub struct Key {
    pub code: KeyCode,
    pub modifiers: Modifiers,
}

/// A `Char` with these modifiers is text the user typed: Control and Alt
/// either both absent or both present.
pub open spec fn types_text(m: Modifiers) -> bool {
    m.control == m.alt
}

/// Whether a `Char` event is text the user typed rather than a chord.
///
/// Without the check an unbound chord like Ctrl+X would silently type an "x"
/// into the query. Ctrl and Alt together are the exception: that is how AltGr
/// reaches a Windows console, and it is what types `@`, `€` or `ą` on layouts
/// outside the US one.
pub fn is_text(modifiers: Modifiers) -> (r: bool)
    ensures
        r == types_text(modifiers),
{
    modifiers.control == modifiers.alt
}

/// The digit keys `1`-`9` pick a suggestion by its number: the index they
/// name.
pub open spec fn digit_index(c: char) -> Option<nat> {
    if '1' <= c && c <= '9' {
        Some(((c as u32) - ('1' as u32)) as nat)
    } else {
        None
    }
}

/// The index a digit key names, if it is one of `1`-`9`.
pub fn digit_pick(c: char) -> (r: Option<usize>)
    ensures
        match r {
            Some(i) => digit_index(c) == Some(i as nat) && i < 9,
            None => digit_index(c) is None,
        },
{
    if '1' <= c && c <= '9' {
        let i: u32 = (c as u32) - ('1' as u32);
        Some(i as usize)
    } else {
        None
    }
}

} // verus!
