//! Answers typed at the console: what counts as a yes.
//!
//! Reading the line, and the prompts around it, happen outside.

use vstd::prelude::*;
use crate::cli::{count_value, number_of};
use crate::i18n::Lang;
use crate::text::{chars_of, eq_str, string_of, to_lowercase, trim, trim_ws, unicode_lowercase};
use crate::ui::{Key, KeyCode};

verus! {

/// The local spellings of yes in each language, beside the English one.
/// Unaccented forms are listed too, because `sí` is routinely typed `si`.
pub open spec fn local_yes(lang: Lang) -> Seq<Seq<char>> {
    match lang {
        Lang::En => seq![],
        Lang::Ru => seq!["д"@, "да"@],
        Lang::Es => seq!["s"@, "si"@, "sí"@],
        Lang::Fr => seq!["o"@, "oui"@],
        Lang::De => seq!["j"@, "ja"@],
    }
}

/// An answer means yes when, trimmed and lowercased, it is `y` or `yes`, or
/// one of the language's own spellings. A blank answer is none of these.
pub open spec fn affirmative(answer: Seq<char>, lang: Lang) -> bool {
    let a = unicode_lowercase(trim(answer));
    trim(answer).len() > 0 && (a == "y"@ || a == "yes"@ || local_yes(lang).contains(a))
}

/// Whether an answer means yes.
///
/// The English `y`/`yes` is accepted in every language on top of the local
/// spelling: the keyboard layout in front of the user is not always the one
/// their language implies, and `y` means nothing else in any of them.
/// Lowercasing is Unicode's rather than ASCII's: `Д` is not ASCII, and the
/// ASCII form would leave it uppercase and reject a perfectly good yes.
pub fn is_affirmative(answer: &str, lang: Lang) -> (r: bool)
    ensures
        r == affirmative(answer@, lang),
{
    let t = trim_ws(&chars_of(answer));
    if t.len() == 0 {
        return false;
    }
    let trimmed = string_of(&t);
    let lowered = to_lowercase(trimmed.as_str());
    let a = chars_of(lowered.as_str());
    if eq_str(&a, "y") || eq_str(&a, "yes") {
        return true;
    }
    let r = match lang {
        Lang::En => false,
        Lang::Ru => eq_str(&a, "д") || eq_str(&a, "да"),
        Lang::Es => eq_str(&a, "s") || eq_str(&a, "si") || eq_str(&a, "sí"),
        Lang::Fr => eq_str(&a, "o") || eq_str(&a, "oui"),
        Lang::De => eq_str(&a, "j") || eq_str(&a, "ja"),
    };
    proof {
        let l = local_yes(lang);
        if r {
            assert(l.contains(a@)) by {
                match lang {
                    Lang::Ru => {
                        if a@ == "д"@ { assert(l[0] == a@); } else { assert(l[1] == a@); }
                    },
                    Lang::Es => {
                        if a@ == "s"@ { assert(l[0] == a@); } else if a@ == "si"@ { assert(l[1] == a@); } else { assert(l[2] == a@); }
                    },
                    Lang::Fr => {
                        if a@ == "o"@ { assert(l[0] == a@); } else { assert(l[1] == a@); }
                    },
                    Lang::De => {
                        if a@ == "j"@ { assert(l[0] == a@); } else { assert(l[1] == a@); }
                    },
                    Lang::En => {},
                }
            }
        } else {
            assert(!l.contains(a@)) by {
                if l.contains(a@) {
                    let k = choose|k: int| 0 <= k < l.len() && l[k] == a@;
                }
            }
        }
    }
    r
}

/// The English yes is accepted in every language: an answer that, trimmed,
/// is `y` or `yes` in any case.
pub proof fn lemma_english_yes_everywhere(answer: Seq<char>, lang: Lang)
    requires
        trim(answer).len() > 0,
        unicode_lowercase(trim(answer)) == "y"@ || unicode_lowercase(trim(answer)) == "yes"@,
    ensures
        affirmative(answer, lang),
{
}

/// The default is no: a blank answer, such as a bare Enter, never confirms.
pub proof fn lemma_blank_answer_is_no(answer: Seq<char>, lang: Lang)
    requires
        trim(answer).len() == 0,
    ensures
        !affirmative(answer, lang),
{
}

/// A line as typed, trimmed; an empty one stands for the default when there
/// is one.
pub open spec fn line_answer_text(input: Seq<char>, default: Option<Seq<char>>) -> Seq<char> {
    if trim(input).len() == 0 {
        match default {
            Some(d) => d,
            None => Seq::empty(),
        }
    } else {
        trim(input)
    }
}

/// What a line read at a prompt comes to: the trimmed input, or the default
/// when the input is empty.
pub fn line_answer(input: &str, default: Option<&str>) -> (r: String)
    ensures
        r@ == line_answer_text(
            input@,
            match default {
                Some(d) => Some(d@),
                None => None,
            },
        ),
{
    let trimmed = trim_ws(&chars_of(input));
    if trimmed.len() == 0 {
        match default {
            Some(d) => String::from_str(d),
            None => String::new(),
        }
    } else {
        string_of(&trimmed)
    }
}

/// The index picked from a numbered list of `count` options: the number
/// typed, counted from one, when it names an option.
pub fn chosen_index(answer: &str, count: usize) -> (r: Option<usize>)
    ensures
        r == (match count_value(answer@) {
            Some(n) => if 1 <= n <= count {
                Some((n - 1) as usize)
            } else {
                None
            },
            None => None,
        }),
{
    match number_of(answer) {
        Some(n) => if 1 <= n && n <= count {
            Some(n - 1)
        } else {
            None
        },
        None => None,
    }
}

/// What a key press does while a secret is typed.
pub enum SecretStep {
    /// Keep reading
    Continue,
    /// Enter: the secret, trimmed
    Done(String),
    /// Esc
    Cancelled,
    /// Ctrl+C
    Aborted,
}

/// A secret being typed without echo.
pub struct SecretInput {
    pub typed: Vec<char>,
}

/// What a key does to the typed secret: Enter ends it, Backspace takes the
/// last character back, Esc cancels, Ctrl+C aborts, any other character is
/// typed, and anything else is ignored.
pub open spec fn secret_next(typed: Seq<char>, key: Key) -> (Seq<char>, Option<SecretOutcome>) {
    match key.code {
        KeyCode::Enter => (typed, Some(SecretOutcome::Done(trim(typed)))),
        KeyCode::Backspace => (
            if typed.len() > 0 {
                typed.drop_last()
            } else {
                typed
            },
            None,
        ),
        KeyCode::Esc => (typed, Some(SecretOutcome::Cancelled)),
        KeyCode::Char(c) => if c == 'c' && key.modifiers.control {
            (typed, Some(SecretOutcome::Aborted))
        } else {
            (typed.push(c), None)
        },
        _ => (typed, None),
    }
}

/// How typing a secret ended, as the specification sees it.
pub enum SecretOutcome {
    Done(Seq<char>),
    Cancelled,
    Aborted,
}

pub open spec fn secret_step_view(s: SecretStep) -> Option<SecretOutcome> {
    match s {
        SecretStep::Continue => None,
        SecretStep::Done(t) => Some(SecretOutcome::Done(t@)),
        SecretStep::Cancelled => Some(SecretOutcome::Cancelled),
        SecretStep::Aborted => Some(SecretOutcome::Aborted),
    }
}

impl SecretInput {
    pub fn new() -> (r: SecretInput)
        ensures
            r.typed@ == Seq::<char>::empty(),
    {
        SecretInput { typed: Vec::new() }
    }

    /// Takes one key press.
    pub fn key(&mut self, key: Key) -> (r: SecretStep)
        ensures
            (final(self).typed@, secret_step_view(r)) == secret_next(old(self).typed@, key),
    {
        match key.code {
            KeyCode::Enter => SecretStep::Done(string_of(&trim_ws(&self.typed))),
            KeyCode::Backspace => {
                if self.typed.len() > 0 {
                    self.typed.pop();
                }
                SecretStep::Continue
            },
            KeyCode::Esc => SecretStep::Cancelled,
            KeyCode::Char(c) => {
                if c == 'c' && key.modifiers.control {
                    SecretStep::Aborted
                } else {
                    self.typed.push(c);
                    SecretStep::Continue
                }
            },
            _ => SecretStep::Continue,
        }
    }
}

} // verus!
