//! What the program does once the command line is parsed: how many
//! suggestions to ask for, whether to print them and stop, whether a command
//! needs confirming, and what to tell the user after running one.

use vstd::prelude::*;
use crate::cli::Cli;
use crate::context::ShellKind;
use crate::exec::{integration_active, supports_buffer};
use crate::integration::{hook_arg, hook_arg_of};
use crate::safety::{classify, risk_of, normalize, Reason, Risk};
use crate::suggestion::Suggestion;
use crate::text::{
    ascii_lower, chars_of, contains_seq, contains_str, decimal, eq_str, has_prefix_str, push_decimal,
    split_words, starts_with, to_ascii_lower, unicode_lowercase, words,
};

verus! {

/// An output mode that prints the suggestions and stops.
#[derive(Debug, Clone, Copy, PartialEq, Eq, Structural)]
pub enum PrintOnly {
    /// `--json`
    Json,
    /// `--dry-run`
    Plain,
}

/// Which print-and-stop mode the flags ask for, if any. Both at once is a
/// contradiction; `--json` is the machine-readable one, so it is the one that
/// answers.
///
/// Both modes are honoured in the interactive mode as well as the direct one:
/// `--dry-run` is the flag people reach for precisely so that nothing runs.
pub fn print_only_mode(cli: &Cli) -> (r: Option<PrintOnly>)
    ensures
        r == (if cli.json {
            Some(PrintOnly::Json)
        } else if cli.dry_run {
            Some(PrintOnly::Plain)
        } else {
            None
        }),
{
    if cli.json {
        Some(PrintOnly::Json)
    } else if cli.dry_run {
        Some(PrintOnly::Plain)
    } else {
        None
    }
}

/// How many suggestions to request: the flag, else the configured number,
/// kept between one and nine — beyond nine there is no digit left to pick
/// with, and fewer than one is pointless.
pub fn suggestion_count(flag: Option<usize>, configured: usize) -> (r: usize)
    ensures
        ({
            let wanted = match flag {
                Some(n) => n,
                None => configured,
            };
            r == (if wanted < 1 {
                1
            } else if wanted > 9 {
                9
            } else {
                wanted
            })
        }),
        1 <= r <= 9,
{
    let wanted = match flag {
        Some(n) => n,
        None => configured,
    };
    if wanted < 1 {
        1
    } else if wanted > 9 {
        9
    } else {
        wanted
    }
}

/// Whether the shell can take a command into its prompt buffer instead of
/// running it, given the value of `PLZ_OUTPUT_FILE` and whether the file it
/// names can be opened from here.
///
/// Without the wrapper there is nowhere to insert it, so Tab degrades to a
/// copy.
pub fn buffer_supported(output_file_var: Option<String>, reachable: bool, kind: ShellKind) -> (r: bool)
    ensures
        r == ((output_file_var matches Some(v) && v@.len() > 0 && reachable) && (kind == ShellKind::Zsh || kind
            == ShellKind::Fish || kind == ShellKind::PowerShell)),
{
    integration_active(output_file_var, reachable) && supports_buffer(kind)
}

/// The editor to fall back on when neither `VISUAL` nor `EDITOR` is set.
pub fn default_editor(windows: bool) -> (r: &'static str)
    ensures
        r == (if windows {
            "notepad"
        } else {
            "vi"
        }),
{
    if windows {
        "notepad"
    } else {
        "vi"
    }
}

/// The reason to ask before running a command, if there is one: only when
/// confirmation is configured, `--yes` was not given, and the command is
/// classified as dangerous.
pub fn confirmation_reason(confirm_dangerous: bool, yes: bool, command: &str) -> (r: Option<Reason>)
    ensures
        r == (if confirm_dangerous && !yes {
            match risk_of(normalize(unicode_lowercase(command@))) {
                Risk::Dangerous(reason) => Some(reason),
                Risk::Safe => None,
            }
        } else {
            None
        }),
{
    if confirm_dangerous && !yes {
        classify(command).reason()
    } else {
        None
    }
}

/// The first word of a command, ASCII-lowercased; empty when there is none.
pub open spec fn first_word(command: Seq<char>) -> Seq<char> {
    if words(command).len() > 0 {
        ascii_lower(words(command)[0])
    } else {
        Seq::empty()
    }
}

/// Whether a word is one of these.
pub open spec fn one_of(word: Seq<char>, list: Seq<Seq<char>>) -> bool {
    list.contains(word)
}

/// The cmdlets that touch session state only on the `Env:` drive.
pub open spec fn item_cmdlets() -> Seq<Seq<char>> {
    seq!["set-item"@, "new-item"@, "remove-item"@, "si"@, "ni"@, "ri"@]
}

/// The commands that change the shell's own state.
pub open spec fn state_commands() -> Seq<Seq<char>> {
    seq![
        "cd"@, "chdir"@, "export"@, "source"@, "."@, "alias"@, "unalias"@, "set"@, "unset"@,
        "pushd"@, "popd"@, "set-location"@, "sl"@, "push-location"@, "pop-location"@,
        "set-variable"@, "set-alias"@, "new-alias"@,
    ]
}

/// A command changes the shell's own state when its first word assigns to an
/// environment variable in PowerShell (`$env:FOO = 'bar'` arrives as one
/// token), is an item cmdlet aimed at the `Env:` drive, or is one of the
/// state-changing commands.
pub open spec fn changes_state(command: Seq<char>) -> bool {
    let first = first_word(command);
    if starts_with(first, "$env:"@) {
        true
    } else if one_of(first, item_cmdlets()) {
        contains_seq(ascii_lower(command), "env:"@)
    } else {
        one_of(first, state_commands())
    }
}

/// Whether the command changes the shell's own state.
///
/// Such commands run to no effect in a child process, and without a note that
/// looks like "the tool did nothing". PowerShell is case-insensitive and the
/// model varies the casing of its cmdlets; a POSIX command in capitals is not
/// a real thing, so lowercasing for every shell costs nothing.
pub fn changes_shell_state(command: &str) -> (r: bool)
    ensures
        r == changes_state(command@),
{
    let chars = chars_of(command);
    let ws = split_words(&chars);
    let first = if ws.len() > 0 {
        to_ascii_lower(&ws[0])
    } else {
        Vec::new()
    };
    assert(first@ =~= first_word(command@));
    if has_prefix_str(&first, "$env:") {
        return true;
    }
    if is_one_of(&first, &item_cmdlet_names()) {
        let lowered = to_ascii_lower(&chars);
        return contains_str(&lowered, "env:");
    }
    is_one_of(&first, &state_command_names())
}

fn item_cmdlet_names() -> (r: Vec<&'static str>)
    ensures
        r@.map_values(|s: &'static str| s@) == item_cmdlets(),
{
    let r = vec!["set-item", "new-item", "remove-item", "si", "ni", "ri"];
    assert(r@.map_values(|s: &'static str| s@) =~= item_cmdlets());
    r
}

fn state_command_names() -> (r: Vec<&'static str>)
    ensures
        r@.map_values(|s: &'static str| s@) == state_commands(),
{
    let r = vec![
        "cd", "chdir", "export", "source", ".", "alias", "unalias", "set", "unset", "pushd",
        "popd", "set-location", "sl", "push-location", "pop-location", "set-variable",
        "set-alias", "new-alias",
    ];
    assert(r@.map_values(|s: &'static str| s@) =~= state_commands());
    r
}

/// Whether the word is one of the listed ones.
fn is_one_of(word: &Vec<char>, list: &Vec<&'static str>) -> (r: bool)
    ensures
        r == one_of(word@, list@.map_values(|s: &'static str| s@)),
{
    let ghost names = list@.map_values(|s: &'static str| s@);
    let mut i: usize = 0;
    while i < list.len()
        invariant
            i <= list.len(),
            names == list@.map_values(|s: &'static str| s@),
            forall|k: int| 0 <= k < i ==> names[k] != word@,
        decreases list.len() - i,
    {
        if eq_str(word, list[i]) {
            assert(names[i as int] == word@);
            return true;
        }
        i += 1;
    }
    assert(!names.contains(word@)) by {
        if names.contains(word@) {
            let k = choose|k: int| 0 <= k < names.len() && names[k] == word@;
            assert(names[k] != word@);
        }
    }
    false
}

/// The install command to suggest after running a state-changing command in
/// a child: the shell's own `plz hook` argument where a wrapper exists for it,
/// otherwise the generic form, so the suggestion is always a line that works.
pub open spec fn install_command_text(kind: ShellKind) -> Seq<char> {
    match hook_arg_of(kind) {
        Some(arg) => "plz hook "@ + arg@ + " --install"@,
        None => "plz hook <shell> --install"@,
    }
}

/// The install command to suggest for the detected shell.
pub fn install_command(kind: ShellKind) -> (r: String)
    ensures
        r@ == install_command_text(kind),
{
    match hook_arg(kind) {
        Some(arg) => {
            let mut r = String::from_str("plz hook ");
            r.append(arg);
            r.append(" --install");
            r
        },
        None => String::from_str("plz hook <shell> --install"),
    }
}

/// The plain listing of suggestions, for `--dry-run` and for a stdout that is
/// not a terminal: each command numbered from one, and its explanation under
/// it, indented, when it has one.
pub open spec fn listing_lines(s: Seq<Suggestion>) -> Seq<Seq<char>>
    decreases s.len(),
{
    if s.len() == 0 {
        Seq::empty()
    } else {
        let last = s.last();
        let head = decimal(s.len()) + ". "@ + last.command@;
        let lines = listing_lines(s.drop_last()).push(head);
        if last.explanation@.len() > 0 {
            lines.push("   "@ + last.explanation@)
        } else {
            lines
        }
    }
}

/// The lines of the plain listing.
pub fn listing(suggestions: &Vec<Suggestion>) -> (r: Vec<String>)
    requires
        suggestions.len() < u64::MAX,
    ensures
        r@.map_values(|s: String| s@) == listing_lines(suggestions@),
{
    let mut r: Vec<String> = Vec::new();
    let mut i: usize = 0;
    while i < suggestions.len()
        invariant
            i <= suggestions.len() < u64::MAX,
            r@.map_values(|s: String| s@) == listing_lines(suggestions@.take(i as int)),
        decreases suggestions.len() - i,
    {
        let s = &suggestions[i];
        let mut head = String::new();
        push_decimal(&mut head, (i + 1) as u64);
        head.append(". ");
        head.append(s.command.as_str());
        let ghost before = r@;
        r.push(head);
        if s.explanation.unicode_len() > 0 {
            let mut line = String::from_str("   ");
            line.append(s.explanation.as_str());
            r.push(line);
        }
        proof {
            let t = suggestions@.take(i + 1);
            assert(t.drop_last() =~= suggestions@.take(i as int));
            assert(t.last() == suggestions@[i as int]);
            assert(t.len() == i + 1);
        }
        assert(r@.map_values(|s: String| s@) =~= listing_lines(suggestions@.take(i + 1)));
        i += 1;
    }
    assert(suggestions@.take(suggestions.len() as int) =~= suggestions@);
    r
}

/// The editor to open the config in: `VISUAL`, then `EDITOR`, then the
/// platform's fallback.
pub fn editor_to_launch(visual: Option<String>, editor: Option<String>, windows: bool) -> (r: String)
    ensures
        r@ == (match visual {
            Some(v) => v@,
            None => match editor {
                Some(e) => e@,
                None => (if windows {
                    "notepad"@
                } else {
                    "vi"@
                }),
            },
        }),
{
    match visual {
        Some(v) => v,
        None => match editor {
            Some(e) => e,
            None => String::from_str(default_editor(windows)),
        },
    }
}

} // verus!
