//! The command line as the program sees it once it is parsed.
//!
//! Flags go before the task: everything after it is read as part of it, so
//! `plz what does git push --force do` asks about the flag instead of using
//! it. A task starting with the word `config` or `hook` collides with the
//! subcommand of that name — quote it, or put `--` in front.

use vstd::prelude::*;
use crate::context::opt_text;
use crate::text::{
    chars_of, eq_str, has_prefix_str, join, join_with, seqs, starts_with, string_of, sub_vec,
    trim, trim_ws,
};

verus! {

/// Describe a task in plain language, get a command ready for your OS and shell.
pub struct Cli {
    /// The task, in plain language. With no arguments, interactive mode opens.
    pub task: Vec<String>,
    /// How many command suggestions to request
    pub count: Option<usize>,
    /// Use a different model instead of the one in the config
    pub model: Option<String>,
    /// Only show the suggestions, run nothing
    pub dry_run: bool,
    /// Do not ask for confirmation on risky commands
    pub yes: bool,
    /// Print the suggestions as JSON and exit (for scripts)
    pub json: bool,
    pub command: Option<Command>,
}

#[derive(Debug, Clone, Copy, PartialEq, Eq, Structural)]
pub enum Command {
    /// Manage the configuration
    Config { action: ConfigAction },
    /// Print a shell wrapper so commands run in your current shell
    Hook {
        /// The shell to generate a wrapper for
        shell: Shell,
        /// Add the line to the shell's startup file instead of printing the
        /// script. Asks first; --yes answers for you
        install: bool,
    },
}

#[derive(Debug, Clone, Copy, PartialEq, Eq, Structural)]
pub enum ConfigAction {
    /// Interactive first-time setup: provider, model, key
    Init,
    /// Print the path to the configuration file
    Path,
    /// Print the current configuration (the key is masked)
    Show,
    /// Open the configuration in $EDITOR
    Edit,
}

/// The shells `plz hook` writes a wrapper for.
#[derive(Debug, Clone, Copy, PartialEq, Eq, Structural)]
pub enum Shell {
    Zsh,
    Bash,
    Fish,
    Powershell,
    Cmd,
}

/// The spelling `plz hook <shell>` accepts for each shell.
pub open spec fn shell_arg(shell: Shell) -> &'static str {
    match shell {
        Shell::Zsh => "zsh",
        Shell::Bash => "bash",
        Shell::Fish => "fish",
        Shell::Powershell => "powershell",
        Shell::Cmd => "cmd",
    }
}

impl Shell {
    /// The spelling `plz hook <shell>` accepts, for messages that hand the user
    /// a command to run.
    pub fn arg(self) -> (r: &'static str)
        ensures
            r@ == shell_arg(self)@,
    {
        match self {
            Shell::Zsh => "zsh",
            Shell::Bash => "bash",
            Shell::Fish => "fish",
            Shell::Powershell => "powershell",
            Shell::Cmd => "cmd",
        }
    }
}

/// The texts of the task's words.
pub open spec fn texts(words: Seq<String>) -> Seq<Seq<char>> {
    words.map_values(|s: String| s@)
}

/// The task text: the words joined with spaces, trimmed; none when empty.
pub open spec fn task_text_of(words: Seq<String>) -> Option<Seq<char>> {
    let joined = trim(join(texts(words), " "@));
    if joined.len() == 0 {
        None
    } else {
        Some(joined)
    }
}

impl Cli {
    /// The task text, joined from the positional arguments.
    pub fn task_text(&self) -> (r: Option<String>)
        ensures
            match r {
                Some(t) => task_text_of(self.task@) == Some(t@),
                None => task_text_of(self.task@) is None,
            },
    {
        let mut words: Vec<Vec<char>> = Vec::new();
        let mut i: usize = 0;
        while i < self.task.len()
            invariant
                i <= self.task.len(),
                seqs(words@) == texts(self.task@).take(i as int),
            decreases self.task.len() - i,
        {
            let w = chars_of(self.task[i].as_str());
            proof {
                crate::text::lemma_seqs_push(words@, w);
            }
            words.push(w);
            i += 1;
            assert(seqs(words@) =~= texts(self.task@).take(i as int));
        }
        assert(texts(self.task@).take(self.task.len() as int) =~= texts(self.task@));
        let space = chars_of(" ");
        let joined = join_with(&words, &space);
        let trimmed = trim_ws(&joined);
        if trimmed.len() == 0 {
            None
        } else {
            Some(string_of(&trimmed))
        }
    }
}

// ---------------------------------------------------------------------------
// The command-line grammar
// ---------------------------------------------------------------------------
//
// plz [OPTIONS] [TASK]...
// plz [OPTIONS] config <init|path|show|edit>
// plz [OPTIONS] hook [--install] <zsh|bash|fish|powershell|pwsh|cmd>
//
// Options: -n/--count N, --model MODEL, --dry-run, -y/--yes, --json,
// -h/--help, -V/--version. Short options may be bundled (`-yn5`); a value may
// follow `=` (`--count=5`). The first word that is neither an option nor a
// subcommand starts the task, and everything after it is part of the task.
// After `--` everything is task.

/// Why a command line was not accepted. `Help` and `Version` are the two
/// requests that stop parsing to print something instead.
#[derive(Debug, Clone, PartialEq, Eq)]
pub enum ParseError {
    /// `-h`, `--help` or `plz help`
    Help,
    /// `-V` or `--version`
    Version,
    /// An option plz does not have
    UnknownArgument(String),
    /// An option that takes a value was given none
    MissingValue(String),
    /// An option or argument got a value it cannot take: the option, the value
    InvalidValue(String, String),
    /// An option given twice
    Repeated(String),
    /// A subcommand was given without the subcommand it needs
    MissingSubcommand(String),
    /// A required argument is missing
    MissingArgument(String),
    /// A word a subcommand has no place for
    UnexpectedArgument(String),
}

/// A parse error, with texts for strings.
pub enum ParseErrorView {
    Help,
    Version,
    UnknownArgument(Seq<char>),
    MissingValue(Seq<char>),
    InvalidValue(Seq<char>, Seq<char>),
    Repeated(Seq<char>),
    MissingSubcommand(Seq<char>),
    MissingArgument(Seq<char>),
    UnexpectedArgument(Seq<char>),
}

pub open spec fn error_view(e: ParseError) -> ParseErrorView {
    match e {
        ParseError::Help => ParseErrorView::Help,
        ParseError::Version => ParseErrorView::Version,
        ParseError::UnknownArgument(a) => ParseErrorView::UnknownArgument(a@),
        ParseError::MissingValue(a) => ParseErrorView::MissingValue(a@),
        ParseError::InvalidValue(a, v) => ParseErrorView::InvalidValue(a@, v@),
        ParseError::Repeated(a) => ParseErrorView::Repeated(a@),
        ParseError::MissingSubcommand(a) => ParseErrorView::MissingSubcommand(a@),
        ParseError::MissingArgument(a) => ParseErrorView::MissingArgument(a@),
        ParseError::UnexpectedArgument(a) => ParseErrorView::UnexpectedArgument(a@),
    }
}

/// The options seen so far.
pub struct Flags {
    pub count: Option<usize>,
    pub model: Option<Seq<char>>,
    pub dry_run: bool,
    pub yes: bool,
    pub json: bool,
}

pub open spec fn no_flags() -> Flags {
    Flags { count: None, model: None, dry_run: false, yes: false, json: false }
}

/// A parsed command line, with texts for strings.
pub struct CliView {
    pub task: Seq<Seq<char>>,
    pub flags: Flags,
    pub command: Option<Command>,
}

pub open spec fn cli_view(c: Cli) -> CliView {
    CliView {
        task: texts(c.task@),
        flags: Flags {
            count: c.count,
            model: opt_text(c.model),
            dry_run: c.dry_run,
            yes: c.yes,
            json: c.json,
        },
        command: c.command,
    }
}

pub open spec fn result_view(r: Result<Cli, ParseError>) -> Result<CliView, ParseErrorView> {
    match r {
        Ok(c) => Ok(cli_view(c)),
        Err(e) => Err(error_view(e)),
    }
}

/// A word that reads as an option rather than a value.
pub open spec fn flag_like(a: Seq<char>) -> bool {
    a.len() > 1 && a[0] == '-'
}

/// The value of a run of decimal digits.
pub open spec fn digits_value(s: Seq<char>) -> nat
    decreases s.len(),
{
    if s.len() == 0 {
        0
    } else {
        digits_value(s.drop_last()) * 10 + digit_of(s.last())
    }
}

pub open spec fn digit_of(c: char) -> nat {
    ((c as u32) - ('0' as u32)) as nat
}

pub open spec fn all_digits(s: Seq<char>) -> bool {
    forall|k: int| 0 <= k < s.len() ==> '0' <= #[trigger] s[k] <= '9'
}

/// A count as the command line spells it: decimal digits, optionally after
/// a `+`, small enough for the machine.
pub open spec fn count_value(s: Seq<char>) -> Option<usize> {
    count_of_digits(unsigned_part(s))
}

/// A number without its optional leading `+`.
pub open spec fn unsigned_part(s: Seq<char>) -> Seq<char> {
    if s.len() > 0 && s[0] == '+' {
        s.drop_first()
    } else {
        s
    }
}

/// The count a run of decimal digits spells, when it is one and fits.
pub open spec fn count_of_digits(digits: Seq<char>) -> Option<usize> {
    if digits.len() > 0 && all_digits(digits) && digits_value(digits) <= usize::MAX {
        Some(digits_value(digits) as usize)
    } else {
        None
    }
}

/// The shell a `plz hook` argument names.
pub open spec fn shell_named(a: Seq<char>) -> Option<Shell> {
    if a == "zsh"@ {
        Some(Shell::Zsh)
    } else if a == "bash"@ {
        Some(Shell::Bash)
    } else if a == "fish"@ {
        Some(Shell::Fish)
    } else if a == "powershell"@ || a == "pwsh"@ {
        Some(Shell::Powershell)
    } else if a == "cmd"@ {
        Some(Shell::Cmd)
    } else {
        None
    }
}

/// What a bundle of short options comes to.
pub enum Bundle {
    /// The options, and whether the bundle took the next word as its value
    Done(Flags, bool),
    Fail(ParseErrorView),
}

/// The short options of the word `a` from index `j` on; `next` is the word
/// after it, which `-n` takes as its value when nothing follows it in the
/// bundle.
pub open spec fn bundle(a: Seq<char>, j: int, f: Flags, next: Option<Seq<char>>) -> Bundle
    decreases a.len() - j,
{
    if j < 0 || j >= a.len() {
        Bundle::Done(f, false)
    } else {
        let c = a[j];
        if c == 'y' {
            if f.yes {
                Bundle::Fail(ParseErrorView::Repeated("--yes"@))
            } else {
                bundle(a, j + 1, Flags { yes: true, ..f }, next)
            }
        } else if c == 'h' {
            Bundle::Fail(ParseErrorView::Help)
        } else if c == 'V' {
            Bundle::Fail(ParseErrorView::Version)
        } else if c == 'n' {
            let attached = if j + 1 < a.len() && a[j + 1] == '=' {
                a.skip(j + 2)
            } else {
                a.skip(j + 1)
            };
            if f.count is Some {
                Bundle::Fail(ParseErrorView::Repeated("--count"@))
            } else if attached.len() > 0 {
                match count_value(attached) {
                    Some(n) => Bundle::Done(Flags { count: Some(n), ..f }, false),
                    None => Bundle::Fail(ParseErrorView::InvalidValue("--count"@, attached)),
                }
            } else {
                match next {
                    Some(v) => if flag_like(v) {
                        Bundle::Fail(ParseErrorView::MissingValue("--count"@))
                    } else {
                        match count_value(v) {
                            Some(n) => Bundle::Done(Flags { count: Some(n), ..f }, true),
                            None => Bundle::Fail(ParseErrorView::InvalidValue("--count"@, v)),
                        }
                    },
                    None => Bundle::Fail(ParseErrorView::MissingValue("--count"@)),
                }
            }
        } else {
            Bundle::Fail(ParseErrorView::UnknownArgument(seq!['-', c]))
        }
    }
}

/// The `config` subcommand, from the word after it.
pub open spec fn parse_config(args: Seq<Seq<char>>, i: int) -> Result<Command, ParseErrorView> {
    if i < 0 || i >= args.len() {
        Err(ParseErrorView::MissingSubcommand("config"@))
    } else {
        let a = args[i];
        if a == "-h"@ || a == "--help"@ || a == "help"@ {
            Err(ParseErrorView::Help)
        } else {
            let action = if a == "init"@ {
                Some(ConfigAction::Init)
            } else if a == "path"@ {
                Some(ConfigAction::Path)
            } else if a == "show"@ {
                Some(ConfigAction::Show)
            } else if a == "edit"@ {
                Some(ConfigAction::Edit)
            } else {
                None
            };
            match action {
                None => Err(ParseErrorView::UnexpectedArgument(a)),
                Some(action) => if i + 1 >= args.len() {
                    Ok(Command::Config { action })
                } else if args[i + 1] == "-h"@ || args[i + 1] == "--help"@ {
                    Err(ParseErrorView::Help)
                } else {
                    Err(ParseErrorView::UnexpectedArgument(args[i + 1]))
                },
            }
        }
    }
}

/// The `hook` subcommand from word `i` on, with the shell and `--install`
/// seen so far; `escaped` once `--` has been passed.
pub open spec fn parse_hook(
    args: Seq<Seq<char>>,
    i: int,
    shell: Option<Shell>,
    install: bool,
    escaped: bool,
) -> Result<Command, ParseErrorView>
    decreases args.len() - i,
{
    if i < 0 || i >= args.len() {
        match shell {
            Some(s) => Ok(Command::Hook { shell: s, install }),
            None => Err(ParseErrorView::MissingArgument("<SHELL>"@)),
        }
    } else {
        let a = args[i];
        if !escaped && a == "--"@ {
            parse_hook(args, i + 1, shell, install, true)
        } else if !escaped && (a == "-h"@ || a == "--help"@) {
            Err(ParseErrorView::Help)
        } else if !escaped && a == "--install"@ {
            if install {
                Err(ParseErrorView::Repeated("--install"@))
            } else {
                parse_hook(args, i + 1, shell, true, escaped)
            }
        } else if !escaped && flag_like(a) {
            Err(ParseErrorView::UnknownArgument(a))
        } else if shell is Some {
            Err(ParseErrorView::UnexpectedArgument(a))
        } else {
            match shell_named(a) {
                Some(s) => parse_hook(args, i + 1, Some(s), install, escaped),
                None => Err(ParseErrorView::InvalidValue("<SHELL>"@, a)),
            }
        }
    }
}

/// The command line from word `i` on, with the options seen so far.
pub open spec fn parse_top(args: Seq<Seq<char>>, i: int, f: Flags) -> Result<CliView, ParseErrorView>
    decreases args.len() + 1 - i,
{
    if i < 0 || i >= args.len() {
        Ok(CliView { task: Seq::empty(), flags: f, command: None })
    } else {
        let a = args[i];
        if a == "--"@ {
            Ok(CliView { task: args.skip(i + 1), flags: f, command: None })
        } else if a == "--help"@ {
            Err(ParseErrorView::Help)
        } else if a == "--version"@ {
            Err(ParseErrorView::Version)
        } else if a == "--dry-run"@ {
            if f.dry_run {
                Err(ParseErrorView::Repeated("--dry-run"@))
            } else {
                parse_top(args, i + 1, Flags { dry_run: true, ..f })
            }
        } else if a == "--yes"@ {
            if f.yes {
                Err(ParseErrorView::Repeated("--yes"@))
            } else {
                parse_top(args, i + 1, Flags { yes: true, ..f })
            }
        } else if a == "--json"@ {
            if f.json {
                Err(ParseErrorView::Repeated("--json"@))
            } else {
                parse_top(args, i + 1, Flags { json: true, ..f })
            }
        } else if a == "--count"@ || starts_with(a, "--count="@) {
            let attached = a == "--count"@;
            let value = if attached {
                if i + 1 < args.len() && !flag_like(args[i + 1]) {
                    Some(args[i + 1])
                } else {
                    None
                }
            } else {
                Some(a.skip(8))
            };
            if f.count is Some {
                Err(ParseErrorView::Repeated("--count"@))
            } else {
                match value {
                    None => Err(ParseErrorView::MissingValue("--count"@)),
                    Some(v) => match count_value(v) {
                        Some(n) => parse_top(
                            args,
                            if attached {
                                i + 2
                            } else {
                                i + 1
                            },
                            Flags { count: Some(n), ..f },
                        ),
                        None => Err(ParseErrorView::InvalidValue("--count"@, v)),
                    },
                }
            }
        } else if a == "--model"@ || starts_with(a, "--model="@) {
            let separate = a == "--model"@;
            let value = if separate {
                if i + 1 < args.len() && !flag_like(args[i + 1]) {
                    Some(args[i + 1])
                } else {
                    None
                }
            } else {
                Some(a.skip(8))
            };
            if f.model is Some {
                Err(ParseErrorView::Repeated("--model"@))
            } else {
                match value {
                    None => Err(ParseErrorView::MissingValue("--model"@)),
                    Some(v) => parse_top(
                        args,
                        if separate {
                            i + 2
                        } else {
                            i + 1
                        },
                        Flags { model: Some(v), ..f },
                    ),
                }
            }
        } else if starts_with(a, "--"@) {
            Err(ParseErrorView::UnknownArgument(a))
        } else if flag_like(a) {
            match bundle(
                a,
                1,
                f,
                if i + 1 < args.len() {
                    Some(args[i + 1])
                } else {
                    None
                },
            ) {
                Bundle::Fail(e) => Err(e),
                Bundle::Done(g, took_next) => parse_top(
                    args,
                    if took_next {
                        i + 2
                    } else {
                        i + 1
                    },
                    g,
                ),
            }
        } else if a == "config"@ {
            match parse_config(args, i + 1) {
                Ok(c) => Ok(CliView { task: Seq::empty(), flags: f, command: Some(c) }),
                Err(e) => Err(e),
            }
        } else if a == "hook"@ {
            match parse_hook(args, i + 1, None, false, false) {
                Ok(c) => Ok(CliView { task: Seq::empty(), flags: f, command: Some(c) }),
                Err(e) => Err(e),
            }
        } else if a == "help"@ {
            Err(ParseErrorView::Help)
        } else {
            Ok(CliView { task: args.skip(i), flags: f, command: None })
        }
    }
}

/// A whole command line, the program's name first.
pub open spec fn parse_args(args: Seq<Seq<char>>) -> Result<CliView, ParseErrorView> {
    parse_top(args, 1, no_flags())
}

/// The options seen so far, as the parser holds them.
struct Options {
    count: Option<usize>,
    model: Option<String>,
    dry_run: bool,
    yes: bool,
    json: bool,
}

spec fn flags_of(o: Options) -> Flags {
    Flags { count: o.count, model: opt_text(o.model), dry_run: o.dry_run, yes: o.yes, json: o.json }
}

/// Every prefix of a run of digits is worth no more than the whole run.
proof fn lemma_digits_prefix(s: Seq<char>, k: int)
    requires
        0 <= k <= s.len(),
        all_digits(s),
    ensures
        digits_value(s.take(k)) <= digits_value(s),
    decreases s.len() - k,
{
    if k < s.len() {
        lemma_digits_prefix(s.drop_last(), k);
        assert(s.drop_last().take(k) =~= s.take(k));
        assert(all_digits(s.drop_last()));
    } else {
        assert(s.take(k) =~= s);
    }
}

/// The count a word spells, if it spells one.
fn count_of(v: &Vec<char>) -> (r: Option<usize>)
    ensures
        r == count_value(v@),
{
    let digits = if v.len() > 0 && v[0] == '+' {
        sub_vec(v, 1, v.len())
    } else {
        sub_vec(v, 0, v.len())
    };
    assert(digits@ =~= unsigned_part(v@));
    if digits.len() == 0 {
        return None;
    }
    let mut value: usize = 0;
    let mut k: usize = 0;
    while k < digits.len()
        invariant
            k <= digits.len(),
            digits@ == unsigned_part(v@),
            all_digits(digits@.take(k as int)),
            value == digits_value(digits@.take(k as int)),
        decreases digits.len() - k,
    {
        let c = digits[k];
        if !('0' <= c && c <= '9') {
            assert(!all_digits(digits@));
            return None;
        }
        let d: u32 = (c as u32) - ('0' as u32);
        proof {
            let t = digits@.take(k + 1);
            assert(t.drop_last() =~= digits@.take(k as int));
            assert(t.last() == c);
            assert(all_digits(t));
        }
        let tens = match value.checked_mul(10) {
            Some(t) => t,
            None => {
                proof {
                    if all_digits(digits@) {
                        lemma_digits_prefix(digits@, k + 1);
                    }
                }
                return None;
            },
        };
        let next = match tens.checked_add(d as usize) {
            Some(n) => n,
            None => {
                proof {
                    if all_digits(digits@) {
                        lemma_digits_prefix(digits@, k + 1);
                    }
                }
                return None;
            },
        };
        value = next;
        k += 1;
    }
    assert(digits@.take(digits.len() as int) =~= digits@);
    Some(value)
}

/// The number a word spells, as `usize::from_str` reads one: decimal digits,
/// optionally after a `+`, small enough for the machine.
pub fn number_of(text: &str) -> (r: Option<usize>)
    ensures
        r == count_value(text@),
{
    count_of(&chars_of(text))
}

/// Whether a word reads as an option.
fn is_flag_like(a: &Vec<char>) -> (r: bool)
    ensures
        r == flag_like(a@),
{
    a.len() > 1 && a[0] == '-'
}

/// The short options of `a` from index `j` on.
fn read_bundle(a: &Vec<char>, j: usize, o: Options, next: Option<&Vec<char>>) -> (r: Result<
    (Options, bool),
    ParseError,
>)
    requires
        j >= 1,
    ensures
        r matches Ok((_, true)) ==> next is Some,
        match r {
            Ok((p, took)) => bundle(
                a@,
                j as int,
                flags_of(o),
                match next {
                    Some(v) => Some(v@),
                    None => None,
                },
            ) == Bundle::Done(flags_of(p), took),
            Err(e) => bundle(
                a@,
                j as int,
                flags_of(o),
                match next {
                    Some(v) => Some(v@),
                    None => None,
                },
            ) == Bundle::Fail(error_view(e)),
        },
    decreases a.len() - j,
{
    if j >= a.len() {
        return Ok((o, false));
    }
    let c = a[j];
    if c == 'y' {
        if o.yes {
            return Err(ParseError::Repeated(String::from_str("--yes")));
        }
        let p = Options { yes: true, ..o };
        return read_bundle(a, j + 1, p, next);
    }
    if c == 'h' {
        return Err(ParseError::Help);
    }
    if c == 'V' {
        return Err(ParseError::Version);
    }
    if c == 'n' {
        let attached = if j + 1 < a.len() && a[j + 1] == '=' {
            sub_vec(a, j + 2, a.len())
        } else {
            sub_vec(a, j + 1, a.len())
        };
        if o.count.is_some() {
            return Err(ParseError::Repeated(String::from_str("--count")));
        }
        if attached.len() > 0 {
            return match count_of(&attached) {
                Some(n) => Ok((Options { count: Some(n), ..o }, false)),
                None => Err(ParseError::InvalidValue(String::from_str("--count"), string_of(&attached))),
            };
        }
        return match next {
            Some(v) => {
                if is_flag_like(v) {
                    Err(ParseError::MissingValue(String::from_str("--count")))
                } else {
                    match count_of(v) {
                        Some(n) => Ok((Options { count: Some(n), ..o }, true)),
                        None => Err(ParseError::InvalidValue(String::from_str("--count"), string_of(v))),
                    }
                }
            },
            None => Err(ParseError::MissingValue(String::from_str("--count"))),
        };
    }
    let mut unknown = String::new();
    crate::text::push_char(&mut unknown, '-');
    crate::text::push_char(&mut unknown, c);
    assert(unknown@ =~= seq!['-', c]);
    Err(ParseError::UnknownArgument(unknown))
}

/// The `config` subcommand, from word `i` on.
fn read_config(args: &Vec<Vec<char>>, i: usize) -> (r: Result<Command, ParseError>)
    ensures
        match r {
            Ok(c) => parse_config(seqs(args@), i as int) == Ok::<Command, ParseErrorView>(c),
            Err(e) => parse_config(seqs(args@), i as int) == Err::<Command, ParseErrorView>(error_view(e)),
        },
{
    if i >= args.len() {
        return Err(ParseError::MissingSubcommand(String::from_str("config")));
    }
    let a = &args[i];
    if eq_str(a, "-h") || eq_str(a, "--help") || eq_str(a, "help") {
        return Err(ParseError::Help);
    }
    let action = if eq_str(a, "init") {
        ConfigAction::Init
    } else if eq_str(a, "path") {
        ConfigAction::Path
    } else if eq_str(a, "show") {
        ConfigAction::Show
    } else if eq_str(a, "edit") {
        ConfigAction::Edit
    } else {
        return Err(ParseError::UnexpectedArgument(string_of(a)));
    };
    if i + 1 >= args.len() {
        return Ok(Command::Config { action });
    }
    let b = &args[i + 1];
    if eq_str(b, "-h") || eq_str(b, "--help") {
        Err(ParseError::Help)
    } else {
        Err(ParseError::UnexpectedArgument(string_of(b)))
    }
}

/// The shell a word names.
fn shell_of(a: &Vec<char>) -> (r: Option<Shell>)
    ensures
        r == shell_named(a@),
{
    if eq_str(a, "zsh") {
        Some(Shell::Zsh)
    } else if eq_str(a, "bash") {
        Some(Shell::Bash)
    } else if eq_str(a, "fish") {
        Some(Shell::Fish)
    } else if eq_str(a, "powershell") || eq_str(a, "pwsh") {
        Some(Shell::Powershell)
    } else if eq_str(a, "cmd") {
        Some(Shell::Cmd)
    } else {
        None
    }
}

/// The `hook` subcommand from word `i` on.
fn read_hook(args: &Vec<Vec<char>>, i: usize, shell: Option<Shell>, install: bool, escaped: bool) -> (r:
    Result<Command, ParseError>)
    ensures
        match r {
            Ok(c) => parse_hook(seqs(args@), i as int, shell, install, escaped) == Ok::<
                Command,
                ParseErrorView,
            >(c),
            Err(e) => parse_hook(seqs(args@), i as int, shell, install, escaped) == Err::<
                Command,
                ParseErrorView,
            >(error_view(e)),
        },
    decreases args.len() - i,
{
    if i >= args.len() {
        return match shell {
            Some(s) => Ok(Command::Hook { shell: s, install }),
            None => Err(ParseError::MissingArgument(String::from_str("<SHELL>"))),
        };
    }
    let a = &args[i];
    if !escaped && eq_str(a, "--") {
        return read_hook(args, i + 1, shell, install, true);
    }
    if !escaped && (eq_str(a, "-h") || eq_str(a, "--help")) {
        return Err(ParseError::Help);
    }
    if !escaped && eq_str(a, "--install") {
        if install {
            return Err(ParseError::Repeated(String::from_str("--install")));
        }
        return read_hook(args, i + 1, shell, true, escaped);
    }
    if !escaped && is_flag_like(a) {
        return Err(ParseError::UnknownArgument(string_of(a)));
    }
    if shell.is_some() {
        return Err(ParseError::UnexpectedArgument(string_of(a)));
    }
    match shell_of(a) {
        Some(s) => read_hook(args, i + 1, Some(s), install, escaped),
        None => Err(ParseError::InvalidValue(String::from_str("<SHELL>"), string_of(a))),
    }
}

/// The words of `args` from `i` on, as strings.
fn words_from_index(args: &Vec<Vec<char>>, i: usize) -> (r: Vec<String>)
    requires
        i <= args.len(),
    ensures
        texts(r@) == seqs(args@).skip(i as int),
{
    let mut r: Vec<String> = Vec::new();
    let mut k = i;
    while k < args.len()
        invariant
            i <= k <= args.len(),
            texts(r@) == seqs(args@).subrange(i as int, k as int),
        decreases args.len() - k,
    {
        let w = string_of(&args[k]);
        let ghost before = r@;
        r.push(w);
        assert(texts(r@) =~= texts(before).push(w@));
        k += 1;
        assert(texts(r@) =~= seqs(args@).subrange(i as int, k as int));
    }
    assert(seqs(args@).subrange(i as int, args.len() as int) =~= seqs(args@).skip(i as int));
    r
}

/// No words at all.
fn no_words() -> (r: Vec<String>)
    ensures
        texts(r@) == Seq::<Seq<char>>::empty(),
{
    let r: Vec<String> = Vec::new();
    assert(texts(r@) =~= Seq::<Seq<char>>::empty());
    r
}

/// A copy of a character vector.
fn copy_of(v: &Vec<char>) -> (r: Vec<char>)
    ensures
        r@ == v@,
{
    let r = sub_vec(v, 0, v.len());
    assert(r@ =~= v@);
    r
}

/// The command line from word `i` on.
fn read_top(args: &Vec<Vec<char>>, i: usize, o: Options) -> (r: Result<Cli, ParseError>)
    ensures
        result_view(r) == parse_top(seqs(args@), i as int, flags_of(o)),
    decreases args.len() + 1 - i,
{
    proof {
        reveal_strlit("--count=");
        reveal_strlit("--model=");
    }
    let ghost s = seqs(args@);
    if i >= args.len() {
        let r = Cli {
            task: Vec::new(),
            count: o.count,
            model: o.model,
            dry_run: o.dry_run,
            yes: o.yes,
            json: o.json,
            command: None,
        };
        assert(texts(r.task@) =~= Seq::<Seq<char>>::empty());
        return Ok(r);
    }
    let a = &args[i];
    assert(s[i as int] == a@);
    if eq_str(a, "--") {
        let task = words_from_index(args, i + 1);
        return Ok(
            Cli {
                task,
                count: o.count,
                model: o.model,
                dry_run: o.dry_run,
                yes: o.yes,
                json: o.json,
                command: None,
            },
        );
    }
    if eq_str(a, "--help") {
        return Err(ParseError::Help);
    }
    if eq_str(a, "--version") {
        return Err(ParseError::Version);
    }
    if eq_str(a, "--dry-run") {
        if o.dry_run {
            return Err(ParseError::Repeated(String::from_str("--dry-run")));
        }
        return read_top(args, i + 1, Options { dry_run: true, ..o });
    }
    if eq_str(a, "--yes") {
        if o.yes {
            return Err(ParseError::Repeated(String::from_str("--yes")));
        }
        return read_top(args, i + 1, Options { yes: true, ..o });
    }
    if eq_str(a, "--json") {
        if o.json {
            return Err(ParseError::Repeated(String::from_str("--json")));
        }
        return read_top(args, i + 1, Options { json: true, ..o });
    }
    let separate_count = eq_str(a, "--count");
    if separate_count || has_prefix_str(a, "--count=") {
        let value: Option<Vec<char>> = if separate_count {
            if i + 1 < args.len() && !is_flag_like(&args[i + 1]) {
                Some(copy_of(&args[i + 1]))
            } else {
                None
            }
        } else {
            Some(sub_vec(a, 8, a.len()))
        };
        proof {
            if separate_count && i + 1 < args.len() {
                assert(s[i + 1] == args@[i + 1]@);
            }
        }
        if o.count.is_some() {
            return Err(ParseError::Repeated(String::from_str("--count")));
        }
        return match value {
            None => Err(ParseError::MissingValue(String::from_str("--count"))),
            Some(v) => match count_of(&v) {
                Some(n) => read_top(
                    args,
                    if separate_count {
                        i + 2
                    } else {
                        i + 1
                    },
                    Options { count: Some(n), ..o },
                ),
                None => Err(ParseError::InvalidValue(String::from_str("--count"), string_of(&v))),
            },
        };
    }
    let separate_model = eq_str(a, "--model");
    if separate_model || has_prefix_str(a, "--model=") {
        let value: Option<Vec<char>> = if separate_model {
            if i + 1 < args.len() && !is_flag_like(&args[i + 1]) {
                Some(copy_of(&args[i + 1]))
            } else {
                None
            }
        } else {
            Some(sub_vec(a, 8, a.len()))
        };
        proof {
            if separate_model && i + 1 < args.len() {
                assert(s[i + 1] == args@[i + 1]@);
            }
        }
        if o.model.is_some() {
            return Err(ParseError::Repeated(String::from_str("--model")));
        }
        return match value {
            None => Err(ParseError::MissingValue(String::from_str("--model"))),
            Some(v) => read_top(
                args,
                if separate_model {
                    i + 2
                } else {
                    i + 1
                },
                Options { model: Some(string_of(&v)), ..o },
            ),
        };
    }
    if has_prefix_str(a, "--") {
        return Err(ParseError::UnknownArgument(string_of(a)));
    }
    if is_flag_like(a) {
        let next: Option<&Vec<char>> = if i + 1 < args.len() {
            Some(&args[i + 1])
        } else {
            None
        };
        proof {
            if i + 1 < args.len() {
                assert(s[i + 1] == args@[i + 1]@);
            }
        }
        return match read_bundle(a, 1, o, next) {
            Err(e) => Err(e),
            Ok((p, took)) => read_top(
                args,
                if took {
                    i + 2
                } else {
                    i + 1
                },
                p,
            ),
        };
    }
    if eq_str(a, "config") {
        return match read_config(args, i + 1) {
            Ok(c) => Ok(
                Cli {
                    task: no_words(),
                    count: o.count,
                    model: o.model,
                    dry_run: o.dry_run,
                    yes: o.yes,
                    json: o.json,
                    command: Some(c),
                },
            ),
            Err(e) => Err(e),
        };
    }
    if eq_str(a, "hook") {
        return match read_hook(args, i + 1, None, false, false) {
            Ok(c) => Ok(
                Cli {
                    task: no_words(),
                    count: o.count,
                    model: o.model,
                    dry_run: o.dry_run,
                    yes: o.yes,
                    json: o.json,
                    command: Some(c),
                },
            ),
            Err(e) => Err(e),
        };
    }
    if eq_str(a, "help") {
        return Err(ParseError::Help);
    }
    let task = words_from_index(args, i);
    Ok(
        Cli {
            task,
            count: o.count,
            model: o.model,
            dry_run: o.dry_run,
            yes: o.yes,
            json: o.json,
            command: None,
        },
    )
}

impl Cli {
    /// Parse a command line, the program's name first.
    pub fn try_parse_from(args: &[&str]) -> (r: Result<Cli, ParseError>)
        ensures
            result_view(r) == parse_args(args@.map_values(|a: &str| a@)),
    {
        let mut words: Vec<Vec<char>> = Vec::new();
        let mut k: usize = 0;
        while k < args.len()
            invariant
                k <= args.len(),
                seqs(words@) == args@.map_values(|a: &str| a@).take(k as int),
            decreases args.len() - k,
        {
            let w = chars_of(args[k]);
            proof {
                crate::text::lemma_seqs_push(words@, w);
            }
            words.push(w);
            k += 1;
            assert(seqs(words@) =~= args@.map_values(|a: &str| a@).take(k as int));
        }
        assert(args@.map_values(|a: &str| a@).take(args.len() as int) =~= args@.map_values(
            |a: &str| a@,
        ));
        let none = Options { count: None, model: None, dry_run: false, yes: false, json: false };
        read_top(&words, 1, none)
    }

    /// Parse a command line that is known to be well formed.
    pub fn parse_from(args: &[&str]) -> (r: Cli)
        requires
            parse_args(args@.map_values(|a: &str| a@)) is Ok,
        ensures
            Ok::<CliView, ParseErrorView>(cli_view(r)) == parse_args(args@.map_values(|a: &str| a@)),
    {
        match Cli::try_parse_from(args) {
            Ok(c) => c,
            Err(_) => {
                proof {
                    assert(false);
                }
                Cli {
                    task: Vec::new(),
                    count: None,
                    model: None,
                    dry_run: false,
                    yes: false,
                    json: false,
                    command: None,
                }
            },
        }
    }
}

/// Every spelling handed to the user as `plz hook <shell>` parses back as
/// that shell.
pub proof fn lemma_shell_args_round_trip(shell: Shell)
    ensures
        shell_named(shell_arg(shell)@) == Some(shell),
{
    reveal_strlit("zsh");
    reveal_strlit("bash");
    reveal_strlit("fish");
    reveal_strlit("powershell");
    reveal_strlit("pwsh");
    reveal_strlit("cmd");
    assert("zsh"@[0] == 'z' && "bash"@[0] == 'b' && "fish"@[0] == 'f' && "cmd"@[0] == 'c');
    assert("powershell"@[0] == 'p' && "powershell"@.len() == 10 && "pwsh"@.len() == 4);
}

/// The value of `--count` or `-n`, given as the next word, is consumed by the
/// option: parsing goes on after it with the count set, so the value is never
/// read as part of the task.
pub proof fn lemma_count_value_is_consumed(args: Seq<Seq<char>>, i: int, f: Flags, n: usize)
    requires
        0 <= i,
        i + 1 < args.len(),
        args[i] == "--count"@ || args[i] == "-n"@,
        f.count is None,
        !flag_like(args[i + 1]),
        count_value(args[i + 1]) == Some(n),
    ensures
        parse_top(args, i, f) == parse_top(args, i + 2, Flags { count: Some(n), ..f }),
{
    reveal_strlit("--");
    reveal_strlit("--help");
    reveal_strlit("--version");
    reveal_strlit("--dry-run");
    reveal_strlit("--yes");
    reveal_strlit("--json");
    reveal_strlit("--count");
    reveal_strlit("--count=");
    reveal_strlit("--model");
    reveal_strlit("--model=");
    reveal_strlit("-n");
    let a = args[i];
    if a == "-n"@ {
        assert(a.len() == 2 && a[0] == '-' && a[1] == 'n');
        assert(a != "--"@ && a != "--help"@ && a != "--version"@ && a != "--dry-run"@);
        assert(a != "--yes"@ && a != "--json"@ && a != "--count"@ && a != "--model"@);
        assert(!starts_with(a, "--count="@) && !starts_with(a, "--model="@));
        assert(!starts_with(a, "--"@)) by {
            if starts_with(a, "--"@) {
                assert(a.subrange(0, 2)[1] == a[1]);
            }
        }
        assert(flag_like(a));
        assert(a.skip(2) =~= Seq::<char>::empty());
        assert(bundle(a, 1, f, Some(args[i + 1])) == Bundle::Done(Flags { count: Some(n), ..f }, true));
    } else {
        assert(a.len() == 7);
        assert(a != "--"@ && a != "--help"@ && a != "--version"@ && a != "--dry-run"@);
        assert(a != "--yes"@ && a != "--json"@);
    }
}

/// The value of `--model`, given as the next word, is consumed the same way:
/// it names the model and is never read as part of the task.
pub proof fn lemma_model_value_is_consumed(args: Seq<Seq<char>>, i: int, f: Flags)
    requires
        0 <= i,
        i + 1 < args.len(),
        args[i] == "--model"@,
        f.model is None,
        !flag_like(args[i + 1]),
    ensures
        parse_top(args, i, f) == parse_top(args, i + 2, Flags { model: Some(args[i + 1]), ..f }),
{
    reveal_strlit("--");
    reveal_strlit("--help");
    reveal_strlit("--version");
    reveal_strlit("--dry-run");
    reveal_strlit("--yes");
    reveal_strlit("--json");
    reveal_strlit("--count");
    reveal_strlit("--count=");
    reveal_strlit("--model");
    let a = args[i];
    assert(a.len() == 7);
    assert(a != "--"@ && a != "--help"@ && a != "--version"@ && a != "--dry-run"@);
    assert(a != "--yes"@ && a != "--json"@);
    assert(a[2] == 'm' && "--count"@[2] == 'c');
    assert(!starts_with(a, "--count="@));
}

/// A task after `--count N` starts after the value: `plz --count 5 list files`
/// asks for five suggestions for the task `list files`.
pub proof fn lemma_the_task_follows_the_count(args: Seq<Seq<char>>, n: usize)
    requires
        args.len() >= 4,
        args[1] == "--count"@ || args[1] == "-n"@,
        !flag_like(args[2]),
        count_value(args[2]) == Some(n),
        !(args[3].len() > 0 && args[3][0] == '-'),
        args[3] != "config"@,
        args[3] != "hook"@,
        args[3] != "help"@,
    ensures
        parse_args(args) == Ok::<CliView, ParseErrorView>(
            CliView { task: args.skip(3), flags: Flags { count: Some(n), ..no_flags() }, command: None },
        ),
{
    lemma_count_value_is_consumed(args, 1, no_flags(), n);
    lemma_the_task_takes_the_rest(args, 3, Flags { count: Some(n), ..no_flags() });
}

/// Once a word that is neither an option nor a subcommand starts the task,
/// everything after it is part of the task — a flag there is read as a word
/// of the task, not used.
pub proof fn lemma_the_task_takes_the_rest(args: Seq<Seq<char>>, i: int, f: Flags)
    requires
        0 <= i < args.len(),
        !(args[i].len() > 0 && args[i][0] == '-'),
        args[i] != "config"@,
        args[i] != "hook"@,
        args[i] != "help"@,
    ensures
        parse_top(args, i, f) == Ok::<CliView, ParseErrorView>(
            CliView { task: args.skip(i), flags: f, command: None },
        ),
{
    reveal_strlit("--");
    reveal_strlit("--help");
    reveal_strlit("--version");
    reveal_strlit("--dry-run");
    reveal_strlit("--yes");
    reveal_strlit("--json");
    reveal_strlit("--count");
    reveal_strlit("--count=");
    reveal_strlit("--model");
    reveal_strlit("--model=");
    let a = args[i];
    assert forall|p: Seq<char>| p.len() > 0 && p[0] == '-' implies a != p && !starts_with(a, p) by {
        if starts_with(a, p) {
            assert(a.subrange(0, p.len() as int)[0] == a[0]);
        }
    }
    assert("--"@[0] == '-' && "--help"@[0] == '-' && "--version"@[0] == '-');
    assert("--dry-run"@[0] == '-' && "--yes"@[0] == '-' && "--json"@[0] == '-');
    assert("--count"@[0] == '-' && "--count="@[0] == '-' && "--model"@[0] == '-');
    assert("--model="@[0] == '-');
}

} // verus!
