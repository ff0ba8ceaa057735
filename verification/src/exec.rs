//! Running the chosen command.
//!
//! There are two paths. With the shell wrapper installed (`plz hook <shell>`)
//! the command is written to the file named by `PLZ_OUTPUT_FILE`, and the
//! wrapper runs it in the current shell — so `cd`, `export` and venv
//! activation work. Without the wrapper a child process runs it: that works out
//! of the box but cannot change the parent shell's state, which is how
//! processes work in the OS.
//!
//! The file itself is written, and the child launched, outside this library;
//! here is what goes into the file and how each shell is launched.

use vstd::prelude::*;
use crate::context::{
    kind_of_name, lemma_each_executable_names_its_shell, opt_text, program_name, shell_executables,
    Shell, ShellKind,
};
use crate::text::{chars_of, find_char, position_of, string_of, sub_vec, trim, trim_ws};

verus! {

/// What the wrapper should do with the command.
#[derive(Debug, Clone, Copy, PartialEq, Eq, Structural)]
pub enum Verb {
    /// Run it in the current shell
    Run,
    /// Insert it into the prompt buffer without running it
    Buffer,
}

/// How each verb is spelled in the protocol file.
pub open spec fn verb_text(verb: Verb) -> &'static str {
    match verb {
        Verb::Run => "run",
        Verb::Buffer => "buffer",
    }
}

impl Verb {
    pub fn as_str(&self) -> (r: &'static str)
        ensures
            r@ == verb_text(*self)@,
    {
        match self {
            Verb::Run => "run",
            Verb::Buffer => "buffer",
        }
    }
}

/// The protocol file named by the value of `PLZ_OUTPUT_FILE`, if it is set
/// and not empty.
pub fn output_file(value: Option<String>) -> (r: Option<String>)
    ensures
        match value {
            Some(v) => if v@.len() > 0 {
                r == Some(v)
            } else {
                r is None
            },
            None => r is None,
        },
{
    match value {
        Some(v) => if v.as_str().unicode_len() > 0 {
            Some(v)
        } else {
            None
        },
        None => None,
    }
}

/// Whether a shell wrapper asked for the command, from the value of
/// `PLZ_OUTPUT_FILE`: the variable is set and not empty, whether or not the
/// file it names can be reached from here.
pub fn integration_requested(output_file_var: Option<String>) -> (r: bool)
    ensures
        r == (output_file_var matches Some(v) && v@.len() > 0),
{
    output_file(output_file_var).is_some()
}

/// Whether the shell wrapper is active: it named a protocol file, and that
/// file can be opened for writing from this process (`reachable`, which the
/// caller finds out by opening it). Judged by what the protocol can actually
/// do rather than by the variable alone: under Cygwin the variable holds a
/// POSIX path that a native binary never sees, and a command written there
/// would be read by nobody.
pub fn integration_active(output_file_var: Option<String>, reachable: bool) -> (r: bool)
    ensures
        r == (output_file_var matches Some(v) && v@.len() > 0 && reachable),
{
    integration_requested(output_file_var) && reachable
}

/// Whether the shell can insert a command into its prompt buffer.
///
/// zsh has `print -z`, fish has `commandline -r`, PowerShell has
/// `PSConsoleReadLine::Insert`. bash has no real equivalent, and neither does
/// cmd.exe, so there `Tab` degrades into copying to the clipboard.
pub fn supports_buffer(shell: ShellKind) -> (r: bool)
    ensures
        r == (shell == ShellKind::Zsh || shell == ShellKind::Fish || shell
            == ShellKind::PowerShell),
{
    match shell {
        ShellKind::Zsh | ShellKind::Fish | ShellKind::PowerShell => true,
        _ => false,
    }
}

/// The contents of the protocol file: the verb on the first line, the
/// trimmed command on the rest.
pub open spec fn payload_text(verb: Verb, command: Seq<char>) -> Seq<char> {
    verb_text(verb)@ + "\n"@ + trim(command)
}

/// What `hand_off` writes for the wrapper to read.
pub fn payload(verb: Verb, command: &str) -> (r: String)
    ensures
        r@ == payload_text(verb, command@),
{
    let c = chars_of(command);
    let t = trim_ws(&c);
    let mut out = String::from_str(verb.as_str());
    out.append("\n");
    let body = string_of(&t);
    out.append(body.as_str());
    out
}

/// The verb a protocol line names.
pub open spec fn verb_named(line: Seq<char>) -> Option<Verb> {
    if trim(line) == "run"@ {
        Some(Verb::Run)
    } else if trim(line) == "buffer"@ {
        Some(Verb::Buffer)
    } else {
        None
    }
}

/// What the wrapper reads from the protocol file: a known verb on the first
/// line and a non-empty command after it, trimmed.
pub open spec fn protocol_of(payload: Seq<char>) -> Option<(Verb, Seq<char>)> {
    let first = match find_char(payload, '\n') {
        Some(k) => payload.take(k),
        None => payload,
    };
    let rest = match find_char(payload, '\n') {
        Some(k) => payload.skip(k + 1),
        None => seq![],
    };
    match verb_named(first) {
        Some(verb) => if trim(rest).len() > 0 {
            Some((verb, trim(rest)))
        } else {
            None
        },
        None => None,
    }
}

/// Parse the contents of the protocol file.
///
/// The shell wrapper does the parsing in production; this function reads
/// the format from the same side the wrapper sees it from.
pub fn parse_protocol(payload: &str) -> (r: Option<(Verb, String)>)
    ensures
        match r {
            Some((verb, command)) => protocol_of(payload@) == Some((verb, command@)),
            None => protocol_of(payload@) is None,
        },
{
    let p = chars_of(payload);
    let (first, rest) = match position_of(&p, '\n') {
        Some(k) => (sub_vec(&p, 0, k), sub_vec(&p, k + 1, p.len())),
        None => (sub_vec(&p, 0, p.len()), Vec::new()),
    };
    proof {
        match find_char(p@, '\n') {
            Some(k) => {
                assert(first@ =~= p@.take(k));
                assert(rest@ =~= p@.skip(k + 1));
            },
            None => {
                assert(first@ =~= p@);
                assert(rest@ =~= Seq::<char>::empty());
            },
        }
    }
    let verb_line = trim_ws(&first);
    let verb = if crate::text::eq_str(&verb_line, "run") {
        Verb::Run
    } else if crate::text::eq_str(&verb_line, "buffer") {
        Verb::Buffer
    } else {
        return None;
    };
    let command = trim_ws(&rest);
    if command.len() == 0 {
        return None;
    }
    Some((verb, string_of(&command)))
}

/// The program and the leading arguments that run a one-off command.
pub open spec fn invocation(kind: ShellKind, windows: bool) -> (Seq<char>, Seq<Seq<char>>) {
    match kind {
        ShellKind::Zsh => ("zsh"@, seq!["-c"@]),
        ShellKind::Bash => ("bash"@, seq!["-c"@]),
        ShellKind::Fish => ("fish"@, seq!["-c"@]),
        ShellKind::Nushell => ("nu"@, seq!["-c"@]),
        ShellKind::PowerShell => ("powershell"@, seq!["-NoProfile"@, "-Command"@]),
        ShellKind::Cmd => ("cmd"@, seq!["/C"@]),
        ShellKind::Posix | ShellKind::Other => if windows {
            ("cmd"@, seq!["/C"@])
        } else {
            ("sh"@, seq!["-c"@])
        },
    }
}

/// A command runs in the shell it was written for: for every shell with a
/// binary of its own, the child program is that shell's executable, read back
/// as a program name exactly as shell detection reads one. Only a shell plz
/// cannot launch by name (`Other`, and the POSIX family on Windows) falls back.
pub proof fn lemma_the_child_is_the_detected_shell(kind: ShellKind, windows: bool)
    requires
        kind != ShellKind::Other,
        kind == ShellKind::Posix ==> !windows,
    ensures
        kind_of_name(program_name(invocation(kind, windows).0)) == Some(kind),
{
    let table = shell_executables();
    let i: int = match kind {
        ShellKind::Zsh => 0,
        ShellKind::Bash => 1,
        ShellKind::Fish => 2,
        ShellKind::Nushell => 3,
        ShellKind::PowerShell => 6,
        ShellKind::Cmd => 7,
        _ => 8,
    };
    lemma_each_executable_names_its_shell(i);
    assert(table[i].0 == invocation(kind, windows).0 && table[i].1 == kind);
}

/// How to run a one-off command in a given shell: the program and the
/// arguments that go before the command. Shells without a flag of their own
/// fall back to `cmd /C` on Windows and `sh -c` elsewhere.
pub fn child_shell_invocation(kind: ShellKind, windows: bool) -> (r: (&'static str, Vec<&'static str>))
    ensures
        (r.0@, r.1@.map_values(|a: &'static str| a@)) == invocation(kind, windows),
{
    match kind {
        ShellKind::Zsh => ("zsh", vec!["-c"]),
        ShellKind::Bash => ("bash", vec!["-c"]),
        ShellKind::Fish => ("fish", vec!["-c"]),
        ShellKind::Nushell => ("nu", vec!["-c"]),
        // -NoProfile: a user profile may print banners and change the
        // environment, and we want a predictable one-off run.
        ShellKind::PowerShell => ("powershell", vec!["-NoProfile", "-Command"]),
        ShellKind::Cmd => ("cmd", vec!["/C"]),
        ShellKind::Posix | ShellKind::Other => {
            if windows {
                ("cmd", vec!["/C"])
            } else {
                ("sh", vec!["-c"])
            }
        },
    }
}

/// What the wrapper reads back is what plz wrote: the same verb and the
/// trimmed command — and nothing at all for a blank command, which the
/// wrapper takes as a cancellation.
pub proof fn lemma_protocol_round_trips(verb: Verb, command: Seq<char>)
    ensures
        protocol_of(payload_text(verb, command)) == (if trim(command).len() > 0 {
            Some((verb, trim(command)))
        } else {
            None
        }),
{
    reveal_strlit("run");
    reveal_strlit("buffer");
    reveal_strlit("\n");
    let s = payload_text(verb, command);
    let name = verb_text(verb)@;
    let n = name.len() as int;
    assert(s[n] == '\n');
    assert forall|k: int| 0 <= k < n implies s[k] != '\n' by {
        assert(s[k] == name[k]);
    }
    lemma_find_first_newline(s, 0, n);
    assert(s.take(n) =~= name);
    assert(s.skip(n + 1) =~= trim(command));
    crate::text::lemma_trim_of_word(name);
    crate::text::lemma_trim_idempotent(command);
}

/// The first newline at or after `i` is at `n` when none comes before it.
proof fn lemma_find_first_newline(s: Seq<char>, i: int, n: int)
    requires
        0 <= i <= n < s.len(),
        s[n] == '\n',
        forall|k: int| i <= k < n ==> s[k] != '\n',
    ensures
        crate::text::find_from(s, '\n', i) == Some(n),
    decreases n - i,
{
    if i < n {
        lemma_find_first_newline(s, i + 1, n);
    }
}

/// The program that runs a one-off command for the detected shell, and the
/// arguments before the command: the very binary the shell was found at when
/// that is known — on Windows several bashes (Cygwin, Git Bash, WSL's
/// launcher) can share a name, and they are not interchangeable — and the
/// shell's plain name otherwise.
pub fn child_program(shell: &Shell, windows: bool) -> (r: (String, Vec<&'static str>))
    ensures
        r.0@ == (match opt_text(shell.path) {
            Some(p) => p,
            None => invocation(shell.kind, windows).0,
        }),
        r.1@.map_values(|a: &'static str| a@) == invocation(shell.kind, windows).1,
{
    let (program, args) = child_shell_invocation(shell.kind, windows);
    match &shell.path {
        Some(p) => (p.clone(), args),
        None => (String::from_str(program), args),
    }
}

} // verus!
