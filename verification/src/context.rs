//! Where plz is running: the OS, the shell and its environment.
//!
//! What the process, the environment and the OS report is gathered outside
//! this library; here the reports are turned into the shell and the context
//! that the model is told about.

use vstd::prelude::*;
use crate::text::{
    after_last, after_last_of, ascii_lower, ascii_upper, is_ws, lemma_after_last_tail,
    lemma_trim_of_word,
    lemma_after_last_upper, lemma_lower_ignores_upper, lemma_trim_upper, chars2, chars_of, eq_str, string_of, strip_suffix,
    sub_vec, to_ascii_lower, trim, trim_ws, without_suffix, ends_with,
};

verus! {

/// The shell family. It decides both the command syntax we ask the model for
/// and how we later run the chosen command.
#[derive(Debug, Clone, Copy, PartialEq, Eq, Structural)]
pub enum ShellKind {
    Zsh,
    Bash,
    Fish,
    Nushell,
    PowerShell,
    Cmd,
    /// POSIX-compatible but not bash: sh, dash, ash
    Posix,
    Other,
}

/// The shell an executable name (already stripped and lowercased) stands for.
pub open spec fn kind_of_name(name: Seq<char>) -> Option<ShellKind> {
    if name == "zsh"@ {
        Some(ShellKind::Zsh)
    } else if name == "bash"@ {
        Some(ShellKind::Bash)
    } else if name == "fish"@ {
        Some(ShellKind::Fish)
    } else if name == "nu"@ || name == "nushell"@ {
        Some(ShellKind::Nushell)
    } else if name == "pwsh"@ || name == "powershell"@ {
        Some(ShellKind::PowerShell)
    } else if name == "cmd"@ {
        Some(ShellKind::Cmd)
    } else if name == "sh"@ || name == "dash"@ || name == "ash"@ || name == "ksh"@ {
        Some(ShellKind::Posix)
    } else if name == "elvish"@ || name == "xonsh"@ || name == "tcsh"@ || name == "csh"@ {
        Some(ShellKind::Other)
    } else {
        None
    }
}

/// The executable name of a path-like string: the part after the last `/`
/// or `\`, trimmed, ASCII-lowercased, without a trailing `.exe`.
pub open spec fn program_name(raw: Seq<char>) -> Seq<char> {
    let name = ascii_lower(trim(after_last(raw, seq!['/', '\\'])));
    match strip_suffix(name, ".exe"@) {
        Some(t) => t,
        None => name,
    }
}

/// The human-readable name of each shell, for the prompt.
pub open spec fn kind_label(kind: ShellKind) -> &'static str {
    match kind {
        ShellKind::Zsh => "zsh",
        ShellKind::Bash => "bash",
        ShellKind::Fish => "fish",
        ShellKind::Nushell => "nushell",
        ShellKind::PowerShell => "PowerShell",
        ShellKind::Cmd => "cmd.exe",
        ShellKind::Posix => "sh",
        ShellKind::Other => "unknown shell",
    }
}

impl ShellKind {
    /// Identify a shell from its executable name.
    ///
    /// The name arrives from several places (process name, `$SHELL`,
    /// `%COMSPEC%`), so strip the path and any `.exe` before comparing.
    pub fn from_program_name(raw: &str) -> (r: Option<ShellKind>)
        ensures
            r == kind_of_name(program_name(raw@)),
    {
        let chars = chars_of(raw);
        let last = after_last_of(&chars, &chars2('/', '\\'));
        let trimmed = trim_ws(&last);
        let lowered = to_ascii_lower(&trimmed);
        let name = without_suffix(&lowered, ".exe");
        if eq_str(&name, "zsh") {
            Some(ShellKind::Zsh)
        } else if eq_str(&name, "bash") {
            Some(ShellKind::Bash)
        } else if eq_str(&name, "fish") {
            Some(ShellKind::Fish)
        } else if eq_str(&name, "nu") || eq_str(&name, "nushell") {
            Some(ShellKind::Nushell)
        } else if eq_str(&name, "pwsh") || eq_str(&name, "powershell") {
            Some(ShellKind::PowerShell)
        } else if eq_str(&name, "cmd") {
            Some(ShellKind::Cmd)
        } else if eq_str(&name, "sh") || eq_str(&name, "dash") || eq_str(&name, "ash") || eq_str(
            &name,
            "ksh",
        ) {
            Some(ShellKind::Posix)
        } else if eq_str(&name, "elvish") || eq_str(&name, "xonsh") || eq_str(&name, "tcsh")
            || eq_str(&name, "csh") {
            Some(ShellKind::Other)
        } else {
            None
        }
    }

    /// Human-readable name for the prompt.
    pub fn label(&self) -> (r: &'static str)
        ensures
            r@ == kind_label(*self)@,
    {
        match self {
            ShellKind::Zsh => "zsh",
            ShellKind::Bash => "bash",
            ShellKind::Fish => "fish",
            ShellKind::Nushell => "nushell",
            ShellKind::PowerShell => "PowerShell",
            ShellKind::Cmd => "cmd.exe",
            ShellKind::Posix => "sh",
            ShellKind::Other => "unknown shell",
        }
    }
}

/// The separators of a path: `/` and `\\`.
pub open spec fn path_separators() -> Seq<char> {
    seq!['/', '\\']
}

/// A directory in front of a program's name does not change which shell it
/// names: `/usr/local/bin/zsh` and `C:\\Windows\\cmd.exe` read as their last part.
pub proof fn lemma_directory_is_ignored(dir: Seq<char>, sep: char, name: Seq<char>)
    requires
        sep == '/' || sep == '\\',
        forall|k: int| 0 <= k < name.len() ==> !path_separators().contains(#[trigger] name[k]),
    ensures
        program_name(dir.push(sep) + name) == program_name(name),
        kind_of_name(program_name(dir.push(sep) + name)) == kind_of_name(program_name(name)),
{
    let set = path_separators();
    let full = dir.push(sep) + name;
    let j: int = dir.len() as int + 1;
    assert forall|k: int| j <= k < full.len() implies !set.contains(#[trigger] full[k]) by {
        assert(full[k] == name[k - j]);
    }
    lemma_after_last_tail(full, set, j);
    assert(full.take(j) =~= dir.push(sep));
    assert(full.subrange(j, full.len() as int) =~= name);
    assert(set.contains(sep)) by {
        if sep == '/' {
            assert(set[0] == sep);
        } else {
            assert(set[1] == sep);
        }
    }
    assert(after_last(dir.push(sep), set) =~= Seq::<char>::empty());
    assert(Seq::<char>::empty() + name =~= name);
    let e = Seq::<char>::empty();
    assert forall|k: int| 0 <= k < name.len() implies !set.contains(#[trigger] name[k]) by {}
    lemma_after_last_tail(name, set, 0);
    assert(name.take(0) =~= e);
    assert(name.subrange(0, name.len() as int) =~= name);
    assert(e + name =~= name);
}

/// ASCII case does not change which shell a name stands for: `ZSH`, `Zsh`
/// and `zsh` are one shell, and so are `CMD.EXE` and `cmd.exe`.
pub proof fn lemma_ascii_case_is_ignored(raw: Seq<char>)
    ensures
        program_name(ascii_upper(raw)) == program_name(raw),
        kind_of_name(program_name(ascii_upper(raw))) == kind_of_name(program_name(raw)),
{
    let set = path_separators();
    assert forall|k: int| 0 <= k < set.len() implies !('a' <= #[trigger] set[k] && set[k] <= 'z')
        && !('A' <= set[k] && set[k] <= 'Z') by {
        if k == 0 {
            assert(set[k] == '/');
        } else {
            assert(set[k] == '\\');
        }
    }
    lemma_after_last_upper(raw, set);
    let tail = after_last(raw, set);
    lemma_trim_upper(tail);
    lemma_lower_ignores_upper(trim(tail));
    assert(seq!['/', '\\'] == set);
}

/// The program name of a bare word (no separator, no whitespace at its ends)
/// is the word lowercased, without `.exe`.
proof fn lemma_program_name_of_word(w: Seq<char>)
    requires
        w.len() > 0,
        !is_ws(w[0]),
        !is_ws(w.last()),
        forall|k: int| 0 <= k < w.len() ==> !path_separators().contains(#[trigger] w[k]),
    ensures
        program_name(w) == (match strip_suffix(ascii_lower(w), ".exe"@) {
            Some(t) => t,
            None => ascii_lower(w),
        }),
{
    let set = path_separators();
    lemma_after_last_tail(w, set, 0);
    assert(w.take(0) =~= Seq::<char>::empty());
    assert(w.subrange(0, w.len() as int) =~= w);
    assert(Seq::<char>::empty() + w =~= w);
    assert(seq!['/', '\\'] == set);
    lemma_trim_of_word(w);
}

/// Each shell's label, read as a program name, names that shell again; the
/// label of `Other` is prose and names none.
pub proof fn lemma_label_reads_back(kind: ShellKind)
    requires
        kind != ShellKind::Other,
    ensures
        kind_of_name(program_name(kind_label(kind)@)) == Some(kind),
{
    reveal_strlit("zsh");
    reveal_strlit("bash");
    reveal_strlit("fish");
    reveal_strlit("nu");
    reveal_strlit("nushell");
    reveal_strlit("pwsh");
    reveal_strlit("powershell");
    reveal_strlit("PowerShell");
    reveal_strlit("cmd");
    reveal_strlit("cmd.exe");
    reveal_strlit("sh");
    reveal_strlit(".exe");
    let w = kind_label(kind)@;
    let set = path_separators();
    assert forall|k: int| 0 <= k < w.len() implies !set.contains(#[trigger] w[k]) by {
        assert(set[0] == '/' && set[1] == '\\' && set.len() == 2);
    }
    lemma_program_name_of_word(w);
    let low = ascii_lower(w);
    match kind {
        ShellKind::Zsh => {
            assert(low =~= "zsh"@);
            assert(strip_suffix(low, ".exe"@) is None);
        },
        ShellKind::Bash => {
            assert(low =~= "bash"@);
            assert(low.subrange(0, 4)[0] != ".exe"@[0]);
            assert(low != "zsh"@);
        },
        ShellKind::Fish => {
            assert(low =~= "fish"@);
            assert(low.subrange(0, 4)[0] != ".exe"@[0]);
            assert(low[0] != "bash"@[0]);
        },
        ShellKind::Nushell => {
            assert(low =~= "nushell"@);
            assert(low.subrange(3, 7)[0] != ".exe"@[0]);
        },
        ShellKind::PowerShell => {
            assert(low =~= "powershell"@);
            assert(low.subrange(6, 10)[0] != ".exe"@[0]);
        },
        ShellKind::Cmd => {
            assert(low =~= "cmd.exe"@);
            assert(low.subrange(3, 7) =~= ".exe"@);
            assert(low.take(3) =~= "cmd"@);
            assert(strip_suffix(low, ".exe"@) == Some(low.take(3)));
            assert(program_name(w) == "cmd"@);
            assert("cmd"@[0] != "zsh"@[0]);
        },
        ShellKind::Posix => {
            assert(low =~= "sh"@);
            assert(low[0] != "nu"@[0]);
        },
        ShellKind::Other => {},
    }
}

/// The executables of the shells plz knows, each with the shell it is: the
/// names the process tree, `$SHELL` and `%COMSPEC%` hand out.
pub open spec fn shell_executables() -> Seq<(Seq<char>, ShellKind)> {
    seq![
        ("zsh"@, ShellKind::Zsh),
        ("bash"@, ShellKind::Bash),
        ("fish"@, ShellKind::Fish),
        ("nu"@, ShellKind::Nushell),
        ("nushell"@, ShellKind::Nushell),
        ("pwsh"@, ShellKind::PowerShell),
        ("powershell"@, ShellKind::PowerShell),
        ("cmd"@, ShellKind::Cmd),
        ("sh"@, ShellKind::Posix),
        ("dash"@, ShellKind::Posix),
        ("ash"@, ShellKind::Posix),
        ("ksh"@, ShellKind::Posix),
    ]
}

/// A lowercase word without whitespace, separators or `.exe` is its own
/// program name, and so is it with `.exe` after it.
proof fn lemma_plain_word_names_itself(w: Seq<char>)
    requires
        w.len() > 0,
        forall|k: int| 0 <= k < w.len() ==> 'a' <= #[trigger] w[k] && w[k] <= 'z',
    ensures
        program_name(w) == w,
        program_name(w + ".exe"@) == w,
{
    reveal_strlit(".exe");
    let set = path_separators();
    assert(set[0] == '/' && set[1] == '\\' && set.len() == 2);
    assert(ascii_lower(w) =~= w);
    assert(!ends_with(w, ".exe"@)) by {
        if w.len() >= 4 {
            assert(w.subrange(w.len() - 4, w.len() as int)[0] != ".exe"@[0]);
        }
    }
    lemma_program_name_of_word(w);
    let x = w + ".exe"@;
    assert forall|k: int| 0 <= k < x.len() implies !set.contains(#[trigger] x[k]) by {
        if k < w.len() {
            assert(x[k] == w[k]);
        } else {
            assert(x[k] == ".exe"@[k - w.len()]);
        }
    }
    assert(x[0] == w[0]);
    assert(x.last() == 'e');
    lemma_program_name_of_word(x);
    assert forall|k: int| 0 <= k < x.len() implies #[trigger] ascii_lower(x)[k] == x[k] by {
        if k < w.len() {
            assert(x[k] == w[k]);
        } else {
            assert(x[k] == ".exe"@[k - w.len()]);
        }
    }
    assert(ascii_lower(x) =~= x);
    assert(x.subrange(x.len() - 4, x.len() as int) =~= ".exe"@);
    assert(x.take(x.len() - 4) =~= w);
}

/// Every known shell executable is recognised as its shell, bare or with
/// `.exe`: `nu` is nushell just as `nushell` is, and `pwsh.exe` is
/// PowerShell.
pub proof fn lemma_each_executable_names_its_shell(i: int)
    requires
        0 <= i < shell_executables().len(),
    ensures
        kind_of_name(program_name(shell_executables()[i].0)) == Some(shell_executables()[i].1),
        kind_of_name(program_name(shell_executables()[i].0 + ".exe"@)) == Some(shell_executables()[i].1),
{
    reveal_strlit("zsh");
    reveal_strlit("bash");
    reveal_strlit("fish");
    reveal_strlit("nu");
    reveal_strlit("nushell");
    reveal_strlit("pwsh");
    reveal_strlit("powershell");
    reveal_strlit("cmd");
    reveal_strlit("sh");
    reveal_strlit("dash");
    reveal_strlit("ash");
    reveal_strlit("ksh");
    let w = shell_executables()[i].0;
    assert forall|k: int| 0 <= k < w.len() implies 'a' <= #[trigger] w[k] && w[k] <= 'z' by {}
    lemma_plain_word_names_itself(w);
    assert(w[0] == "zsh"@[0] ==> w.len() == 3);
    assert("zsh"@[0] == 'z' && "bash"@[0] == 'b' && "fish"@[0] == 'f' && "nu"@[0] == 'n');
    assert("nushell"@[0] == 'n' && "pwsh"@[0] == 'p' && "powershell"@[0] == 'p');
    assert("cmd"@[0] == 'c' && "sh"@[0] == 's' && "dash"@[0] == 'd' && "ash"@[0] == 'a');
    assert("ksh"@[0] == 'k');
}

/// The text of an optional string.
pub open spec fn opt_text(o: Option<String>) -> Option<Seq<char>> {
    match o {
        Some(s) => Some(s@),
        None => None,
    }
}

/// A detected shell along with any environment qualifier.
#[derive(Debug, Clone)]
pub struct Shell {
    pub kind: ShellKind,
    /// The name the shell was found under (`zsh`, `pwsh`, ...)
    pub name: String,
    /// A qualifier such as "MSYS2/Git Bash"; it changes paths and quoting
    pub environment: Option<String>,
    /// The absolute path of the shell binary, when we know it. Used to run the
    /// very shell plz was launched from instead of whatever the PATH resolves
    /// to: on Windows several bashes (Cygwin, Git Bash, MSYS2) can share a
    /// PATH and they are not interchangeable.
    pub path: Option<String>,
}

/// How a shell reads in the prompt and in `plz config show`: a recognised
/// shell shows its normalized name, an unknown one the name it was found
/// under, then the environment in parentheses.
pub open spec fn shell_text(kind: ShellKind, name: Seq<char>, environment: Option<Seq<char>>) -> Seq<
    char,
> {
    let base = match kind {
        ShellKind::Other => name,
        _ => kind_label(kind)@,
    };
    match environment {
        Some(env) => base + " ("@ + env + ")"@,
        None => base,
    }
}

impl Shell {
    pub fn new(kind: ShellKind, name: String) -> (r: Self)
        ensures
            r.kind == kind,
            r.name@ == name@,
            r.environment is None,
            r.path is None,
    {
        Shell { kind, name, environment: None, path: None }
    }

    pub fn unknown() -> (r: Self)
        ensures
            r.kind == ShellKind::Other,
            r.name@ == "unknown"@,
            r.environment is None,
            r.path is None,
    {
        Shell { kind: ShellKind::Other, name: String::from_str("unknown"), environment: None, path: None }
    }

    /// The shell as the model is told about it.
    pub fn display(&self) -> (r: String)
        ensures
            r@ == shell_text(self.kind, self.name@, opt_text(self.environment)),
    {
        let mut out = match self.kind {
            ShellKind::Other => self.name.clone(),
            kind => String::from_str(kind.label()),
        };
        match &self.environment {
            Some(env) => {
                out.append(" (");
                out.append(env.as_str());
                out.append(")");
            },
            None => {},
        }
        out
    }
}

/// Everything we tell the model about where it is running.
#[derive(Debug, Clone)]
pub struct Context {
    pub os: String,
    pub os_version: Option<String>,
    pub arch: String,
    pub shell: Shell,
    pub cwd: Option<String>,
}

/// The OS version without repeating the OS name: a leading `os` (compared
/// ignoring ASCII case) is dropped when something is left after it.
pub open spec fn os_version_text(version: Seq<char>, os: Seq<char>) -> Seq<char> {
    let trimmed = trim(version);
    if trimmed.len() >= os.len() && ascii_lower(trimmed.take(os.len() as int)) == ascii_lower(os)
        && trim(trimmed.skip(os.len() as int)).len() > 0 {
        trim(trimmed.skip(os.len() as int))
    } else {
        trimmed
    }
}

/// The OS version without repeating the OS name.
///
/// `long_os_version()` returns strings like "macOS 26.5.2 Tahoe"; next to the
/// `os` field that would read "macOS macOS 26.5.2 Tahoe". The prefix is
/// compared character by character, so a version that starts with a
/// multi-byte character is compared rather than cut mid-character.
pub fn strip_os_prefix(version: &str, os: &str) -> (r: String)
    ensures
        r@ == os_version_text(version@, os@),
{
    let v = chars_of(version);
    let o = chars_of(os);
    let trimmed = trim_ws(&v);
    if trimmed.len() >= o.len() {
        let head = sub_vec(&trimmed, 0, o.len());
        let head_lower = to_ascii_lower(&head);
        let os_lower = to_ascii_lower(&o);
        assert(head@ =~= trimmed@.take(o@.len() as int));
        if crate::text::same(&head_lower, &os_lower) {
            let tail = sub_vec(&trimmed, o.len(), trimmed.len());
            assert(tail@ =~= trimmed@.skip(o@.len() as int));
            let rest = trim_ws(&tail);
            if rest.len() > 0 {
                return string_of(&rest);
            }
        }
    }
    string_of(&trimmed)
}

/// Whether an executable can stand in for the shell we recognised by name.
///
/// The process name and the executable need not agree. A multi-call binary
/// such as busybox runs under the name `sh` but lives at `/bin/busybox`, and it
/// picks its applet from `argv[0]` — so `/bin/busybox -c ...` fails where
/// `sh -c ...` works. In such cases the plain name is the safe one.
pub fn path_matches_kind(path: &str, kind: ShellKind) -> (r: bool)
    ensures
        r == (kind_of_name(program_name(path@)) == Some(kind)),
{
    match ShellKind::from_program_name(path) {
        Some(k) => k == kind,
        None => false,
    }
}

/// The environment qualifier of an MSYS2/Cygwin session, from the value of
/// `MSYSTEM` and whether `CYGWIN` is set.
pub open spec fn environment_note(msystem: Option<Seq<char>>, cygwin: bool) -> Option<Seq<char>> {
    match msystem {
        Some(m) if trim(m).len() > 0 => Some("MSYS2/Git Bash, MSYSTEM="@ + m),
        _ => if cygwin {
            Some("Cygwin"@)
        } else {
            None
        },
    }
}

/// Flag an MSYS2/Cygwin environment.
///
/// On Windows such a bash looks like any other bash, but it lives in a
/// POSIX-like filesystem (`/c/Users/...`) and does not understand Windows
/// paths in arguments — the model has to be told this explicitly.
pub fn with_windows_environment(shell: Shell, msystem: Option<String>, cygwin: bool) -> (r: Shell)
    ensures
        r.kind == shell.kind,
        r.name@ == shell.name@,
        r.path == shell.path,
        opt_text(r.environment) == (match environment_note(opt_text(msystem), cygwin) {
            Some(note) => Some(note),
            None => opt_text(shell.environment),
        }),
{
    let mut shell = shell;
    if let Some(m) = msystem {
        let mv = chars_of(m.as_str());
        let t = trim_ws(&mv);
        if t.len() > 0 {
            let mut note = String::from_str("MSYS2/Git Bash, MSYSTEM=");
            note.append(m.as_str());
            shell.environment = Some(note);
            return shell;
        }
    }
    if cygwin {
        shell.environment = Some(String::from_str("Cygwin"));
    }
    shell
}

/// The shell a declared or observed name stands for, kept under that name.
pub open spec fn named_shell(name: Option<Seq<char>>) -> Option<ShellKind> {
    match name {
        Some(n) => kind_of_name(program_name(n)),
        None => None,
    }
}

fn shell_named(name: Option<String>) -> (r: Option<Shell>)
    ensures
        r is Some <==> named_shell(opt_text(name)) is Some,
        r matches Some(s) ==> Some(s.kind) == named_shell(opt_text(name)) && Some(s.name@)
            == opt_text(name) && s.environment is None && s.path is None,
{
    match name {
        Some(n) => match ShellKind::from_program_name(n.as_str()) {
            Some(kind) => Some(Shell::new(kind, n)),
            None => None,
        },
        None => None,
    }
}

/// Decide the shell plz was launched from.
///
/// The reports are tried from most to least reliable:
///
/// 1. `declared`, the value of `PLZ_SHELL_INTEGRATION` — the wrapper states
///    its own type.
/// 2. `from_process_tree`, what walking up the process tree found: `$SHELL`
///    names the *login* shell rather than the one in use.
/// 3. `shell_var` (`$SHELL`), then `comspec` (`%COMSPEC%`) as a last resort.
///
/// Whatever is chosen gets the MSYS2/Cygwin qualifier from `msystem` and
/// `cygwin`.
pub fn detect_shell(
    declared: Option<String>,
    from_process_tree: Option<Shell>,
    shell_var: Option<String>,
    comspec: Option<String>,
    msystem: Option<String>,
    cygwin: bool,
) -> (r: Shell)
    ensures
        ({
            let base_kind = if named_shell(opt_text(declared)) is Some {
                named_shell(opt_text(declared))->0
            } else if from_process_tree is Some {
                from_process_tree->0.kind
            } else if named_shell(opt_text(shell_var)) is Some {
                named_shell(opt_text(shell_var))->0
            } else if named_shell(opt_text(comspec)) is Some {
                named_shell(opt_text(comspec))->0
            } else {
                ShellKind::Other
            };
            let base_name = if named_shell(opt_text(declared)) is Some {
                opt_text(declared)->0
            } else if from_process_tree is Some {
                from_process_tree->0.name@
            } else if named_shell(opt_text(shell_var)) is Some {
                opt_text(shell_var)->0
            } else if named_shell(opt_text(comspec)) is Some {
                opt_text(comspec)->0
            } else {
                "unknown"@
            };
            let base_path = if named_shell(opt_text(declared)) is None && from_process_tree is Some {
                from_process_tree->0.path
            } else {
                None
            };
            let base_env = if named_shell(opt_text(declared)) is None && from_process_tree is Some {
                opt_text(from_process_tree->0.environment)
            } else {
                None
            };
            &&& r.kind == base_kind
            &&& r.name@ == base_name
            &&& r.path == base_path
            &&& opt_text(r.environment) == (match environment_note(opt_text(msystem), cygwin) {
                Some(note) => Some(note),
                None => base_env,
            })
        }),
{
    let base = match shell_named(declared) {
        Some(s) => s,
        None => match from_process_tree {
            Some(s) => s,
            None => match shell_named(shell_var) {
                Some(s) => s,
                None => match shell_named(comspec) {
                    Some(s) => s,
                    None => Shell::unknown(),
                },
            },
        },
    };
    with_windows_environment(base, msystem, cygwin)
}

/// The OS as the model is told about it: the three common platforms get
/// their usual spelling, any other is named as Rust names it.
pub open spec fn os_display(os: Seq<char>) -> Seq<char> {
    if os == "macos"@ {
        "macOS"@
    } else if os == "windows"@ {
        "Windows"@
    } else if os == "linux"@ {
        "Linux"@
    } else {
        os
    }
}

/// The display name of the OS that `std::env::consts::OS` names.
pub fn os_name(os: &str) -> (r: String)
    ensures
        r@ == os_display(os@),
{
    let o = chars_of(os);
    if eq_str(&o, "macos") {
        String::from_str("macOS")
    } else if eq_str(&o, "windows") {
        String::from_str("Windows")
    } else if eq_str(&o, "linux") {
        String::from_str("Linux")
    } else {
        String::from_str(os)
    }
}

/// How far up the process tree to look: the shell is normally one to three
/// steps up, and a cycle in the tree (possible in theory through PID reuse)
/// must not hang plz.
pub const ANCESTOR_DEPTH: usize = 12;

/// The first of the nearest ancestors, by name, that is a shell.
pub open spec fn first_shell(names: Seq<Seq<char>>, i: int) -> Option<(int, ShellKind)>
    decreases names.len() - i,
{
    if i < 0 || i >= names.len() || i >= ANCESTOR_DEPTH {
        None
    } else {
        match kind_of_name(program_name(names[i])) {
            Some(kind) => Some((i, kind)),
            None => first_shell(names, i + 1),
        }
    }
}

/// Which of the process's ancestors, nearest first, is the shell it was
/// launched from: the position of the first one whose name is a shell's,
/// among the nearest twelve.
pub fn shell_ancestor(names: &Vec<String>) -> (r: Option<(usize, ShellKind)>)
    ensures
        match r {
            Some((i, kind)) => first_shell(names@.map_values(|n: String| n@), 0) == Some(
                (i as int, kind),
            ),
            None => first_shell(names@.map_values(|n: String| n@), 0) is None,
        },
{
    let ghost all = names@.map_values(|n: String| n@);
    let mut i: usize = 0;
    while i < names.len() && i < ANCESTOR_DEPTH
        invariant
            all == names@.map_values(|n: String| n@),
            first_shell(all, 0) == first_shell(all, i as int),
        decreases names.len() - i,
    {
        match ShellKind::from_program_name(names[i].as_str()) {
            Some(kind) => {
                return Some((i, kind));
            },
            None => {},
        }
        i += 1;
    }
    None
}

/// Whether the executable of a shell process can be handed to the OS in
/// place of the shell's name: it is a file, and its own name is the shell's.
pub fn vouched_path(exe: &str, kind: ShellKind, is_file: bool) -> (r: bool)
    ensures
        r == (is_file && kind_of_name(program_name(exe@)) == Some(kind)),
{
    is_file && path_matches_kind(exe, kind)
}

} // verus!
