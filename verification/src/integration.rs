//! Generating the shell wrappers (`plz hook <shell>`).
//!
//! A wrapper exists for exactly one reason: to run the command in the *current*
//! shell rather than a child process. Only then do `cd`, `export`, `source` and
//! venv activation change the session the user is sitting in — a child process
//! cannot hand its state back to its parent, which is an OS constraint.

use vstd::prelude::*;
use crate::cli::Shell;
use crate::context::ShellKind;

verus! {

/// The zsh wrapper.
pub const ZSH: &'static str = r#"# plz shell integration for zsh. Load it with: eval "$(plz hook zsh)"
#
# The function shadows the binary so the chosen command runs in this shell:
# the binary writes a verb and the command to a temporary file, and the
# function reads it back. `command plz` reaches the binary, not the function.
plz() {
  local out code verb cmd
  out="$(mktemp "${TMPDIR:-/tmp}/plz.XXXXXX")" || return 1
  PLZ_OUTPUT_FILE="$out" PLZ_SHELL_INTEGRATION=zsh command plz "$@"
  code=$?
  if [[ -s "$out" ]]; then
    verb="$(head -n 1 -- "$out")"
    cmd="$(tail -n +2 -- "$out")"
  fi
  rm -f -- "$out"
  case "$verb" in
    run)
      print -s -- "$cmd"
      eval "$cmd"
      return $?
      ;;
    buffer)
      print -z -- "$cmd"
      return 0
      ;;
  esac
  return $code
}
"#;

/// The bash wrapper.
pub const BASH: &'static str = r#"# plz shell integration for bash. Load it with: eval "$(plz hook bash)"
#
# The function shadows the binary so the chosen command runs in this shell:
# the binary writes a verb and the command to a temporary file, and the
# function reads it back. `command plz` reaches the binary, not the function.
plz() {
  local out code verb cmd
  out="$(mktemp "${TMPDIR:-/tmp}/plz.XXXXXX")" || return 1
  PLZ_OUTPUT_FILE="$out" PLZ_SHELL_INTEGRATION=bash command plz "$@"
  code=$?
  verb=""
  if [[ -s "$out" ]]; then
    verb="$(head -n 1 -- "$out")"
    cmd="$(tail -n +2 -- "$out")"
  fi
  rm -f -- "$out"
  case "$verb" in
    run)
      history -s -- "$cmd"
      eval "$cmd"
      return $?
      ;;
    buffer)
      # bash has no prompt buffer to fill; show the command instead.
      printf '%s\n' "$cmd"
      return 0
      ;;
  esac
  return $code
}
"#;

/// The fish wrapper.
pub const FISH: &'static str = r#"# plz shell integration for fish. Load it with: plz hook fish | source
#
# The function shadows the binary so the chosen command runs in this shell:
# the binary writes a verb and the command to a temporary file, and the
# function reads it back. `command plz` reaches the binary, not the function.
function plz --description 'Describe a task, get a command'
    set -l out (mktemp (string join / (set -q TMPDIR; and echo $TMPDIR; or echo /tmp) plz.XXXXXX)); or return 1
    env PLZ_OUTPUT_FILE=$out PLZ_SHELL_INTEGRATION=fish command plz $argv
    set -l code $status
    set -l verb ""
    set -l cmd ""
    if test -s $out
        set verb (head -n 1 -- $out)
        set cmd (tail -n +2 -- $out | string collect)
    end
    rm -f -- $out
    switch $verb
        case run
            eval $cmd
            return $status
        case buffer
            commandline -r -- $cmd
            return 0
    end
    return $code
end
"#;

/// The PowerShell wrapper.
pub const POWERSHELL: &'static str = r#"# plz shell integration for PowerShell. Load it with:
#   plz hook powershell | Out-String | Invoke-Expression
#
# The function shadows the binary so the chosen command runs in this session:
# the binary writes a verb and the command to a temporary file, and the
# function reads it back. The binary is looked up as an Application, so the
# function never calls itself.
function plz {
    $out = [System.IO.Path]::GetTempFileName()
    $binary = Get-Command plz -CommandType Application | Select-Object -First 1
    $env:PLZ_OUTPUT_FILE = $out
    $env:PLZ_SHELL_INTEGRATION = 'powershell'
    try {
        & $binary.Source @args
        $code = $LASTEXITCODE
    } finally {
        Remove-Item Env:PLZ_OUTPUT_FILE -ErrorAction SilentlyContinue
        Remove-Item Env:PLZ_SHELL_INTEGRATION -ErrorAction SilentlyContinue
    }
    $lines = @(Get-Content -LiteralPath $out -Encoding UTF8 -ErrorAction SilentlyContinue)
    Remove-Item -LiteralPath $out -Force -ErrorAction SilentlyContinue
    if ($lines.Count -ge 2) {
        $verb = $lines[0].Trim()
        $cmd = ($lines[1..($lines.Count - 1)] -join "`n")
        switch ($verb) {
            'run' {
                [Microsoft.PowerShell.PSConsoleReadLine]::AddToHistory($cmd)
                Invoke-Expression $cmd
                return
            }
            'buffer' {
                # PSReadLine clears its buffer when the next prompt starts, so
                # the command also goes into the history, where Up recalls it.
                [Microsoft.PowerShell.PSConsoleReadLine]::AddToHistory($cmd)
                [Microsoft.PowerShell.PSConsoleReadLine]::Insert($cmd)
                return
            }
        }
    }
    $global:LASTEXITCODE = $code
}
"#;

/// There is no wrapper for cmd.exe.
///
/// cmd has no functions, and a `doskey` macro can neither branch, nor read a
/// file, nor execute an arbitrary string — that is, it can do none of the things
/// a wrapper exists for. Explaining that is more honest than shipping a script
/// that silently does nothing.
pub const CMD_EXPLANATION: &'static str = r#"@rem There is no wrapper for cmd.exe.
@rem
@rem cmd.exe has no functions, and doskey macros can neither branch nor read the
@rem result file, so they cannot run the command in the current session.
@rem
@rem plz works in cmd.exe without a wrapper: the command runs in a child
@rem process. Only commands that change the session's own state (cd, set) have
@rem no effect; run those by hand. plz warns you when that happens.
@rem
@rem For the full experience, use PowerShell instead:
@rem     plz hook powershell --install
"#;

/// The line each shell's startup file gets.
pub open spec fn startup_line_of(shell: Shell) -> Option<&'static str> {
    match shell {
        Shell::Zsh => Some(r#"eval "$(plz hook zsh)""#),
        Shell::Bash => Some(r#"eval "$(plz hook bash)""#),
        Shell::Fish => Some("plz hook fish | source"),
        Shell::Powershell => Some("plz hook powershell | Out-String | Invoke-Expression"),
        Shell::Cmd => None,
    }
}

/// The single line that goes into the shell's startup file.
///
/// It calls the binary rather than embedding the script, so the wrapper is
/// regenerated at every shell start and follows the binary through upgrades. A
/// copy pasted into the startup file would go stale instead.
pub fn startup_line(shell: Shell) -> (r: Option<&'static str>)
    ensures
        r == startup_line_of(shell),
{
    match shell {
        Shell::Zsh => Some(r#"eval "$(plz hook zsh)""#),
        Shell::Bash => Some(r#"eval "$(plz hook bash)""#),
        Shell::Fish => Some("plz hook fish | source"),
        // Out-String is not optional: without it each line of the script
        // arrives as a separate pipeline object and Invoke-Expression sees
        // only the first one.
        Shell::Powershell => Some("plz hook powershell | Out-String | Invoke-Expression"),
        Shell::Cmd => None,
    }
}

/// The text `plz hook <shell>` prints for each shell.
pub open spec fn script_of(shell: Shell) -> &'static str {
    match shell {
        Shell::Zsh => ZSH,
        Shell::Bash => BASH,
        Shell::Fish => FISH,
        Shell::Powershell => POWERSHELL,
        Shell::Cmd => CMD_EXPLANATION,
    }
}

/// The text `plz hook <shell>` prints to stdout.
pub fn script(shell: Shell) -> (r: &'static str)
    ensures
        r == script_of(shell),
{
    match shell {
        Shell::Zsh => ZSH,
        Shell::Bash => BASH,
        Shell::Fish => FISH,
        Shell::Powershell => POWERSHELL,
        Shell::Cmd => CMD_EXPLANATION,
    }
}

/// How to add the startup line by hand, for each shell.
pub open spec fn install_hint_of(shell: Shell) -> &'static str {
    match shell {
        Shell::Zsh => "echo 'eval \"$(plz hook zsh)\"' >> ~/.zshrc",
        Shell::Bash => "echo 'eval \"$(plz hook bash)\"' >> ~/.bashrc",
        Shell::Fish => "echo 'plz hook fish | source' > ~/.config/fish/conf.d/plz.fish",
        Shell::Powershell => "Add-Content $PROFILE 'plz hook powershell | Out-String | Invoke-Expression'",
        Shell::Cmd => "a cmd.exe wrapper is not possible — see the note above",
    }
}

/// How to add the startup line by hand. Printed to stderr so it stays out of
/// `eval`; `plz hook <shell> --install` does the same thing without the typing.
pub fn install_hint(shell: Shell) -> (r: &'static str)
    ensures
        r == install_hint_of(shell),
{
    match shell {
        Shell::Zsh => "echo 'eval \"$(plz hook zsh)\"' >> ~/.zshrc",
        Shell::Bash => "echo 'eval \"$(plz hook bash)\"' >> ~/.bashrc",
        Shell::Fish => "echo 'plz hook fish | source' > ~/.config/fish/conf.d/plz.fish",
        // Add-Content rather than `>>`: in Windows PowerShell 5.1 the redirect
        // writes UTF-16LE, which corrupts an existing UTF-8 profile.
        Shell::Powershell => "Add-Content $PROFILE 'plz hook powershell | Out-String | Invoke-Expression'",
        Shell::Cmd => "a cmd.exe wrapper is not possible — see the note above",
    }
}

/// The `plz hook` argument for each detected shell that has a wrapper.
pub open spec fn hook_arg_of(kind: ShellKind) -> Option<&'static str> {
    match kind {
        ShellKind::Zsh => Some("zsh"),
        ShellKind::Bash => Some("bash"),
        ShellKind::Fish => Some("fish"),
        ShellKind::PowerShell => Some("powershell"),
        ShellKind::Nushell | ShellKind::Cmd | ShellKind::Posix | ShellKind::Other => None,
    }
}

/// The `plz hook` argument for a detected shell, if a wrapper exists for it.
///
/// The detected shell is a wider set than the wrapper covers, and its labels
/// ("cmd.exe", "PowerShell") are meant for prose — suggesting them verbatim
/// would produce a `plz hook` line that does not parse.
pub fn hook_arg(kind: ShellKind) -> (r: Option<&'static str>)
    ensures
        r == hook_arg_of(kind),
{
    match kind {
        ShellKind::Zsh => Some("zsh"),
        ShellKind::Bash => Some("bash"),
        ShellKind::Fish => Some("fish"),
        ShellKind::PowerShell => Some("powershell"),
        ShellKind::Nushell | ShellKind::Cmd | ShellKind::Posix | ShellKind::Other => None,
    }
}

/// The hint for doing it by hand writes the very line `--install` writes, so
/// the documented command and the installer cannot drift apart.
pub proof fn lemma_hints_carry_the_startup_line(shell: Shell)
    requires
        startup_line_of(shell) is Some,
    ensures
        crate::text::contains_seq(install_hint_of(shell)@, startup_line_of(shell)->0@),
{
    let line = startup_line_of(shell)->0@;
    let hint = install_hint_of(shell)@;
    match shell {
        Shell::Zsh => {
            reveal_strlit("echo 'eval \"$(plz hook zsh)\"' >> ~/.zshrc");
            reveal_strlit("eval \"$(plz hook zsh)\"");
            assert(hint.subrange(6, 6 + line.len() as int) =~= line);
            assert(crate::text::matches_at(hint, 6, line));
        },
        Shell::Bash => {
            reveal_strlit("echo 'eval \"$(plz hook bash)\"' >> ~/.bashrc");
            reveal_strlit("eval \"$(plz hook bash)\"");
            assert(hint.subrange(6, 6 + line.len() as int) =~= line);
            assert(crate::text::matches_at(hint, 6, line));
        },
        Shell::Fish => {
            reveal_strlit("echo 'plz hook fish | source' > ~/.config/fish/conf.d/plz.fish");
            reveal_strlit("plz hook fish | source");
            assert(hint.subrange(6, 6 + line.len() as int) =~= line);
            assert(crate::text::matches_at(hint, 6, line));
        },
        Shell::Powershell => {
            reveal_strlit("Add-Content $PROFILE 'plz hook powershell | Out-String | Invoke-Expression'");
            reveal_strlit("plz hook powershell | Out-String | Invoke-Expression");
            assert(hint.subrange(22, 22 + line.len() as int) =~= line);
            assert(crate::text::matches_at(hint, 22, line));
        },
        Shell::Cmd => {},
    }
}

/// Every detected shell that has a wrapper is offered under a name that
/// `plz hook` accepts.
pub proof fn lemma_hook_args_parse(kind: ShellKind)
    requires
        hook_arg_of(kind) is Some,
    ensures
        crate::cli::shell_named(hook_arg_of(kind)->0@) is Some,
{
    reveal_strlit("zsh");
    reveal_strlit("bash");
    reveal_strlit("fish");
    reveal_strlit("powershell");
}

} // verus!
