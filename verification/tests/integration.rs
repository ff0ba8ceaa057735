use plz::cli::Shell;
use plz::context::ShellKind;
use plz::integration::{hook_arg, install_hint, script, startup_line};

const REAL_SHELLS: &[Shell] = &[Shell::Zsh, Shell::Bash, Shell::Fish, Shell::Powershell];

#[test]
fn every_shell_has_a_script() {
    for shell in [Shell::Zsh, Shell::Bash, Shell::Fish, Shell::Powershell, Shell::Cmd] {
        assert!(!script(shell).trim().is_empty(), "{shell:?}");
    }
}

#[test]
fn scripts_call_the_binary_without_recursing() {
    // The function shares its name with the binary, so the call to the
    // binary has to be explicit — otherwise the wrapper calls itself.
    for shell in [Shell::Zsh, Shell::Bash, Shell::Fish] {
        assert!(
            script(shell).contains("command plz"),
            "{shell:?} must call the binary through `command plz`"
        );
    }
    // In PowerShell the equivalent is an explicit Application lookup.
    assert!(script(Shell::Powershell).contains("Get-Command plz -CommandType Application"));
}

#[test]
fn scripts_pass_both_protocol_variables() {
    for shell in REAL_SHELLS {
        let text = script(*shell);
        assert!(text.contains("PLZ_OUTPUT_FILE"), "{shell:?}");
        assert!(text.contains("PLZ_SHELL_INTEGRATION"), "{shell:?}");
    }
}

#[test]
fn scripts_handle_both_protocol_verbs() {
    for shell in REAL_SHELLS {
        let text = script(*shell);
        assert!(text.contains("run"), "{shell:?} does not handle run");
        assert!(text.contains("buffer"), "{shell:?} does not handle buffer");
    }
}

#[test]
fn scripts_clean_up_the_temporary_file() {
    for shell in [Shell::Zsh, Shell::Bash, Shell::Fish] {
        assert!(script(shell).contains("rm -f"), "{shell:?} leaves litter in /tmp");
    }
    assert!(script(Shell::Powershell).contains("Remove-Item"));
}

#[test]
fn buffer_uses_the_native_mechanism_of_each_shell() {
    assert!(script(Shell::Zsh).contains("print -z"));
    assert!(script(Shell::Fish).contains("commandline -r"));
    assert!(script(Shell::Powershell).contains("PSConsoleReadLine]::Insert"));
}

#[test]
fn run_adds_the_command_to_shell_history() {
    // Otherwise the executed command cannot be found with Ctrl+R.
    assert!(script(Shell::Zsh).contains("print -s"));
    assert!(script(Shell::Bash).contains("history -s"));
    assert!(script(Shell::Powershell).contains("AddToHistory"));
}

#[test]
fn cmd_output_is_commented_out_so_it_cannot_be_executed() {
    // The output may end up in a .bat file, so it must be inert.
    for line in script(Shell::Cmd).lines().filter(|l| !l.trim().is_empty()) {
        assert!(line.starts_with("@rem"), "executable line in the placeholder: {line}");
    }
}

#[test]
fn shells_without_a_wrapper_get_no_hook_arg() {
    for kind in [ShellKind::Nushell, ShellKind::Cmd, ShellKind::Posix] {
        assert!(hook_arg(kind).is_none(), "{kind:?}");
    }
}

#[test]
fn install_hints_name_the_right_config_file() {
    assert!(install_hint(Shell::Zsh).contains(".zshrc"));
    assert!(install_hint(Shell::Bash).contains(".bashrc"));
    assert!(install_hint(Shell::Fish).contains("conf.d"));
    assert!(install_hint(Shell::Powershell).contains("PROFILE"));
}

#[test]
fn startup_lines_call_the_binary_rather_than_embedding_the_script() {
    // This is what makes the wrapper follow the binary through upgrades.
    for (shell, arg) in [
        (Shell::Zsh, "zsh"),
        (Shell::Bash, "bash"),
        (Shell::Fish, "fish"),
        (Shell::Powershell, "powershell"),
    ] {
        let line = startup_line(shell).unwrap_or_else(|| panic!("{shell:?} has no line"));
        assert!(line.contains(&format!("plz hook {arg}")), "{shell:?}: {line}");
    }
}

#[test]
fn the_powershell_line_pipes_through_out_string() {
    // Without Out-String each line of the script is a separate pipeline
    // object and Invoke-Expression evaluates only the first.
    let line = startup_line(Shell::Powershell).unwrap();
    assert!(line.contains("Out-String"), "{line}");
    assert!(line.contains("Invoke-Expression"), "{line}");
}

#[test]
fn cmd_has_no_startup_line() {
    assert!(startup_line(Shell::Cmd).is_none());
}

#[test]
fn install_hints_write_the_same_line_that_install_does() {
    for shell in REAL_SHELLS {
        let line = startup_line(*shell).unwrap();
        assert!(
            install_hint(*shell).contains(line),
            "{shell:?}: hint `{}` does not contain `{line}`",
            install_hint(*shell)
        );
    }
}
