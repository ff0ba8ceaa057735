use plz::context::os_name;
use plz::context::shell_ancestor;
use plz::context::vouched_path;
use plz::context::{
    detect_shell, path_matches_kind, strip_os_prefix, with_windows_environment, Shell, ShellKind,
};

#[test]
fn recognises_plain_names() {
    assert_eq!(ShellKind::from_program_name("zsh"), Some(ShellKind::Zsh));
    assert_eq!(ShellKind::from_program_name("fish"), Some(ShellKind::Fish));
    assert_eq!(ShellKind::from_program_name("dash"), Some(ShellKind::Posix));
}

#[test]
fn strips_unix_paths() {
    assert_eq!(ShellKind::from_program_name("/bin/zsh"), Some(ShellKind::Zsh));
    assert_eq!(ShellKind::from_program_name("/usr/local/bin/bash"), Some(ShellKind::Bash));
}

#[test]
fn strips_windows_paths_and_exe_suffix() {
    assert_eq!(
        ShellKind::from_program_name(r"C:\Windows\System32\cmd.exe"),
        Some(ShellKind::Cmd)
    );
    assert_eq!(ShellKind::from_program_name("PowerShell.EXE"), Some(ShellKind::PowerShell));
    assert_eq!(ShellKind::from_program_name("pwsh.exe"), Some(ShellKind::PowerShell));
}

#[test]
fn unknown_programs_are_not_shells() {
    // Otherwise the process-tree walk would stop at the very first parent.
    assert_eq!(ShellKind::from_program_name("cargo"), None);
    assert_eq!(ShellKind::from_program_name("/usr/bin/tmux"), None);
    assert_eq!(ShellKind::from_program_name(""), None);
}

#[test]
fn os_version_does_not_repeat_the_os_name() {
    assert_eq!(strip_os_prefix("macOS 26.5.2 Tahoe", "macOS"), "26.5.2 Tahoe");
    assert_eq!(strip_os_prefix("Windows 11 Pro", "Windows"), "11 Pro");
}

#[test]
fn os_version_without_a_prefix_is_left_alone() {
    assert_eq!(strip_os_prefix("6.8.0-generic", "Linux"), "6.8.0-generic");
    // A string that is only the OS name must not collapse to empty.
    assert_eq!(strip_os_prefix("macOS", "macOS"), "macOS");
}

#[test]
fn a_non_ascii_version_does_not_panic() {
    // A localized Windows can report the product name in its own script.
    assert_eq!(strip_os_prefix("Виндовс 11", "Windows"), "Виндовс 11");
    assert_eq!(strip_os_prefix("日本語版 11", "Windows"), "日本語版 11");
    // Shorter than the OS name: nothing to compare against.
    assert_eq!(strip_os_prefix("Ω", "Windows"), "Ω");
}

#[test]
fn shell_display_includes_environment() {
    let mut shell = Shell::new(ShellKind::Bash, "bash".to_string());
    shell.environment = Some("Cygwin".into());
    assert_eq!(shell.display(), "bash (Cygwin)");
}

#[test]
fn a_multicall_binary_is_not_mistaken_for_the_shell_it_reports() {
    // Alpine's `sh` is busybox, which dispatches on argv[0].
    assert!(!path_matches_kind("/bin/busybox", ShellKind::Posix));
    // Bash running under the name `sh` would accept syntax that the shell
    // we described to the model does not.
    assert!(!path_matches_kind("/bin/bash", ShellKind::Posix));
    // A path Linux marks as replaced mid-session is no longer executable.
    assert!(!path_matches_kind("/usr/bin/zsh (deleted)", ShellKind::Zsh));
}

#[test]
fn an_ordinary_shell_path_is_kept() {
    // Debian's `sh` is dash: a different name, but a real shell.
    assert!(path_matches_kind("/usr/bin/dash", ShellKind::Posix));
    assert!(path_matches_kind("/opt/homebrew/bin/fish", ShellKind::Fish));
    assert!(path_matches_kind(r"C:\cygwin64\bin\bash.exe", ShellKind::Bash));
    // pwsh and powershell share a kind, and the same arguments.
    assert!(path_matches_kind(
        r"C:\Program Files\PowerShell\7\pwsh.exe",
        ShellKind::PowerShell
    ));
}

#[test]
fn a_detected_shell_path_is_executable() {
    // A path comes only from the process-tree walk, never from a name.
    let shell = detect_shell(None, None, Some("/bin/zsh".into()), None, None, false);
    assert_eq!(shell.kind, ShellKind::Zsh);
    assert!(shell.path.is_none());
}

#[test]
fn the_wrapper_declaration_wins_over_everything_else() {
    let mut tree = Shell::new(ShellKind::Bash, "bash".to_string());
    tree.path = Some("/bin/bash".into());
    let shell = detect_shell(
        Some("fish".into()),
        Some(tree),
        Some("/bin/zsh".into()),
        None,
        None,
        false,
    );
    assert_eq!(shell.kind, ShellKind::Fish);
    assert_eq!(shell.name, "fish");
    assert!(shell.path.is_none());
}

#[test]
fn the_process_tree_wins_over_the_login_shell() {
    let mut tree = Shell::new(ShellKind::Bash, "bash".to_string());
    tree.path = Some("/usr/bin/bash".into());
    let shell = detect_shell(None, Some(tree), Some("/bin/zsh".into()), None, None, false);
    assert_eq!(shell.kind, ShellKind::Bash);
    assert_eq!(shell.path.as_deref(), Some("/usr/bin/bash"));
}

#[test]
fn nothing_known_is_an_unknown_shell() {
    let shell = detect_shell(None, None, Some("/usr/bin/tmux".into()), None, None, false);
    assert_eq!(shell.kind, ShellKind::Other);
    assert_eq!(shell.name, "unknown");
    assert_eq!(shell.display(), "unknown");
}

#[test]
fn an_msys_session_is_named() {
    let shell = with_windows_environment(
        Shell::new(ShellKind::Bash, "bash".to_string()),
        Some("MINGW64".into()),
        false,
    );
    assert_eq!(shell.display(), "bash (MSYS2/Git Bash, MSYSTEM=MINGW64)");
    let shell = with_windows_environment(
        Shell::new(ShellKind::Bash, "bash".to_string()),
        Some("  ".into()),
        true,
    );
    assert_eq!(shell.display(), "bash (Cygwin)");
}

#[test]
fn the_os_is_named_as_people_write_it() {
    assert_eq!(os_name("macos"), "macOS");
    assert_eq!(os_name("windows"), "Windows");
    assert_eq!(os_name("linux"), "Linux");
    assert_eq!(os_name("freebsd"), "freebsd");
}

#[test]
fn the_nearest_shell_ancestor_is_the_one_in_use() {
    let names: Vec<String> = vec!["cargo".into(), "fish".into(), "zsh".into()];
    assert_eq!(shell_ancestor(&names), Some((1, ShellKind::Fish)));
    let none: Vec<String> = vec!["cargo".into(), "tmux".into()];
    assert_eq!(shell_ancestor(&none), None);
    // Only the nearest twelve are looked at.
    let mut deep: Vec<String> = (0..12).map(|_| "make".to_string()).collect();
    deep.push("bash".into());
    assert_eq!(shell_ancestor(&deep), None);
}

#[test]
fn only_a_matching_executable_is_vouched_for() {
    assert!(vouched_path("/usr/bin/zsh", ShellKind::Zsh, true));
    assert!(!vouched_path("/usr/bin/zsh", ShellKind::Zsh, false));
    assert!(!vouched_path("/bin/busybox", ShellKind::Posix, true));
}

#[test]
fn a_directory_or_the_case_does_not_change_the_shell() {
    for name in ["zsh", "pwsh.exe", "dash", "nu"] {
        let bare = ShellKind::from_program_name(name);
        assert_eq!(ShellKind::from_program_name(&format!("/opt/bin/{name}")), bare);
        assert_eq!(ShellKind::from_program_name(&format!("C:\\Tools\\{name}")), bare);
        assert_eq!(ShellKind::from_program_name(&name.to_ascii_uppercase()), bare);
    }
}

#[test]
fn each_label_reads_back_as_its_shell() {
    for kind in [
        ShellKind::Zsh,
        ShellKind::Bash,
        ShellKind::Fish,
        ShellKind::Nushell,
        ShellKind::PowerShell,
        ShellKind::Cmd,
        ShellKind::Posix,
    ] {
        assert_eq!(ShellKind::from_program_name(kind.label()), Some(kind));
    }
    assert_eq!(ShellKind::from_program_name(ShellKind::Other.label()), None);
}
