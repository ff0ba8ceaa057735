use plz::actions::editor_to_launch;
use plz::actions::{
    buffer_supported, changes_shell_state, confirmation_reason, default_editor, install_command,
    listing, print_only_mode, suggestion_count, PrintOnly,
};
use plz::cli::Cli;
use plz::context::ShellKind;
use plz::safety::Reason;
use plz::suggestion::Suggestion;

fn cli(args: &[&str]) -> Cli {
    Cli::parse_from(args)
}

#[test]
fn dry_run_and_json_print_instead_of_running() {
    assert_eq!(print_only_mode(&cli(&["plz", "--json", "list files"])), Some(PrintOnly::Json));
    assert_eq!(print_only_mode(&cli(&["plz", "--dry-run", "list files"])), Some(PrintOnly::Plain));
    assert_eq!(print_only_mode(&cli(&["plz", "list files"])), None);
}

#[test]
fn the_flags_also_apply_with_no_task_argument() {
    // No task means interactive mode, which used to ignore both flags.
    assert_eq!(print_only_mode(&cli(&["plz", "--dry-run"])), Some(PrintOnly::Plain));
    assert_eq!(print_only_mode(&cli(&["plz", "--json"])), Some(PrintOnly::Json));
    assert!(cli(&["plz", "--dry-run"]).task_text().is_none());
}

#[test]
fn state_changing_commands_are_recognised_in_every_shell() {
    for command in [
        "cd ..",
        "export FOO=bar",
        "source ./venv/bin/activate",
        "Set-Location ..",
        "set-location C:\\src",
        "sl ..",
        "Push-Location ..",
        "$env:FOO = 'bar'",
        "Set-Item Env:FOO bar",
    ] {
        assert!(changes_shell_state(command), "{command}");
    }
    for command in ["ls -la", "Get-ChildItem", "git status", "Set-Item .\\file.txt x"] {
        assert!(!changes_shell_state(command), "{command}");
    }
}

#[test]
fn json_wins_over_dry_run() {
    assert_eq!(
        print_only_mode(&cli(&["plz", "--json", "--dry-run", "x"])),
        Some(PrintOnly::Json)
    );
}

#[test]
fn a_blank_command_changes_nothing() {
    assert!(!changes_shell_state(""));
    assert!(!changes_shell_state("   "));
}

#[test]
fn the_count_stays_between_one_and_nine() {
    assert_eq!(suggestion_count(None, 3), 3);
    assert_eq!(suggestion_count(Some(0), 3), 1);
    assert_eq!(suggestion_count(Some(42), 3), 9);
    assert_eq!(suggestion_count(None, 12), 9);
}

#[test]
fn only_an_active_wrapper_in_a_capable_shell_takes_a_buffer() {
    assert!(buffer_supported(Some("/tmp/plz.x".into()), true, ShellKind::Zsh));
    assert!(!buffer_supported(None, false, ShellKind::Zsh));
    assert!(!buffer_supported(Some("/tmp/plz.x".into()), true, ShellKind::Bash));
    assert!(!buffer_supported(Some("/tmp/plz.x".into()), false, ShellKind::Zsh));
}

#[test]
fn the_fallback_editor_follows_the_platform() {
    assert_eq!(default_editor(true), "notepad");
    assert_eq!(default_editor(false), "vi");
}

#[test]
fn risky_commands_are_confirmed_unless_told_otherwise() {
    assert_eq!(
        confirmation_reason(true, false, "rm -rf /"),
        Some(Reason::RecursiveDelete)
    );
    assert_eq!(confirmation_reason(true, true, "rm -rf /"), None);
    assert_eq!(confirmation_reason(false, false, "rm -rf /"), None);
    assert_eq!(confirmation_reason(true, false, "ls"), None);
}

#[test]
fn the_install_hint_names_the_shell_when_it_can() {
    assert_eq!(install_command(ShellKind::Zsh), "plz hook zsh --install");
    assert_eq!(install_command(ShellKind::Nushell), "plz hook <shell> --install");
}

#[test]
fn the_plain_listing_numbers_from_one() {
    let lines = listing(&vec![Suggestion::new("ls", "list"), Suggestion::new("pwd", "")]);
    assert_eq!(lines, vec!["1. ls", "   list", "2. pwd"]);
}

#[test]
fn the_editor_comes_from_visual_then_editor() {
    assert_eq!(editor_to_launch(Some("code -w".into()), Some("nano".into()), false), "code -w");
    assert_eq!(editor_to_launch(None, Some("nano".into()), false), "nano");
    assert_eq!(editor_to_launch(None, None, true), "notepad");
}
