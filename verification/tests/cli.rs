use plz::cli::{Cli, Command, ConfigAction, ParseError, Shell};
use plz::context::ShellKind;
use plz::integration::hook_arg;

fn parse(args: &[&str]) -> Cli {
    Cli::parse_from(args)
}

#[test]
fn a_task_may_contain_a_word_starting_with_a_dash() {
    let cli = parse(&["plz", "what", "does", "git", "push", "--force", "do"]);
    assert_eq!(cli.task_text().as_deref(), Some("what does git push --force do"));
}

#[test]
fn flags_are_recognised_before_the_task() {
    let cli = parse(&["plz", "--dry-run", "-n", "5", "clear the cache"]);
    assert!(cli.dry_run);
    assert_eq!(cli.count, Some(5));
    assert_eq!(cli.task_text().as_deref(), Some("clear the cache"));
}

#[test]
fn flags_after_the_task_are_part_of_the_task() {
    let cli = parse(&["plz", "clear the cache", "--dry-run"]);
    assert!(!cli.dry_run);
    assert_eq!(cli.task_text().as_deref(), Some("clear the cache --dry-run"));
}

#[test]
fn a_task_starting_with_a_subcommand_name_needs_quoting_or_a_separator() {
    assert_eq!(parse(&["plz", "config nginx"]).task_text().as_deref(), Some("config nginx"));
    assert_eq!(
        parse(&["plz", "--", "config", "nginx"]).task_text().as_deref(),
        Some("config nginx")
    );
    assert!(Cli::try_parse_from(&["plz", "config", "nginx"]).is_err());
}

#[test]
fn every_shell_arg_is_one_the_parser_accepts() {
    for shell in [Shell::Zsh, Shell::Bash, Shell::Fish, Shell::Powershell, Shell::Cmd] {
        let parsed = parse(&["plz", "hook", shell.arg()]);
        assert!(
            matches!(parsed.command, Some(Command::Hook { shell: got, .. }) if got == shell),
            "{shell:?} does not round-trip through `{}`",
            shell.arg()
        );
    }
}

#[test]
fn the_hook_subcommand_takes_an_optional_install_flag() {
    let plain = parse(&["plz", "hook", "powershell"]);
    assert!(matches!(
        plain.command,
        Some(Command::Hook { shell: Shell::Powershell, install: false })
    ));

    let installing = parse(&["plz", "-y", "hook", "powershell", "--install"]);
    assert!(installing.yes);
    assert!(matches!(installing.command, Some(Command::Hook { install: true, .. })));
}

#[test]
fn hook_args_are_accepted_by_the_cli() {
    // The suggestion is meant to be copy-pasted, so every value handed out has
    // to parse as the `plz hook <shell>` argument.
    for kind in [ShellKind::Zsh, ShellKind::Bash, ShellKind::Fish, ShellKind::PowerShell] {
        let arg = hook_arg(kind).unwrap_or_else(|| panic!("{kind:?} has a wrapper"));
        assert!(Cli::try_parse_from(&["plz", "hook", arg]).is_ok(), "{arg}");
    }
}

#[test]
fn pwsh_is_another_name_for_powershell() {
    let cli = parse(&["plz", "hook", "pwsh"]);
    assert!(matches!(cli.command, Some(Command::Hook { shell: Shell::Powershell, .. })));
}

#[test]
fn every_config_action_parses() {
    for (word, action) in [
        ("init", ConfigAction::Init),
        ("path", ConfigAction::Path),
        ("show", ConfigAction::Show),
        ("edit", ConfigAction::Edit),
    ] {
        let cli = parse(&["plz", "config", word]);
        assert_eq!(cli.command, Some(Command::Config { action }));
    }
    assert_eq!(
        Cli::try_parse_from(&["plz", "config"]).err(),
        Some(ParseError::MissingSubcommand("config".into()))
    );
}

#[test]
fn option_values_take_every_spelling() {
    assert_eq!(parse(&["plz", "--count=7", "x"]).count, Some(7));
    assert_eq!(parse(&["plz", "-n3", "x"]).count, Some(3));
    assert_eq!(parse(&["plz", "-yn", "4", "x"]).count, Some(4));
    assert!(parse(&["plz", "-yn", "4", "x"]).yes);
    assert_eq!(parse(&["plz", "--model", "m1", "x"]).model.as_deref(), Some("m1"));
    assert_eq!(parse(&["plz", "--model=m2", "x"]).model.as_deref(), Some("m2"));
}

#[test]
fn malformed_command_lines_are_refused() {
    assert_eq!(
        Cli::try_parse_from(&["plz", "--frobnicate"]).err(),
        Some(ParseError::UnknownArgument("--frobnicate".into()))
    );
    assert_eq!(
        Cli::try_parse_from(&["plz", "-n"]).err(),
        Some(ParseError::MissingValue("--count".into()))
    );
    assert_eq!(
        Cli::try_parse_from(&["plz", "-n", "many"]).err(),
        Some(ParseError::InvalidValue("--count".into(), "many".into()))
    );
    assert_eq!(
        Cli::try_parse_from(&["plz", "--json", "--json"]).err(),
        Some(ParseError::Repeated("--json".into()))
    );
    assert_eq!(
        Cli::try_parse_from(&["plz", "hook"]).err(),
        Some(ParseError::MissingArgument("<SHELL>".into()))
    );
    assert_eq!(
        Cli::try_parse_from(&["plz", "hook", "tcsh"]).err(),
        Some(ParseError::InvalidValue("<SHELL>".into(), "tcsh".into()))
    );
    assert_eq!(Cli::try_parse_from(&["plz", "--help"]).err(), Some(ParseError::Help));
    assert_eq!(Cli::try_parse_from(&["plz", "-V"]).err(), Some(ParseError::Version));
}

#[test]
fn no_arguments_means_the_interactive_mode() {
    let cli = parse(&["plz"]);
    assert!(cli.task_text().is_none());
    assert!(cli.command.is_none());
}
