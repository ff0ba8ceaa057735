use plz::context::Shell;
use plz::exec::child_program;
use plz::context::ShellKind;
use plz::exec::{
    child_shell_invocation, integration_active, integration_requested, output_file, parse_protocol, payload,
    supports_buffer, Verb,
};

#[test]
fn protocol_round_trips() {
    let payload = "run\ngit status --short";
    let (verb, command) = parse_protocol(payload).unwrap();
    assert_eq!(verb, Verb::Run);
    assert_eq!(command, "git status --short");
}

#[test]
fn protocol_preserves_multiline_commands() {
    let payload = "buffer\ncd /tmp\nls -la";
    let (verb, command) = parse_protocol(payload).unwrap();
    assert_eq!(verb, Verb::Buffer);
    assert_eq!(command, "cd /tmp\nls -la");
}

#[test]
fn empty_payload_means_the_user_cancelled() {
    assert!(parse_protocol("").is_none());
    assert!(parse_protocol("run\n").is_none());
    assert!(parse_protocol("run\n   ").is_none());
}

#[test]
fn unknown_verb_is_rejected() {
    // The wrapper must do nothing with an unknown verb.
    assert!(parse_protocol("destroy\nrm -rf /").is_none());
}

#[test]
fn hand_off_writes_a_parseable_file() {
    // What is written is read back as the same verb and the trimmed command.
    let written = payload(Verb::Run, "  echo hi  ");
    let (verb, command) = parse_protocol(&written).unwrap();
    assert_eq!(verb, Verb::Run);
    assert_eq!(command, "echo hi");
}

#[test]
fn hand_off_fails_clearly_without_integration() {
    assert!(output_file(None).is_none());
    assert!(output_file(Some(String::new())).is_none());
    assert!(!integration_active(None, false));
    assert!(integration_active(Some("/tmp/plz.out".into()), true));
}

#[test]
fn a_wrapper_whose_file_cannot_be_opened_is_not_active() {
    // Under Cygwin the variable names a POSIX path a native binary never sees.
    assert!(!integration_active(Some("/tmp/plz.out".into()), false));
    assert!(integration_requested(Some("/tmp/plz.out".into())));
    assert!(!integration_requested(Some(String::new())));
    assert!(!integration_requested(None));
    assert!(!integration_active(Some(String::new()), true));
}

#[test]
fn buffer_support_matches_shell_capabilities() {
    assert!(supports_buffer(ShellKind::Zsh));
    assert!(supports_buffer(ShellKind::Fish));
    assert!(supports_buffer(ShellKind::PowerShell));
    // bash has no `print -z` equivalent, and neither does cmd.exe.
    assert!(!supports_buffer(ShellKind::Bash));
    assert!(!supports_buffer(ShellKind::Cmd));
}

#[test]
fn invocations_are_correct_per_shell() {
    assert_eq!(child_shell_invocation(ShellKind::Zsh, false), ("zsh", vec!["-c"]));
    assert_eq!(child_shell_invocation(ShellKind::Cmd, false), ("cmd", vec!["/C"]));
    assert_eq!(
        child_shell_invocation(ShellKind::PowerShell, false),
        ("powershell", vec!["-NoProfile", "-Command"])
    );
}

#[test]
fn an_unknown_shell_runs_under_the_platform_shell() {
    assert_eq!(child_shell_invocation(ShellKind::Other, false), ("sh", vec!["-c"]));
    assert_eq!(child_shell_invocation(ShellKind::Posix, true), ("cmd", vec!["/C"]));
}

#[test]
fn the_payload_is_the_verb_then_the_command() {
    assert_eq!(payload(Verb::Buffer, " ls\n"), "buffer\nls");
    assert_eq!(Verb::Run.as_str(), "run");
}

#[test]
fn the_shell_runs_from_where_it_was_found() {
    let mut shell = Shell::new(ShellKind::Bash, "bash".into());
    assert_eq!(child_program(&shell, true), ("bash".to_string(), vec!["-c"]));
    shell.path = Some(r"C:\cygwin64\bin\bash.exe".into());
    assert_eq!(child_program(&shell, true), (r"C:\cygwin64\bin\bash.exe".to_string(), vec!["-c"]));
}
