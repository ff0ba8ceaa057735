use plz::cli::Shell;
use plz::install::{
    appendix, contains, decide_addition, install_line, needs_line, policy_blocks_profile,
    policy_check_needed, policy_step, settled_policy, startup_file, Outcome, PolicyAction,
    PolicyEvent, PolicyState, StartupFile, PERSISTENT_POLICY,
};
use plz::integration::startup_line;

#[test]
fn policies_that_stop_the_profile_loading() {
    for policy in ["Restricted", "AllSigned", "Undefined"] {
        assert!(policy_blocks_profile(policy), "{policy}");
    }
}

#[test]
fn policies_that_let_the_profile_load() {
    for policy in ["RemoteSigned", "Unrestricted", "Bypass"] {
        assert!(!policy_blocks_profile(policy), "{policy}");
    }
}

#[test]
fn no_scope_set_means_the_platform_default() {
    // Every scope Undefined is the out-of-the-box state on Windows, and it is
    // exactly the case that has to be caught.
    for windows in [true, false] {
        let fallback = settled_policy("", windows);
        assert_eq!(policy_blocks_profile(&fallback), windows, "{fallback}");
        assert_eq!(settled_policy("  \r\n ", windows), fallback);
    }
}

#[test]
fn a_scope_that_is_set_wins_over_the_default() {
    for windows in [true, false] {
        assert_eq!(settled_policy("RemoteSigned\r\n", windows), "RemoteSigned");
        assert_eq!(settled_policy("AllSigned", windows), "AllSigned");
    }
}

#[test]
fn the_policy_query_ignores_the_inherited_process_scope() {
    assert!(PERSISTENT_POLICY.contains("$_.Scope -ne 'Process'"));
    assert!(PERSISTENT_POLICY.contains("Select-Object -First 1"));
}

#[test]
fn the_policy_reply_arrives_from_a_child_process() {
    // Trailing newline and host-dependent casing come with it.
    assert!(policy_blocks_profile("restricted\r\n"));
    assert!(!policy_blocks_profile("  REMOTESIGNED \n"));
    // Something we cannot classify is not grounds for a security prompt.
    assert!(!policy_blocks_profile(""));
    assert!(!policy_blocks_profile("SomethingNew"));
}

#[test]
fn an_existing_line_is_recognised() {
    let line = startup_line(Shell::Zsh).unwrap();
    assert!(contains(&format!("# comments\n{line}\n"), line));
    // Indented by an `if` block, but still a live statement.
    assert!(contains(&format!("if true; then\n  {line}\nfi\n"), line));
}

#[test]
fn a_line_that_does_not_run_does_not_count() {
    let line = startup_line(Shell::Zsh).unwrap();
    // Commented out: reinstalling has to add a working copy.
    assert!(!contains(&format!("# {line}\n"), line));
    // Part of a longer statement, so appending is still correct.
    assert!(!contains(&format!("{line} # trailing\n"), line));
    assert!(!contains("", line));
}

#[test]
fn the_appended_text_never_joins_the_previous_line() {
    assert_eq!(appendix("", "L"), "L\n");
    assert_eq!(appendix("prev\n", "L"), "L\n");
    // No trailing newline: without one of ours the line would be glued on.
    assert_eq!(appendix("prev", "L"), "\nL\n");
}

#[test]
fn declining_leaves_no_file_behind() {
    let (outcome, text) = decide_addition(None, "eval line", false);
    assert_eq!(outcome, Outcome::Declined);
    assert!(text.is_none());
}

#[test]
fn installing_twice_appends_once() {
    let line = startup_line(Shell::Fish).unwrap();
    let (first, text) = decide_addition(None, line, true);
    assert_eq!(first, Outcome::Appended);
    let contents = text.unwrap();
    assert!(!needs_line(Some(&contents), line));
    let (second, more) = decide_addition(Some(&contents), line, true);
    assert_eq!(second, Outcome::AlreadyPresent);
    assert!(more.is_none());
    assert_eq!(contents.matches(line).count(), 1, "{contents:?}");
}

#[test]
fn appending_preserves_what_was_there() {
    let existing = "export EDITOR=vim";
    let (outcome, text) = decide_addition(Some(existing), "line", true);
    assert_eq!(outcome, Outcome::Appended);
    assert_eq!(format!("{existing}{}", text.unwrap()), "export EDITOR=vim\nline\n");
}

#[test]
fn every_installable_shell_resolves_a_startup_file() {
    for shell in [Shell::Zsh, Shell::Bash, Shell::Fish] {
        assert!(startup_file(shell, None, None).is_ok(), "{shell:?}");
    }
    assert!(matches!(
        startup_file(Shell::Powershell, None, None),
        Ok(StartupFile::PowershellProfile)
    ));
}

#[test]
fn home_decides_where_the_startup_file_goes() {
    match startup_file(Shell::Bash, None, None) {
        Ok(StartupFile::InHome { parts }) => assert_eq!(parts, vec![".bashrc"]),
        _ => panic!("bash goes under the home directory"),
    }
    match startup_file(Shell::Zsh, Some(String::new()), None) {
        Ok(StartupFile::InHome { parts }) => assert_eq!(parts, vec![".zshrc"]),
        _ => panic!("an empty ZDOTDIR counts as unset"),
    }
    match startup_file(Shell::Fish, None, None) {
        Ok(StartupFile::InHome { parts }) => {
            assert_eq!(parts, vec![".config", "fish", "conf.d", "plz.fish"])
        }
        _ => panic!("fish goes under ~/.config without XDG_CONFIG_HOME"),
    }
}

#[test]
fn zdotdir_still_wins_for_zsh() {
    match startup_file(Shell::Zsh, Some("/tmp/zdot".into()), None) {
        Ok(StartupFile::InDir { dir, parts }) => {
            assert_eq!(dir, "/tmp/zdot");
            assert_eq!(parts, vec![".zshrc"]);
        }
        _ => panic!("ZDOTDIR decides"),
    }
    match startup_file(Shell::Fish, None, Some("/tmp/xdg".into())) {
        Ok(StartupFile::InDir { dir, parts }) => {
            assert_eq!(dir, "/tmp/xdg");
            assert_eq!(parts, vec!["fish", "conf.d", "plz.fish"]);
        }
        _ => panic!("XDG_CONFIG_HOME decides"),
    }
}

#[test]
fn cmd_cannot_be_installed_and_says_why() {
    let err = match startup_file(Shell::Cmd, None, None) {
        Err(hint) => hint,
        Ok(_) => panic!("cmd has no startup file"),
    };
    assert!(err.contains("cmd.exe"), "{err}");
    assert!(install_line(Shell::Cmd).unwrap_err().contains("cmd.exe"));
    assert_eq!(install_line(Shell::Bash), Ok(startup_line(Shell::Bash).unwrap()));
}

#[test]
fn only_powershell_with_the_line_goes_on_to_the_policy() {
    assert!(policy_check_needed(Shell::Powershell, Outcome::Appended));
    assert!(policy_check_needed(Shell::Powershell, Outcome::AlreadyPresent));
    assert!(!policy_check_needed(Shell::Powershell, Outcome::Declined));
    assert!(!policy_check_needed(Shell::Zsh, Outcome::Appended));
}

#[test]
fn a_blocking_policy_is_offered_and_read_back() {
    let (state, action) =
        policy_step(PolicyState::Checking, PolicyEvent::Read(Ok("Restricted\r\n".into())), true);
    assert_eq!(state, PolicyState::Asking);
    assert!(matches!(action, PolicyAction::Offer(ref p) if p == "Restricted"));
    let (state, action) = policy_step(state, PolicyEvent::Answer(true), true);
    assert_eq!(state, PolicyState::Setting);
    assert!(matches!(action, PolicyAction::SetPolicy));
    let (state, action) = policy_step(state, PolicyEvent::Applied(Ok(())), true);
    assert_eq!(state, PolicyState::ReadingBack);
    assert!(matches!(action, PolicyAction::ReadBack));
    let (state, action) = policy_step(state, PolicyEvent::Read(Ok("RemoteSigned".into())), true);
    assert_eq!(state, PolicyState::Done);
    assert!(matches!(action, PolicyAction::NowSet(ref p) if p == "RemoteSigned"));
}

#[test]
fn a_group_policy_that_wins_is_reported() {
    let (_, action) =
        policy_step(PolicyState::ReadingBack, PolicyEvent::Read(Ok("AllSigned".into())), true);
    assert!(matches!(action, PolicyAction::Enforced(ref p) if p == "AllSigned"));
}

#[test]
fn declining_the_policy_change_changes_nothing() {
    let (state, action) = policy_step(PolicyState::Asking, PolicyEvent::Answer(false), true);
    assert_eq!(state, PolicyState::Done);
    assert!(matches!(action, PolicyAction::LeftUnchanged));
    let (state, action) =
        policy_step(PolicyState::Checking, PolicyEvent::Read(Ok(String::new())), false);
    assert_eq!(state, PolicyState::Done);
    assert!(matches!(action, PolicyAction::Fine));
    let (_, action) =
        policy_step(PolicyState::Checking, PolicyEvent::Read(Err("no pwsh".into())), true);
    assert!(matches!(action, PolicyAction::Unreadable(ref e) if e == "no pwsh"));
}
