use plz::suggestion::Suggestion;

#[test]
fn one_line_joins_multiline_commands() {
    let s = Suggestion::new("cd /tmp\nls -la", "");
    assert_eq!(s.one_line(), "cd /tmp; ls -la");
}

#[test]
fn one_line_leaves_single_line_alone() {
    let s = Suggestion::new("git status --short", "");
    assert_eq!(s.one_line(), "git status --short");
}

#[test]
fn one_line_skips_blank_lines() {
    let s = Suggestion::new("echo a\n\n\necho b", "");
    assert_eq!(s.one_line(), "echo a; echo b");
}

#[test]
fn one_line_of_a_blank_command_is_its_trim() {
    let s = Suggestion::new("  \n  ", "");
    assert_eq!(s.one_line(), "");
    let s = Suggestion::new("  ls\r\n", "");
    assert_eq!(s.one_line(), "ls");
}
