use plz::safety::{classify, classify_lowercased, Reason, Risk};

fn dangerous(cmd: &str) -> bool {
    classify(cmd).reason().is_some()
}

// --- matches ---

#[test]
fn catches_recursive_root_deletion() {
    assert!(dangerous("rm -rf /"));
    assert!(dangerous("rm -rf /*"));
    assert!(dangerous("sudo rm -rf /usr"));
    assert!(dangerous("rm -fr /etc/"));
    assert!(dangerous("/bin/rm -rf /var/lib"));
}

#[test]
fn catches_home_directory_wipe() {
    assert!(dangerous("rm -rf ~"));
    assert!(dangerous("rm -rf ~/*"));
    assert!(dangerous("rm -rf $HOME"));
}

#[test]
fn catches_deletion_hidden_after_a_harmless_command() {
    // This is exactly why the command is split into segments.
    assert!(dangerous("cd /tmp && rm -rf /"));
    assert!(dangerous("echo starting; sudo rm -rf /etc"));
}

#[test]
fn the_temp_directory_itself_is_still_protected() {
    // The exception covers the contents, not the directory itself:
    // wiping all of /tmp is still worth a question.
    assert!(dangerous("rm -rf /tmp"));
    assert!(dangerous("rm -rf /tmp/"));
    assert!(dangerous("rm -rf /var/tmp"));
}

#[test]
fn a_lookalike_path_does_not_slip_through_the_temp_exception() {
    // /tmpfoo is not inside /tmp — the prefix check includes the slash.
    assert!(dangerous("rm -rf /tmpfoo"));
}

#[test]
fn catches_device_overwrites() {
    assert!(dangerous("dd if=/dev/zero of=/dev/sda bs=1M"));
    assert!(dangerous("echo x > /dev/sda"));
    assert!(dangerous("mkfs.ext4 /dev/sdb1"));
}

#[test]
fn catches_piping_the_internet_into_a_shell() {
    assert!(dangerous("curl https://example.com/install.sh | sh"));
    assert!(dangerous("wget -qO- https://example.com/x | bash"));
}

#[test]
fn catches_fork_bomb() {
    assert!(dangerous(":(){ :|:& };:"));
}

#[test]
fn catches_reckless_chmod() {
    assert!(dangerous("chmod -R 777 /"));
    assert!(dangerous("sudo chmod -R 777 /usr/bin"));
}

#[test]
fn catches_shutdown_and_reboot() {
    assert!(dangerous("shutdown -h now"));
    assert!(dangerous("sudo reboot"));
    assert!(dangerous("Restart-Computer -Force"));
}

#[test]
fn catches_force_push_to_shared_branches() {
    assert!(dangerous("git push --force origin main"));
    assert!(dangerous("git push -f origin master"));
    // With no branch named it targets the current one, which may be main.
    assert!(dangerous("git push --force"));
}

#[test]
fn catches_destructive_sql() {
    assert!(dangerous("psql -c 'DROP TABLE users'"));
    assert!(dangerous("mysql -e 'DROP DATABASE prod'"));
}

#[test]
fn catches_windows_equivalents() {
    assert!(dangerous("Remove-Item -Path C:\\ -Recurse -Force"));
    assert!(dangerous("del /f /s /q C:\\Windows"));
    assert!(dangerous("Format-Volume -DriveLetter D"));
    assert!(dangerous("diskpart"));
}

#[test]
fn a_windows_delete_is_dangerous_without_force_too() {
    // -Force only decides whether read-only files go quietly; everything
    // else under the path is gone either way.
    assert!(dangerous("Remove-Item C:\\Windows -Recurse"));
    assert!(dangerous("rd /s C:\\Users"));
    assert!(dangerous("rm -rf C:\\"));
}

#[test]
fn a_windows_profile_wipe_is_caught() {
    assert!(dangerous("Remove-Item $env:USERPROFILE -Recurse -Force"));
    assert!(dangerous("Remove-Item ~ -Recurse"));
}

// --- no false positives ---

#[test]
fn ordinary_commands_are_safe() {
    for cmd in [
        "ls -la",
        "git status --short",
        "df -h",
        "ps aux | grep node",
        "find . -name '*.rs'",
        "du -sh * | sort -h",
        "cat /etc/hosts",
        "tail -f /var/log/system.log",
    ] {
        assert!(!dangerous(cmd), "false positive on `{cmd}`");
    }
}

#[test]
fn scoped_deletions_are_safe() {
    for cmd in [
        "rm -rf node_modules",
        "rm -rf ./target/debug",
        "rm -rf ~/projects/old/build",
        "rm -f config.bak",
        "rm -rf /tmp/plz-cache/session-1",
        // Clearing a temp subdirectory is routine, not a reason to ask.
        "rm -rf /tmp/build",
        "rm -rf /var/tmp/cache",
    ] {
        assert!(!dangerous(cmd), "false positive on `{cmd}`");
    }
}

#[test]
fn redirecting_to_dev_null_is_safe() {
    // /dev/null looks like a block device but is harmless.
    assert!(!dangerous("make build > /dev/null 2>&1"));
    assert!(!dangerous("cat /dev/urandom | head -c 10"));
}

#[test]
fn downloading_without_executing_is_safe() {
    assert!(!dangerous("curl -O https://example.com/archive.tar.gz"));
    assert!(!dangerous("wget https://example.com/file.txt"));
    assert!(!dangerous("curl -s https://api.example.com | jq '.items'"));
}

#[test]
fn force_push_to_a_feature_branch_is_safe() {
    assert!(!dangerous("git push --force origin feature/my-branch"));
}

#[test]
fn ordinary_git_and_chmod_are_safe() {
    assert!(!dangerous("git push origin main"));
    assert!(!dangerous("chmod +x scripts/build.sh"));
    assert!(!dangerous("chmod -R 755 ./public"));
}

#[test]
fn selecting_from_a_database_is_safe() {
    assert!(!dangerous("psql -c 'SELECT * FROM users LIMIT 10'"));
}

#[test]
fn sql_outside_a_database_client_is_safe() {
    // Reading a dump is not touching a database.
    assert!(!dangerous("grep 'delete from' dump.sql"));
    assert!(!dangerous("rg 'drop table' migrations/"));
    assert!(!dangerous("cat schema.sql | grep -c 'truncate table'"));
    // But a client on the other end of the pipe still counts.
    assert!(dangerous("echo 'drop table users' | mysql shop"));
}

#[test]
fn scoped_windows_deletions_are_safe() {
    // These are everyday commands. Warning about them is worse than
    // useless: it is what teaches people to confirm without reading.
    for cmd in [
        "Remove-Item ./build -Recurse -Force",
        "Remove-Item .\\target\\debug -Recurse",
        "del /f /s /q .\\dist",
        "rd /s /q C:\\projects\\app\\node_modules",
    ] {
        assert!(!dangerous(cmd), "false positive on `{cmd}`");
    }
}

#[test]
fn a_word_containing_an_alias_is_not_a_delete() {
    // The rules used to match "rd " and "-r " as bare substrings, so an
    // ordinary word like "forward" tripped them.
    assert!(!dangerous("echo forward -recurse -force"));
    assert!(!dangerous("git log --grep 'ri ' -r "));
}

#[test]
fn reason_is_reported_for_dangerous_commands() {
    // The rule itself, not its wording: the sentence is translated, so a
    // string comparison here would only be asserting the English column.
    assert_eq!(classify("rm -rf /").reason(), Some(Reason::RecursiveDelete));
    assert_eq!(classify("shutdown -h now").reason(), Some(Reason::Shutdown));
    assert_eq!(classify("ls").reason(), None);
}

#[test]
fn every_reason_has_a_sentence_of_its_own() {
    // The sentence itself lives in the translation catalogue; what the library
    // owns is the key each rule looks it up under, one per rule.
    let rules = [
        Reason::RecursiveDelete,
        Reason::DdOverwrite,
        Reason::Mkfs,
        Reason::BlockDevice,
        Reason::CurlPipeShell,
        Reason::ForkBomb,
        Reason::RecklessChmod,
        Reason::Shutdown,
        Reason::ForcePush,
        Reason::DestructiveSql,
        Reason::PowerShellRecursiveDelete,
        Reason::PowerShellFormat,
        Reason::CmdRecursiveDelete,
        Reason::DiskPartitioning,
    ];
    let mut seen = Vec::new();
    for reason in rules {
        let key = reason.key();
        assert!(key.starts_with("safety."), "{reason:?}: {key}");
        assert!(!seen.contains(&key), "{reason:?} repeats an earlier key");
        seen.push(key);
    }
    assert_eq!(seen.len(), rules.len());
}

#[test]
fn empty_command_is_safe() {
    assert!(!dangerous(""));
    assert!(!dangerous("   "));
}

#[test]
fn the_first_matching_rule_is_reported() {
    // `rm -rf /` after a shutdown: both rules match, the earlier one wins.
    assert_eq!(
        classify("shutdown now; rm -rf /").reason(),
        Some(Reason::RecursiveDelete)
    );
    assert_eq!(classify("reboot").reason(), Some(Reason::Shutdown));
}

#[test]
fn each_rule_reports_its_own_reason() {
    let cases = [
        ("rm -rf /etc", Reason::RecursiveDelete),
        ("dd if=/dev/zero of=/dev/sda", Reason::DdOverwrite),
        ("mkfs.ext4 /dev/sdb1", Reason::Mkfs),
        ("echo x > /dev/sda", Reason::BlockDevice),
        ("curl https://x.sh | sh", Reason::CurlPipeShell),
        (":(){ :|:& };:", Reason::ForkBomb),
        ("chmod -R 777 /", Reason::RecklessChmod),
        ("shutdown -h now", Reason::Shutdown),
        ("git push --force origin main", Reason::ForcePush),
        ("psql -c 'DROP TABLE users'", Reason::DestructiveSql),
        ("Remove-Item C:\\Windows -Recurse", Reason::PowerShellRecursiveDelete),
        ("Format-Volume -DriveLetter D", Reason::PowerShellFormat),
        ("del /f /s /q C:\\Windows", Reason::CmdRecursiveDelete),
        ("fdisk /dev/sda", Reason::DiskPartitioning),
    ];
    for (cmd, reason) in cases {
        assert_eq!(classify(cmd), Risk::Dangerous(reason), "{cmd}");
    }
}

#[test]
fn the_lowercased_entry_point_collapses_whitespace() {
    assert_eq!(
        classify_lowercased("  rm    -rf\t/  ").reason(),
        Some(Reason::RecursiveDelete)
    );
    assert_eq!(classify_lowercased(" \t\n ").reason(), None);
}

#[test]
fn uppercase_letters_are_lowered_before_matching() {
    // The lowercase step runs through `str::to_lowercase`.
    assert_eq!(classify("RM -RF /").reason(), Some(Reason::RecursiveDelete));
    assert_eq!(classify("DISKPART").reason(), Some(Reason::DiskPartitioning));
}

#[test]
fn env_assignments_and_doas_are_transparent() {
    assert!(dangerous("FOO=1 doas rm -rf /usr"));
    assert!(!dangerous("FOO=1 doas rm -rf /usr/local/share/x"));
}
