//! Heuristics for commands worth confirming before they run.
//!
//! These are heuristics, not a sandbox: the list is knowingly incomplete and
//! trivial to slip past. The point is to catch the classic case where someone
//! hits the wrong digit in the suggestion list, not to defend against a
//! malicious model.
//!
//! Every rule is stated as a spec function over the normalized command
//! (lowercased, whitespace collapsed), and `classify` is proved to report the
//! first rule that holds.

use vstd::prelude::*;
use crate::text::{
    after_last, after_last_of, any_from, chars1, chars2, chars_of, contains_char, contains_seq,
    contains_str, count_nonempty, count_nonempty_pieces, eq_str, find_char, flat_split,
    has_prefix_str, join, join_with, position_of, remove_ws, replace_char, replaced, seqs,
    split_all_on_str, split_on_chars, split_set, split_words, starts_with, strip_suffix, sub_texts,
    sub_vec, trim_and_drop_empty, trim_chars, trim_end_ch, trim_end_char, trim_set, trimmed_nonempty,
    without_suffix, without_whitespace, words, to_lowercase, unicode_lowercase, split_pat, trim, is_ws,
    words_from,
};

verus! {

/// Why a command was flagged.
///
/// An identity rather than the sentence itself: the sentence is translated, and
/// callers compare and match on the rule, not on its wording.
#[derive(Debug, Clone, Copy, PartialEq, Eq, Structural)]
pub enum Reason {
    RecursiveDelete,
    DdOverwrite,
    Mkfs,
    BlockDevice,
    CurlPipeShell,
    ForkBomb,
    RecklessChmod,
    Shutdown,
    ForcePush,
    DestructiveSql,
    PowerShellRecursiveDelete,
    PowerShellFormat,
    CmdRecursiveDelete,
    DiskPartitioning,
}

impl Reason {
    /// The catalogue key of the sentence the warning shows.
    pub fn key(self) -> (k: &'static str)
        ensures
            k@ == reason_key(self)@,
    {
        match self {
            Reason::RecursiveDelete => "safety.recursive_delete",
            Reason::DdOverwrite => "safety.dd_overwrite",
            Reason::Mkfs => "safety.mkfs",
            Reason::BlockDevice => "safety.block_device",
            Reason::CurlPipeShell => "safety.curl_pipe_shell",
            Reason::ForkBomb => "safety.fork_bomb",
            Reason::RecklessChmod => "safety.reckless_chmod",
            Reason::Shutdown => "safety.shutdown",
            Reason::ForcePush => "safety.force_push",
            Reason::DestructiveSql => "safety.destructive_sql",
            Reason::PowerShellRecursiveDelete => "safety.powershell_recursive_delete",
            Reason::PowerShellFormat => "safety.powershell_format",
            Reason::CmdRecursiveDelete => "safety.cmd_recursive_delete",
            Reason::DiskPartitioning => "safety.disk_partitioning",
        }
    }
}

/// The catalogue key of each reason's sentence.
pub open spec fn reason_key(reason: Reason) -> &'static str {
    match reason {
        Reason::RecursiveDelete => "safety.recursive_delete",
        Reason::DdOverwrite => "safety.dd_overwrite",
        Reason::Mkfs => "safety.mkfs",
        Reason::BlockDevice => "safety.block_device",
        Reason::CurlPipeShell => "safety.curl_pipe_shell",
        Reason::ForkBomb => "safety.fork_bomb",
        Reason::RecklessChmod => "safety.reckless_chmod",
        Reason::Shutdown => "safety.shutdown",
        Reason::ForcePush => "safety.force_push",
        Reason::DestructiveSql => "safety.destructive_sql",
        Reason::PowerShellRecursiveDelete => "safety.powershell_recursive_delete",
        Reason::PowerShellFormat => "safety.powershell_format",
        Reason::CmdRecursiveDelete => "safety.cmd_recursive_delete",
        Reason::DiskPartitioning => "safety.disk_partitioning",
    }
}

/// How risky a command looks.
#[derive(Debug, Clone, Copy, PartialEq, Eq, Structural)]
pub enum Risk {
    Safe,
    /// A rule matched; which one decides what the warning says.
    Dangerous(Reason),
}

impl Risk {
    pub fn reason(&self) -> (r: Option<Reason>)
        ensures
            r == (match *self {
                Risk::Dangerous(reason) => Some(reason),
                Risk::Safe => None,
            }),
    {
        match self {
            Risk::Dangerous(reason) => Some(*reason),
            Risk::Safe => None,
        }
    }
}

// ---------------------------------------------------------------------------
// Tokens of a segment
// ---------------------------------------------------------------------------

/// The program name without its directory: `/bin/rm` becomes `rm`.
pub open spec fn basename(t: Seq<char>) -> Seq<char> {
    after_last(t, seq!['/'])
}

/// A token that only prefixes the real command: `sudo`, `doas`, or an
/// environment assignment.
pub open spec fn is_prefix_token(t: Seq<char>) -> bool {
    basename(t) == "sudo"@ || basename(t) == "doas"@ || t.contains('=')
}

pub open spec fn strip_prefix_tokens(toks: Seq<Seq<char>>) -> Seq<Seq<char>>
    decreases toks.len(),
{
    if toks.len() > 0 && is_prefix_token(toks[0]) {
        strip_prefix_tokens(toks.drop_first())
    } else {
        toks
    }
}

/// A segment's tokens with leading `sudo`/`doas` and env assignments removed.
pub open spec fn args(seg: Seq<char>) -> Seq<Seq<char>> {
    strip_prefix_tokens(words(seg))
}

/// The program name of a segment's first token, without its directory.
pub open spec fn program(seg: Seq<char>) -> Option<Seq<char>> {
    if words(seg).len() > 0 {
        Some(basename(words(seg)[0]))
    } else {
        None
    }
}

/// `program(seg).unwrap_or("")`.
pub open spec fn program_or_empty(seg: Seq<char>) -> Seq<char> {
    match program(seg) {
        Some(p) => p,
        None => seq![],
    }
}

/// The program a segment runs: no leading `sudo`, no directory, no `.exe`.
pub open spec fn command_name(seg: Seq<char>) -> Option<Seq<char>> {
    if args(seg).len() > 0 {
        let name = after_last(args(seg)[0], seq!['/', '\\']);
        Some(
            match strip_suffix(name, ".exe"@) {
                Some(t) => t,
                None => name,
            },
        )
    } else {
        None
    }
}

/// Split a compound command into its individual invocations: on `;` and
/// newlines, then `&&`, `||` and `|`, each piece trimmed, empty ones dropped.
pub open spec fn segments(command: Seq<char>) -> Seq<Seq<char>> {
    trimmed_nonempty(
        flat_split(
            flat_split(flat_split(split_set(command, seq![';', '\n']), "&&"@), "||"@),
            "|"@,
        ),
    )
}

/// Normalize a lowercased command for matching: whitespace collapsed to
/// single spaces, none at either end.
pub open spec fn normalize(lowered: Seq<char>) -> Seq<char> {
    join(words(lowered), seq![' '])
}

fn basename_of(t: &Vec<char>) -> (r: Vec<char>)
    ensures
        r@ == basename(t@),
{
    after_last_of(t, &chars1('/'))
}

fn prefix_token(t: &Vec<char>) -> (r: bool)
    ensures
        r == is_prefix_token(t@),
{
    let b = basename_of(t);
    eq_str(&b, "sudo") || eq_str(&b, "doas") || contains_char(t, '=')
}

proof fn lemma_strip_prefix_skip(toks: Seq<Seq<char>>, i: int)
    requires
        0 <= i <= toks.len(),
        forall|k: int| 0 <= k < i ==> is_prefix_token(#[trigger] toks[k]),
    ensures
        strip_prefix_tokens(toks) == strip_prefix_tokens(toks.skip(i)),
    decreases i,
{
    if i > 0 {
        assert(is_prefix_token(toks[0]));
        lemma_strip_prefix_skip(toks.drop_first(), i - 1);
        assert(toks.drop_first().skip(i - 1) =~= toks.skip(i));
    } else {
        assert(toks.skip(0) =~= toks);
    }
}

/// The tokens of a segment after its `sudo`, `doas` and assignments.
pub fn args_of(seg: &Vec<char>) -> (r: Vec<Vec<char>>)
    ensures
        seqs(r@) == args(seg@),
{
    let toks = split_words(seg);
    let ghost ts = seqs(toks@);
    let mut i: usize = 0;
    while i < toks.len() && prefix_token(&toks[i])
        invariant
            i <= toks.len(),
            ts == seqs(toks@),
            forall|k: int| 0 <= k < i ==> is_prefix_token(#[trigger] ts[k]),
        decreases toks.len() - i,
    {
        i += 1;
    }
    proof {
        lemma_strip_prefix_skip(ts, i as int);
        if i < toks.len() {
            assert(ts.skip(i as int)[0] == ts[i as int]);
        }
        assert(ts.subrange(i as int, ts.len() as int) =~= ts.skip(i as int));
    }
    sub_texts(&toks, i, toks.len())
}

/// The program name of a segment, if it has any token.
pub fn program_of(seg: &Vec<char>) -> (r: Option<Vec<char>>)
    ensures
        r is Some <==> program(seg@) is Some,
        r matches Some(p) ==> program(seg@) == Some(p@),
{
    let toks = split_words(seg);
    if toks.len() > 0 {
        Some(basename_of(&toks[0]))
    } else {
        None
    }
}

/// `program_of(seg)` or the empty name.
pub fn program_name_of(seg: &Vec<char>) -> (r: Vec<char>)
    ensures
        r@ == program_or_empty(seg@),
{
    match program_of(seg) {
        Some(p) => p,
        None => Vec::new(),
    }
}

/// The command name of a segment, if it has any token after the prefixes.
pub fn command_name_of(seg: &Vec<char>) -> (r: Option<Vec<char>>)
    ensures
        r is Some <==> command_name(seg@) is Some,
        r matches Some(p) ==> command_name(seg@) == Some(p@),
{
    let toks = args_of(seg);
    if toks.len() > 0 {
        let name = after_last_of(&toks[0], &chars2('/', '\\'));
        Some(without_suffix(&name, ".exe"))
    } else {
        None
    }
}

/// The segments of a normalized command.
pub fn segments_of(command: &Vec<char>) -> (r: Vec<Vec<char>>)
    ensures
        seqs(r@) == segments(command@),
{
    let s1 = split_on_chars(command, &chars2(';', '\n'));
    let s2 = split_all_on_str(&s1, &chars_of("&&"));
    let s3 = split_all_on_str(&s2, &chars_of("||"));
    let s4 = split_all_on_str(&s3, &chars_of("|"));
    trim_and_drop_empty(&s4)
}

/// Collapse the whitespace of a lowercased command.
pub fn normalized(lowered: &Vec<char>) -> (r: Vec<char>)
    ensures
        r@ == normalize(lowered@),
{
    let ws = split_words(lowered);
    join_with(&ws, &chars1(' '))
}


// ---------------------------------------------------------------------------
// Critical paths
// ---------------------------------------------------------------------------

/// The home directory itself, but not something inside it.
pub open spec fn is_home_path(p: Seq<char>) -> bool {
    ||| p == "~"@ || p == "~/"@ || p == "~/*"@
    ||| p == "$home"@ || p == "$home/"@ || p == "$home/*"@
}

/// Everything in the working directory or its parent.
pub open spec fn is_cwd_glob(p: Seq<char>) -> bool {
    ||| p == "*"@ || p == "."@ || p == "./"@ || p == "./*"@
    ||| p == ".."@ || p == "../"@ || p == "../*"@
}

pub open spec fn quote_chars() -> Seq<char> {
    seq!['"', '\'']
}

/// The path with its trailing `*`s and then its trailing `/`s removed.
pub open spec fn strip_globs(p: Seq<char>) -> Seq<char> {
    trim_end_char(trim_end_char(p, '*'), '/')
}

/// How many directory levels a path names.
pub open spec fn depth(p: Seq<char>) -> nat {
    count_nonempty(split_set(p, seq!['/']))
}

/// Strictly inside one of the temp directories.
pub open spec fn in_scratch(t: Seq<char>) -> bool {
    ||| t.len() > "/tmp/"@.len() && starts_with(t, "/tmp/"@)
    ||| t.len() > "/var/tmp/"@.len() && starts_with(t, "/var/tmp/"@)
    ||| t.len() > "/private/tmp/"@.len() && starts_with(t, "/private/tmp/"@)
    ||| t.len() > "/var/folders/"@.len() && starts_with(t, "/var/folders/"@)
}

/// Paths where a recursive delete is almost certainly not what was meant:
/// the home directory, the working directory, the root, and the upper two
/// levels of the filesystem, except anything below a temp directory.
pub open spec fn is_critical_path(raw: Seq<char>) -> bool {
    let path = trim_set(raw, quote_chars());
    if is_home_path(path) || is_cwd_glob(path) {
        true
    } else if !starts_with(path, "/"@) {
        false
    } else if path == "/"@ || path == "/*"@ {
        true
    } else {
        let t = strip_globs(path);
        !in_scratch(t) && depth(t) <= 2
    }
}

/// The profile directory itself, in every spelling Windows shells use.
pub open spec fn is_profile_path(p: Seq<char>) -> bool {
    is_home_path(p) || p == "$env:userprofile"@
}

pub open spec fn is_ascii_alpha(c: char) -> bool {
    ('a' <= c && c <= 'z') || ('A' <= c && c <= 'Z')
}

/// The same idea as `is_critical_path`, in Windows spelling: the profile,
/// the working directory, a drive root or one level under it.
pub open spec fn is_critical_windows_path(raw: Seq<char>) -> bool {
    let path = replace_char(trim_set(raw, quote_chars()), '\\', '/');
    if is_profile_path(path) || is_cwd_glob(path) {
        true
    } else {
        match find_char(path, ':') {
            None => false,
            Some(k) => {
                let drive = path.take(k);
                let rest = path.skip(k + 1);
                drive.len() == 1 && is_ascii_alpha(drive[0]) && depth(strip_globs(rest)) <= 1
            },
        }
    }
}

fn home_path(p: &Vec<char>) -> (r: bool)
    ensures
        r == is_home_path(p@),
{
    eq_str(p, "~") || eq_str(p, "~/") || eq_str(p, "~/*") || eq_str(p, "$home") || eq_str(
        p,
        "$home/",
    ) || eq_str(p, "$home/*")
}

fn cwd_glob(p: &Vec<char>) -> (r: bool)
    ensures
        r == is_cwd_glob(p@),
{
    eq_str(p, "*") || eq_str(p, ".") || eq_str(p, "./") || eq_str(p, "./*") || eq_str(p, "..")
        || eq_str(p, "../") || eq_str(p, "../*")
}

fn longer_and_starts(t: &Vec<char>, root: &str) -> (r: bool)
    ensures
        r == (t@.len() > root@.len() && starts_with(t@, root@)),
{
    let rv = chars_of(root);
    t.len() > rv.len() && has_prefix_str(t, root)
}

fn scratch(t: &Vec<char>) -> (r: bool)
    ensures
        r == in_scratch(t@),
{
    longer_and_starts(t, "/tmp/") || longer_and_starts(t, "/var/tmp/") || longer_and_starts(
        t,
        "/private/tmp/",
    ) || longer_and_starts(t, "/var/folders/")
}

fn without_globs(p: &Vec<char>) -> (r: Vec<char>)
    ensures
        r@ == strip_globs(p@),
{
    let a = trim_end_ch(p, '*');
    trim_end_ch(&a, '/')
}

fn depth_of(p: &Vec<char>) -> (r: usize)
    ensures
        r == depth(p@),
{
    let pieces = split_on_chars(p, &chars1('/'));
    count_nonempty_pieces(&pieces)
}

/// Whether a recursive delete aimed at `raw` is worth a question.
pub fn is_critical_path_exec(raw: &Vec<char>) -> (r: bool)
    ensures
        r == is_critical_path(raw@),
{
    let path = trim_chars(raw, &chars2('"', '\''));
    if home_path(&path) || cwd_glob(&path) {
        true
    } else if !has_prefix_str(&path, "/") {
        false
    } else if eq_str(&path, "/") || eq_str(&path, "/*") {
        true
    } else {
        let t = without_globs(&path);
        !scratch(&t) && depth_of(&t) <= 2
    }
}

/// The Windows-spelling counterpart of `is_critical_path_exec`.
pub fn is_critical_windows_path_exec(raw: &Vec<char>) -> (r: bool)
    ensures
        r == is_critical_windows_path(raw@),
{
    let unquoted = trim_chars(raw, &chars2('"', '\''));
    let path = replaced(&unquoted, '\\', '/');
    if home_path(&path) || eq_str(&path, "$env:userprofile") || cwd_glob(&path) {
        return true;
    }
    match position_of(&path, ':') {
        None => false,
        Some(k) => {
            let drive = sub_vec(&path, 0, k);
            let rest = sub_vec(&path, k + 1, path.len());
            proof {
                assert(drive@ =~= path@.take(k as int));
                assert(rest@ =~= path@.skip(k + 1));
            }
            if drive.len() != 1 {
                return false;
            }
            let d = drive[0];
            let alpha = ('a' <= d && d <= 'z') || ('A' <= d && d <= 'Z');
            alpha && depth_of(&without_globs(&rest)) <= 1
        },
    }
}


// ---------------------------------------------------------------------------
// Token predicates
// ---------------------------------------------------------------------------

/// A short flag that includes `r`, or `--recursive`.
pub open spec fn is_recursive_flag(t: Seq<char>) -> bool {
    t == "--recursive"@ || (starts_with(t, "-"@) && !starts_with(t, "--"@) && t.contains('r'))
}

/// An operand of `rm` that names a critical path in either spelling.
pub open spec fn is_rm_target(t: Seq<char>) -> bool {
    !starts_with(t, "-"@) && (is_critical_path(t) || is_critical_windows_path(t))
}

pub open spec fn is_interpreter(name: Seq<char>) -> bool {
    ||| name == "sh"@ || name == "bash"@ || name == "zsh"@ || name == "fish"@
    ||| name == "python"@ || name == "python3"@ || name == "perl"@ || name == "ruby"@
    ||| name == "node"@ || name == "iex"@
}

pub open spec fn is_chmod_recursive(t: Seq<char>) -> bool {
    t == "-r"@ || t == "-R"@ || t == "--recursive"@
}

pub open spec fn is_permissive_mode(t: Seq<char>) -> bool {
    t == "777"@ || t == "a+rwx"@ || t == "0777"@
}

pub open spec fn is_power_command(name: Seq<char>) -> bool {
    name == "shutdown"@ || name == "reboot"@ || name == "halt"@ || name == "poweroff"@
}

pub open spec fn is_force_flag(t: Seq<char>) -> bool {
    t == "--force"@ || t == "-f"@ || starts_with(t, "--force-with-lease"@)
}

pub open spec fn is_shared_branch(t: Seq<char>) -> bool {
    ||| t == "main"@ || t == "master"@ || t == "develop"@
    ||| t == "release"@ || t == "production"@
}

pub open spec fn is_sql_client(name: Seq<char>) -> bool {
    ||| name == "psql"@ || name == "mysql"@ || name == "mariadb"@ || name == "sqlite3"@
    ||| name == "sqlcmd"@ || name == "mongosh"@ || name == "clickhouse-client"@
    ||| name == "cockroach"@
}

/// Every one of these is an alias of Remove-Item in PowerShell.
pub open spec fn is_remove_item_alias(name: Seq<char>) -> bool {
    ||| name == "remove-item"@ || name == "ri"@ || name == "rm"@ || name == "rmdir"@
    ||| name == "rd"@ || name == "del"@ || name == "erase"@
}

/// `-Recurse` or any prefix of it at least as long as `-r`.
pub open spec fn is_recurse_switch(t: Seq<char>) -> bool {
    starts_with(t, "-r"@) && starts_with("-recurse"@, t)
}

/// An operand of `Remove-Item` that names a critical Windows path.
pub open spec fn is_windows_target(t: Seq<char>) -> bool {
    !starts_with(t, "-"@) && is_critical_windows_path(t)
}

pub open spec fn is_cmd_delete(name: Seq<char>) -> bool {
    name == "del"@ || name == "erase"@ || name == "rmdir"@ || name == "rd"@
}

/// An operand of `del`/`rd` (neither a `/` switch nor a `-` flag) naming a
/// critical Windows path.
pub open spec fn is_cmd_target(t: Seq<char>) -> bool {
    !starts_with(t, "/"@) && !starts_with(t, "-"@) && is_critical_windows_path(t)
}

pub open spec fn is_partitioner(name: Seq<char>) -> bool {
    name == "diskpart"@ || name == "fdisk"@ || name == "parted"@ || name == "gparted"@
}

/// How many of the tokens are not flags.
pub open spec fn count_operands(toks: Seq<Seq<char>>) -> nat
    decreases toks.len(),
{
    if toks.len() == 0 {
        0
    } else {
        count_operands(toks.drop_last()) + if !starts_with(toks.last(), "-"@) {
            1nat
        } else {
            0nat
        }
    }
}

fn recursive_flag(t: &Vec<char>) -> (r: bool)
    ensures
        r == is_recursive_flag(t@),
{
    eq_str(t, "--recursive") || (has_prefix_str(t, "-") && !has_prefix_str(t, "--")
        && contains_char(t, 'r'))
}

fn rm_target(t: &Vec<char>) -> (r: bool)
    ensures
        r == is_rm_target(t@),
{
    !has_prefix_str(t, "-") && (is_critical_path_exec(t) || is_critical_windows_path_exec(t))
}

fn interpreter(name: &Vec<char>) -> (r: bool)
    ensures
        r == is_interpreter(name@),
{
    eq_str(name, "sh") || eq_str(name, "bash") || eq_str(name, "zsh") || eq_str(name, "fish")
        || eq_str(name, "python") || eq_str(name, "python3") || eq_str(name, "perl") || eq_str(
        name,
        "ruby",
    ) || eq_str(name, "node") || eq_str(name, "iex")
}

fn chmod_recursive(t: &Vec<char>) -> (r: bool)
    ensures
        r == is_chmod_recursive(t@),
{
    eq_str(t, "-r") || eq_str(t, "-R") || eq_str(t, "--recursive")
}

fn permissive_mode(t: &Vec<char>) -> (r: bool)
    ensures
        r == is_permissive_mode(t@),
{
    eq_str(t, "777") || eq_str(t, "a+rwx") || eq_str(t, "0777")
}

fn power_command(name: &Vec<char>) -> (r: bool)
    ensures
        r == is_power_command(name@),
{
    eq_str(name, "shutdown") || eq_str(name, "reboot") || eq_str(name, "halt") || eq_str(
        name,
        "poweroff",
    )
}

fn force_flag(t: &Vec<char>) -> (r: bool)
    ensures
        r == is_force_flag(t@),
{
    eq_str(t, "--force") || eq_str(t, "-f") || has_prefix_str(t, "--force-with-lease")
}

fn shared_branch(t: &Vec<char>) -> (r: bool)
    ensures
        r == is_shared_branch(t@),
{
    eq_str(t, "main") || eq_str(t, "master") || eq_str(t, "develop") || eq_str(t, "release")
        || eq_str(t, "production")
}

fn sql_client(name: &Vec<char>) -> (r: bool)
    ensures
        r == is_sql_client(name@),
{
    eq_str(name, "psql") || eq_str(name, "mysql") || eq_str(name, "mariadb") || eq_str(
        name,
        "sqlite3",
    ) || eq_str(name, "sqlcmd") || eq_str(name, "mongosh") || eq_str(name, "clickhouse-client")
        || eq_str(name, "cockroach")
}

fn remove_item_alias(name: &Vec<char>) -> (r: bool)
    ensures
        r == is_remove_item_alias(name@),
{
    eq_str(name, "remove-item") || eq_str(name, "ri") || eq_str(name, "rm") || eq_str(
        name,
        "rmdir",
    ) || eq_str(name, "rd") || eq_str(name, "del") || eq_str(name, "erase")
}

fn recurse_switch(t: &Vec<char>) -> (r: bool)
    ensures
        r == is_recurse_switch(t@),
{
    let recurse = chars_of("-recurse");
    has_prefix_str(t, "-r") && crate::text::has_prefix(&recurse, t)
}

fn windows_target(t: &Vec<char>) -> (r: bool)
    ensures
        r == is_windows_target(t@),
{
    !has_prefix_str(t, "-") && is_critical_windows_path_exec(t)
}

fn cmd_delete(name: &Vec<char>) -> (r: bool)
    ensures
        r == is_cmd_delete(name@),
{
    eq_str(name, "del") || eq_str(name, "erase") || eq_str(name, "rmdir") || eq_str(name, "rd")
}

fn cmd_target(t: &Vec<char>) -> (r: bool)
    ensures
        r == is_cmd_target(t@),
{
    !has_prefix_str(t, "/") && !has_prefix_str(t, "-") && is_critical_windows_path_exec(t)
}

fn partitioner(name: &Vec<char>) -> (r: bool)
    ensures
        r == is_partitioner(name@),
{
    eq_str(name, "diskpart") || eq_str(name, "fdisk") || eq_str(name, "parted") || eq_str(
        name,
        "gparted",
    )
}

fn operands_from(toks: &Vec<Vec<char>>, from: usize) -> (r: usize)
    requires
        from <= toks.len(),
    ensures
        r == count_operands(seqs(toks@).skip(from as int)),
{
    let ghost ts = seqs(toks@).skip(from as int);
    let mut r: usize = 0;
    let mut i: usize = from;
    while i < toks.len()
        invariant
            from <= i <= toks.len(),
            ts == seqs(toks@).skip(from as int),
            r == count_operands(ts.take(i - from)),
            r <= i - from,
        decreases toks.len() - i,
    {
        if !has_prefix_str(&toks[i], "-") {
            r += 1;
        }
        i += 1;
        assert(ts.take(i - from).drop_last() =~= ts.take(i - from - 1));
    }
    assert(ts.take(i - from) =~= ts);
    r
}

/// Whether some token equals the given string.
fn has_token(toks: &Vec<Vec<char>>, word: &str) -> (r: bool)
    ensures
        r == seqs(toks@).contains(word@),
{
    let mut i: usize = 0;
    while i < toks.len()
        invariant
            i <= toks.len(),
            forall|k: int| 0 <= k < i ==> seqs(toks@)[k] != word@,
        decreases toks.len() - i,
    {
        if eq_str(&toks[i], word) {
            assert(seqs(toks@)[i as int] == word@);
            return true;
        }
        i += 1;
    }
    false
}


// ---------------------------------------------------------------------------
// Segments and rules
// ---------------------------------------------------------------------------

/// Some text in `items[from..]` satisfies `p`.
pub open spec fn some_from(items: Seq<Seq<char>>, from: int, p: spec_fn(Seq<char>) -> bool) -> bool {
    exists|j: int| from <= j < items.len() && p(#[trigger] items[j])
}

/// Some segment of the command satisfies `p`.
pub open spec fn some_segment(command: Seq<char>, p: spec_fn(Seq<char>) -> bool) -> bool {
    some_from(segments(command), 0, p)
}

/// `rm` with a recursive flag and a critical path among its operands.
pub open spec fn rm_segment(seg: Seq<char>) -> bool {
    let t = args(seg);
    &&& t.len() > 0
    &&& basename(t[0]) == "rm"@
    &&& some_from(t, 1, |x: Seq<char>| is_recursive_flag(x))
    &&& some_from(t, 1, |x: Seq<char>| is_rm_target(x))
}

/// `dd` writing to a device (reading from one with `if=` is harmless).
pub open spec fn dd_segment(seg: Seq<char>) -> bool {
    &&& (program(seg) == Some("dd"@) || (args(seg).len() > 0 && args(seg)[0] == "dd"@))
    &&& (contains_seq(seg, "of=/dev/"@) || contains_seq(seg, "of=\\\\.\\"@))
}

pub open spec fn mkfs_segment(seg: Seq<char>) -> bool {
    let name = program_or_empty(seg);
    starts_with(name, "mkfs"@) || name == "mkswap"@ || name == "newfs"@
}

pub open spec fn interpreter_segment(seg: Seq<char>) -> bool {
    is_interpreter(program_or_empty(seg))
}

/// A recursive, world-writable `chmod` of a critical path.
pub open spec fn chmod_segment(seg: Seq<char>) -> bool {
    let t = args(seg);
    &&& t.len() > 0
    &&& t[0] == "chmod"@
    &&& some_from(t, 0, |x: Seq<char>| is_chmod_recursive(x))
    &&& some_from(t, 0, |x: Seq<char>| is_permissive_mode(x))
    &&& some_from(t, 1, |x: Seq<char>| is_critical_path(x))
}

pub open spec fn shutdown_segment(seg: Seq<char>) -> bool {
    is_power_command(program_or_empty(seg)) || (args(seg).len() > 0 && is_power_command(
        args(seg)[0],
    ))
}

/// A forced `git push` that names a shared branch, or no branch at all
/// (which pushes the current one, possibly main).
pub open spec fn force_push_segment(seg: Seq<char>) -> bool {
    let t = args(seg);
    &&& t.len() > 0
    &&& t[0] == "git"@
    &&& t.contains("push"@)
    &&& some_from(t, 0, |x: Seq<char>| is_force_flag(x))
    &&& (some_from(t, 0, |x: Seq<char>| is_shared_branch(x)) || count_operands(t.skip(2)) < 2)
}

pub open spec fn sql_client_segment(seg: Seq<char>) -> bool {
    match command_name(seg) {
        Some(name) => is_sql_client(name),
        None => false,
    }
}

/// A recursive `Remove-Item`, in any alias, aimed at a critical path.
pub open spec fn powershell_delete_segment(seg: Seq<char>) -> bool {
    match command_name(seg) {
        Some(name) => {
            &&& is_remove_item_alias(name)
            &&& some_from(args(seg), 1, |x: Seq<char>| is_recurse_switch(x))
            &&& some_from(args(seg), 1, |x: Seq<char>| is_windows_target(x))
        },
        None => false,
    }
}

/// `del /s` or `rd /s` aimed at a critical path.
pub open spec fn cmd_delete_segment(seg: Seq<char>) -> bool {
    match command_name(seg) {
        Some(name) => {
            &&& is_cmd_delete(name)
            &&& args(seg).contains("/s"@)
            &&& some_from(args(seg), 1, |x: Seq<char>| is_cmd_target(x))
        },
        None => false,
    }
}

pub open spec fn partition_segment(seg: Seq<char>) -> bool {
    is_partitioner(program_or_empty(seg))
}

pub open spec fn rule_recursive_delete(c: Seq<char>) -> bool {
    some_segment(c, |s: Seq<char>| rm_segment(s))
}

pub open spec fn rule_dd_overwrite(c: Seq<char>) -> bool {
    some_segment(c, |s: Seq<char>| dd_segment(s))
}

pub open spec fn rule_mkfs(c: Seq<char>) -> bool {
    some_segment(c, |s: Seq<char>| mkfs_segment(s))
}

pub open spec fn rule_block_device(c: Seq<char>) -> bool {
    ||| contains_seq(c, "> /dev/sd"@) || contains_seq(c, ">/dev/sd"@)
    ||| contains_seq(c, "> /dev/nvme"@) || contains_seq(c, ">/dev/nvme"@)
    ||| contains_seq(c, "> /dev/disk"@) || contains_seq(c, ">/dev/disk"@)
    ||| contains_seq(c, "> /dev/hd"@) || contains_seq(c, ">/dev/hd"@)
}

pub open spec fn mentions_download(c: Seq<char>) -> bool {
    ||| contains_seq(c, "curl "@) || contains_seq(c, "wget "@)
    ||| contains_seq(c, "iwr "@) || contains_seq(c, "invoke-webrequest"@)
}

/// A download piped into an interpreter: the classic `curl ... | sh`.
pub open spec fn rule_curl_pipe_shell(c: Seq<char>) -> bool {
    &&& mentions_download(c)
    &&& (some_from(segments(c), 1, |s: Seq<char>| interpreter_segment(s)) || contains_seq(
        c,
        "| iex"@,
    ) || contains_seq(c, "|iex"@))
}

/// Whitespace inside the bomb varies freely, so it is compared without it.
pub open spec fn rule_fork_bomb(c: Seq<char>) -> bool {
    contains_seq(remove_ws(c), ":(){:|:&};:"@)
}

pub open spec fn rule_reckless_chmod(c: Seq<char>) -> bool {
    some_segment(c, |s: Seq<char>| chmod_segment(s))
}

pub open spec fn rule_shutdown(c: Seq<char>) -> bool {
    some_segment(c, |s: Seq<char>| shutdown_segment(s)) || contains_seq(c, "restart-computer"@)
        || contains_seq(c, "stop-computer"@)
}

pub open spec fn rule_force_push(c: Seq<char>) -> bool {
    some_segment(c, |s: Seq<char>| force_push_segment(s))
}

pub open spec fn mentions_destructive_statement(c: Seq<char>) -> bool {
    ||| contains_seq(c, "drop table"@) || contains_seq(c, "drop database"@)
    ||| contains_seq(c, "drop schema"@) || contains_seq(c, "truncate table"@)
    ||| contains_seq(c, "delete from"@)
}

/// A destructive statement with a database client somewhere in the command:
/// `grep "delete from" dump.sql` touches no database.
pub open spec fn rule_destructive_sql(c: Seq<char>) -> bool {
    some_segment(c, |s: Seq<char>| sql_client_segment(s)) && mentions_destructive_statement(c)
}

pub open spec fn rule_powershell_recursive_delete(c: Seq<char>) -> bool {
    some_segment(c, |s: Seq<char>| powershell_delete_segment(s))
}

pub open spec fn rule_powershell_format(c: Seq<char>) -> bool {
    contains_seq(c, "format-volume"@) || contains_seq(c, "clear-disk"@) || contains_seq(
        c,
        "initialize-disk"@,
    )
}

pub open spec fn rule_cmd_recursive_delete(c: Seq<char>) -> bool {
    some_segment(c, |s: Seq<char>| cmd_delete_segment(s))
}

pub open spec fn rule_disk_partitioning(c: Seq<char>) -> bool {
    some_segment(c, |s: Seq<char>| partition_segment(s))
}

/// Whether the rule that reports `reason` matches the normalized command.
pub open spec fn rule_matches(reason: Reason, c: Seq<char>) -> bool {
    match reason {
        Reason::RecursiveDelete => rule_recursive_delete(c),
        Reason::DdOverwrite => rule_dd_overwrite(c),
        Reason::Mkfs => rule_mkfs(c),
        Reason::BlockDevice => rule_block_device(c),
        Reason::CurlPipeShell => rule_curl_pipe_shell(c),
        Reason::ForkBomb => rule_fork_bomb(c),
        Reason::RecklessChmod => rule_reckless_chmod(c),
        Reason::Shutdown => rule_shutdown(c),
        Reason::ForcePush => rule_force_push(c),
        Reason::DestructiveSql => rule_destructive_sql(c),
        Reason::PowerShellRecursiveDelete => rule_powershell_recursive_delete(c),
        Reason::PowerShellFormat => rule_powershell_format(c),
        Reason::CmdRecursiveDelete => rule_cmd_recursive_delete(c),
        Reason::DiskPartitioning => rule_disk_partitioning(c),
    }
}

/// The position of a rule in the order the rules are tried.
pub open spec fn rank(reason: Reason) -> int {
    match reason {
        Reason::RecursiveDelete => 0,
        Reason::DdOverwrite => 1,
        Reason::Mkfs => 2,
        Reason::BlockDevice => 3,
        Reason::CurlPipeShell => 4,
        Reason::ForkBomb => 5,
        Reason::RecklessChmod => 6,
        Reason::Shutdown => 7,
        Reason::ForcePush => 8,
        Reason::DestructiveSql => 9,
        Reason::PowerShellRecursiveDelete => 10,
        Reason::PowerShellFormat => 11,
        Reason::CmdRecursiveDelete => 12,
        Reason::DiskPartitioning => 13,
    }
}

/// The verdict on a normalized command: the first rule that matches.
pub open spec fn risk_of(c: Seq<char>) -> Risk {
    if rule_recursive_delete(c) {
        Risk::Dangerous(Reason::RecursiveDelete)
    } else if rule_dd_overwrite(c) {
        Risk::Dangerous(Reason::DdOverwrite)
    } else if rule_mkfs(c) {
        Risk::Dangerous(Reason::Mkfs)
    } else if rule_block_device(c) {
        Risk::Dangerous(Reason::BlockDevice)
    } else if rule_curl_pipe_shell(c) {
        Risk::Dangerous(Reason::CurlPipeShell)
    } else if rule_fork_bomb(c) {
        Risk::Dangerous(Reason::ForkBomb)
    } else if rule_reckless_chmod(c) {
        Risk::Dangerous(Reason::RecklessChmod)
    } else if rule_shutdown(c) {
        Risk::Dangerous(Reason::Shutdown)
    } else if rule_force_push(c) {
        Risk::Dangerous(Reason::ForcePush)
    } else if rule_destructive_sql(c) {
        Risk::Dangerous(Reason::DestructiveSql)
    } else if rule_powershell_recursive_delete(c) {
        Risk::Dangerous(Reason::PowerShellRecursiveDelete)
    } else if rule_powershell_format(c) {
        Risk::Dangerous(Reason::PowerShellFormat)
    } else if rule_cmd_recursive_delete(c) {
        Risk::Dangerous(Reason::CmdRecursiveDelete)
    } else if rule_disk_partitioning(c) {
        Risk::Dangerous(Reason::DiskPartitioning)
    } else {
        Risk::Safe
    }
}


// ---------------------------------------------------------------------------
// Executable rules
// ---------------------------------------------------------------------------

fn rm_segment_exec(seg: &Vec<char>) -> (r: bool)
    ensures
        r == rm_segment(seg@),
{
    let t = args_of(seg);
    if t.len() == 0 {
        return false;
    }
    let b = basename_of(&t[0]);
    if !eq_str(&b, "rm") {
        return false;
    }
    any_from(&t, 1, recursive_flag, Ghost(|x: Seq<char>| is_recursive_flag(x))) && any_from(
        &t,
        1,
        rm_target,
        Ghost(|x: Seq<char>| is_rm_target(x)),
    )
}

fn is_dangerous_rm(c: &Vec<char>, segs: &Vec<Vec<char>>) -> (r: bool)
    requires
        seqs(segs@) == segments(c@),
    ensures
        r == rule_recursive_delete(c@),
{
    any_from(segs, 0, rm_segment_exec, Ghost(|s: Seq<char>| rm_segment(s)))
}


fn dd_segment_exec(seg: &Vec<char>) -> (r: bool)
    ensures
        r == dd_segment(seg@),
{
    let is_dd = match program_of(seg) {
        Some(p) => eq_str(&p, "dd"),
        None => false,
    };
    let t = args_of(seg);
    let runs_dd = is_dd || (t.len() > 0 && eq_str(&t[0], "dd"));
    runs_dd && (contains_str(seg, "of=/dev/") || contains_str(seg, "of=\\\\.\\"))
}

fn is_dangerous_dd(c: &Vec<char>, segs: &Vec<Vec<char>>) -> (r: bool)
    requires
        seqs(segs@) == segments(c@),
    ensures
        r == rule_dd_overwrite(c@),
{
    any_from(segs, 0, dd_segment_exec, Ghost(|s: Seq<char>| dd_segment(s)))
}

fn mkfs_segment_exec(seg: &Vec<char>) -> (r: bool)
    ensures
        r == mkfs_segment(seg@),
{
    let name = program_name_of(seg);
    has_prefix_str(&name, "mkfs") || eq_str(&name, "mkswap") || eq_str(&name, "newfs")
}

fn is_mkfs(c: &Vec<char>, segs: &Vec<Vec<char>>) -> (r: bool)
    requires
        seqs(segs@) == segments(c@),
    ensures
        r == rule_mkfs(c@),
{
    any_from(segs, 0, mkfs_segment_exec, Ghost(|s: Seq<char>| mkfs_segment(s)))
}

fn writes_to_block_device(c: &Vec<char>) -> (r: bool)
    ensures
        r == rule_block_device(c@),
{
    contains_str(c, "> /dev/sd") || contains_str(c, ">/dev/sd") || contains_str(c, "> /dev/nvme")
        || contains_str(c, ">/dev/nvme") || contains_str(c, "> /dev/disk") || contains_str(
        c,
        ">/dev/disk",
    ) || contains_str(c, "> /dev/hd") || contains_str(c, ">/dev/hd")
}

fn interpreter_segment_exec(seg: &Vec<char>) -> (r: bool)
    ensures
        r == interpreter_segment(seg@),
{
    let name = program_name_of(seg);
    interpreter(&name)
}

fn is_curl_pipe_shell(c: &Vec<char>, segs: &Vec<Vec<char>>) -> (r: bool)
    requires
        seqs(segs@) == segments(c@),
    ensures
        r == rule_curl_pipe_shell(c@),
{
    let downloads = contains_str(c, "curl ") || contains_str(c, "wget ") || contains_str(c, "iwr ")
        || contains_str(c, "invoke-webrequest");
    if !downloads {
        return false;
    }
    any_from(segs, 1, interpreter_segment_exec, Ghost(|s: Seq<char>| interpreter_segment(s)))
        || contains_str(c, "| iex") || contains_str(c, "|iex")
}

fn is_fork_bomb(c: &Vec<char>) -> (r: bool)
    ensures
        r == rule_fork_bomb(c@),
{
    let dense = without_whitespace(c);
    contains_str(&dense, ":(){:|:&};:")
}

fn critical_path(t: &Vec<char>) -> (r: bool)
    ensures
        r == is_critical_path(t@),
{
    is_critical_path_exec(t)
}

fn chmod_segment_exec(seg: &Vec<char>) -> (r: bool)
    ensures
        r == chmod_segment(seg@),
{
    let t = args_of(seg);
    if t.len() == 0 || !eq_str(&t[0], "chmod") {
        return false;
    }
    any_from(&t, 0, chmod_recursive, Ghost(|x: Seq<char>| is_chmod_recursive(x))) && any_from(
        &t,
        0,
        permissive_mode,
        Ghost(|x: Seq<char>| is_permissive_mode(x)),
    ) && any_from(&t, 1, critical_path, Ghost(|x: Seq<char>| is_critical_path(x)))
}

fn is_reckless_chmod(c: &Vec<char>, segs: &Vec<Vec<char>>) -> (r: bool)
    requires
        seqs(segs@) == segments(c@),
    ensures
        r == rule_reckless_chmod(c@),
{
    any_from(segs, 0, chmod_segment_exec, Ghost(|s: Seq<char>| chmod_segment(s)))
}

fn shutdown_segment_exec(seg: &Vec<char>) -> (r: bool)
    ensures
        r == shutdown_segment(seg@),
{
    let name = program_name_of(seg);
    let t = args_of(seg);
    power_command(&name) || (t.len() > 0 && power_command(&t[0]))
}

fn is_shutdown(c: &Vec<char>, segs: &Vec<Vec<char>>) -> (r: bool)
    requires
        seqs(segs@) == segments(c@),
    ensures
        r == rule_shutdown(c@),
{
    any_from(segs, 0, shutdown_segment_exec, Ghost(|s: Seq<char>| shutdown_segment(s)))
        || contains_str(c, "restart-computer") || contains_str(c, "stop-computer")
}

fn force_push_segment_exec(seg: &Vec<char>) -> (r: bool)
    ensures
        r == force_push_segment(seg@),
{
    let t = args_of(seg);
    if t.len() == 0 || !eq_str(&t[0], "git") || !has_token(&t, "push") {
        return false;
    }
    if t.len() < 2 {
        proof {
            reveal_strlit("git");
            reveal_strlit("push");
            assert(seqs(t@)[0] == "git"@);
            if seqs(t@).contains("push"@) {
                let k = choose|k: int| 0 <= k < seqs(t@).len() && seqs(t@)[k] == "push"@;
                assert(k == 0);
                assert("git"@[0] != "push"@[0]);
            }
        }
        return false;
    }
    if !any_from(&t, 0, force_flag, Ghost(|x: Seq<char>| is_force_flag(x))) {
        return false;
    }
    any_from(&t, 0, shared_branch, Ghost(|x: Seq<char>| is_shared_branch(x))) || operands_from(
        &t,
        2,
    ) < 2
}

fn is_force_push(c: &Vec<char>, segs: &Vec<Vec<char>>) -> (r: bool)
    requires
        seqs(segs@) == segments(c@),
    ensures
        r == rule_force_push(c@),
{
    any_from(segs, 0, force_push_segment_exec, Ghost(|s: Seq<char>| force_push_segment(s)))
}

fn sql_client_segment_exec(seg: &Vec<char>) -> (r: bool)
    ensures
        r == sql_client_segment(seg@),
{
    match command_name_of(seg) {
        Some(name) => sql_client(&name),
        None => false,
    }
}

fn is_destructive_sql(c: &Vec<char>, segs: &Vec<Vec<char>>) -> (r: bool)
    requires
        seqs(segs@) == segments(c@),
    ensures
        r == rule_destructive_sql(c@),
{
    let mentions_a_client = any_from(
        segs,
        0,
        sql_client_segment_exec,
        Ghost(|s: Seq<char>| sql_client_segment(s)),
    );
    mentions_a_client && (contains_str(c, "drop table") || contains_str(c, "drop database")
        || contains_str(c, "drop schema") || contains_str(c, "truncate table") || contains_str(
        c,
        "delete from",
    ))
}

fn powershell_delete_segment_exec(seg: &Vec<char>) -> (r: bool)
    ensures
        r == powershell_delete_segment(seg@),
{
    match command_name_of(seg) {
        Some(name) => {
            if !remove_item_alias(&name) {
                return false;
            }
            let t = args_of(seg);
            any_from(&t, 1, recurse_switch, Ghost(|x: Seq<char>| is_recurse_switch(x)))
                && any_from(&t, 1, windows_target, Ghost(|x: Seq<char>| is_windows_target(x)))
        },
        None => false,
    }
}

fn is_powershell_recursive_delete(c: &Vec<char>, segs: &Vec<Vec<char>>) -> (r: bool)
    requires
        seqs(segs@) == segments(c@),
    ensures
        r == rule_powershell_recursive_delete(c@),
{
    any_from(
        segs,
        0,
        powershell_delete_segment_exec,
        Ghost(|s: Seq<char>| powershell_delete_segment(s)),
    )
}

fn is_powershell_format(c: &Vec<char>) -> (r: bool)
    ensures
        r == rule_powershell_format(c@),
{
    contains_str(c, "format-volume") || contains_str(c, "clear-disk") || contains_str(
        c,
        "initialize-disk",
    )
}

fn cmd_delete_segment_exec(seg: &Vec<char>) -> (r: bool)
    ensures
        r == cmd_delete_segment(seg@),
{
    match command_name_of(seg) {
        Some(name) => {
            if !cmd_delete(&name) {
                return false;
            }
            let t = args_of(seg);
            has_token(&t, "/s") && any_from(
                &t,
                1,
                cmd_target,
                Ghost(|x: Seq<char>| is_cmd_target(x)),
            )
        },
        None => false,
    }
}

fn is_cmd_recursive_delete(c: &Vec<char>, segs: &Vec<Vec<char>>) -> (r: bool)
    requires
        seqs(segs@) == segments(c@),
    ensures
        r == rule_cmd_recursive_delete(c@),
{
    any_from(segs, 0, cmd_delete_segment_exec, Ghost(|s: Seq<char>| cmd_delete_segment(s)))
}

fn partition_segment_exec(seg: &Vec<char>) -> (r: bool)
    ensures
        r == partition_segment(seg@),
{
    let name = program_name_of(seg);
    partitioner(&name)
}

fn is_disk_partitioning(c: &Vec<char>, segs: &Vec<Vec<char>>) -> (r: bool)
    requires
        seqs(segs@) == segments(c@),
    ensures
        r == rule_disk_partitioning(c@),
{
    any_from(segs, 0, partition_segment_exec, Ghost(|s: Seq<char>| partition_segment(s)))
}

/// The verdict on a command that is already normalized: the first rule that
/// matches, in the order of `rank`.
pub fn classify_normalized(c: &Vec<char>) -> (r: Risk)
    ensures
        r == risk_of(c@),
{
    let segs = segments_of(c);
    if is_dangerous_rm(c, &segs) {
        Risk::Dangerous(Reason::RecursiveDelete)
    } else if is_dangerous_dd(c, &segs) {
        Risk::Dangerous(Reason::DdOverwrite)
    } else if is_mkfs(c, &segs) {
        Risk::Dangerous(Reason::Mkfs)
    } else if writes_to_block_device(c) {
        Risk::Dangerous(Reason::BlockDevice)
    } else if is_curl_pipe_shell(c, &segs) {
        Risk::Dangerous(Reason::CurlPipeShell)
    } else if is_fork_bomb(c) {
        Risk::Dangerous(Reason::ForkBomb)
    } else if is_reckless_chmod(c, &segs) {
        Risk::Dangerous(Reason::RecklessChmod)
    } else if is_shutdown(c, &segs) {
        Risk::Dangerous(Reason::Shutdown)
    } else if is_force_push(c, &segs) {
        Risk::Dangerous(Reason::ForcePush)
    } else if is_destructive_sql(c, &segs) {
        Risk::Dangerous(Reason::DestructiveSql)
    } else if is_powershell_recursive_delete(c, &segs) {
        Risk::Dangerous(Reason::PowerShellRecursiveDelete)
    } else if is_powershell_format(c) {
        Risk::Dangerous(Reason::PowerShellFormat)
    } else if is_cmd_recursive_delete(c, &segs) {
        Risk::Dangerous(Reason::CmdRecursiveDelete)
    } else if is_disk_partitioning(c, &segs) {
        Risk::Dangerous(Reason::DiskPartitioning)
    } else {
        Risk::Safe
    }
}

/// Classify a command whose letters are already lowercase: collapse its
/// whitespace, then apply the rules in order.
pub fn classify_lowercased(lowered: &str) -> (r: Risk)
    ensures
        r == risk_of(normalize(lowered@)),
{
    let v = chars_of(lowered);
    let n = normalized(&v);
    classify_normalized(&n)
}

/// Classify a command. The first matching rule wins.
pub fn classify(command: &str) -> (r: Risk)
    ensures
        r == risk_of(normalize(unicode_lowercase(command@))),
{
    let lowered = to_lowercase(command);
    classify_lowercased(lowered.as_str())
}


// ---------------------------------------------------------------------------
// Laws
// ---------------------------------------------------------------------------

/// The first matching rule wins: a command is reported dangerous for a
/// reason exactly when that rule matches and no rule tried before it does,
/// and it is safe exactly when no rule matches at all.
pub proof fn lemma_first_matching_rule_wins(c: Seq<char>, reason: Reason)
    ensures
        risk_of(c) == Risk::Dangerous(reason) <==> (rule_matches(reason, c) && forall|earlier: Reason|
            rank(earlier) < rank(reason) ==> !rule_matches(earlier, c)),
        risk_of(c) == Risk::Safe <==> forall|any: Reason| !rule_matches(any, c),
{
    assert(risk_of(c) == Risk::Safe ==> forall|any: Reason| !rule_matches(any, c)) by {
        if risk_of(c) == Risk::Safe {
            assert forall|any: Reason| !rule_matches(any, c) by {
                match any {
                    _ => {},
                }
            }
        }
    }
    if forall|any: Reason| !rule_matches(any, c) {
        assert(!rule_matches(Reason::RecursiveDelete, c));
        assert(!rule_matches(Reason::DdOverwrite, c));
        assert(!rule_matches(Reason::Mkfs, c));
        assert(!rule_matches(Reason::BlockDevice, c));
        assert(!rule_matches(Reason::CurlPipeShell, c));
        assert(!rule_matches(Reason::ForkBomb, c));
        assert(!rule_matches(Reason::RecklessChmod, c));
        assert(!rule_matches(Reason::Shutdown, c));
        assert(!rule_matches(Reason::ForcePush, c));
        assert(!rule_matches(Reason::DestructiveSql, c));
        assert(!rule_matches(Reason::PowerShellRecursiveDelete, c));
        assert(!rule_matches(Reason::PowerShellFormat, c));
        assert(!rule_matches(Reason::CmdRecursiveDelete, c));
        assert(!rule_matches(Reason::DiskPartitioning, c));
    }
    if risk_of(c) != Risk::Dangerous(reason) && rule_matches(reason, c) {
        assert(exists|earlier: Reason| rank(earlier) < rank(reason) && rule_matches(earlier, c))
            by {
            if rule_recursive_delete(c) {
                assert(rank(Reason::RecursiveDelete) < rank(reason) && rule_matches(Reason::RecursiveDelete, c));
            } else if rule_dd_overwrite(c) {
                assert(rank(Reason::DdOverwrite) < rank(reason) && rule_matches(Reason::DdOverwrite, c));
            } else if rule_mkfs(c) {
                assert(rank(Reason::Mkfs) < rank(reason) && rule_matches(Reason::Mkfs, c));
            } else if rule_block_device(c) {
                assert(rank(Reason::BlockDevice) < rank(reason) && rule_matches(Reason::BlockDevice, c));
            } else if rule_curl_pipe_shell(c) {
                assert(rank(Reason::CurlPipeShell) < rank(reason) && rule_matches(Reason::CurlPipeShell, c));
            } else if rule_fork_bomb(c) {
                assert(rank(Reason::ForkBomb) < rank(reason) && rule_matches(Reason::ForkBomb, c));
            } else if rule_reckless_chmod(c) {
                assert(rank(Reason::RecklessChmod) < rank(reason) && rule_matches(Reason::RecklessChmod, c));
            } else if rule_shutdown(c) {
                assert(rank(Reason::Shutdown) < rank(reason) && rule_matches(Reason::Shutdown, c));
            } else if rule_force_push(c) {
                assert(rank(Reason::ForcePush) < rank(reason) && rule_matches(Reason::ForcePush, c));
            } else if rule_destructive_sql(c) {
                assert(rank(Reason::DestructiveSql) < rank(reason) && rule_matches(Reason::DestructiveSql, c));
            } else if rule_powershell_recursive_delete(c) {
                assert(rank(Reason::PowerShellRecursiveDelete) < rank(reason) && rule_matches(Reason::PowerShellRecursiveDelete, c));
            } else if rule_powershell_format(c) {
                assert(rank(Reason::PowerShellFormat) < rank(reason) && rule_matches(Reason::PowerShellFormat, c));
            } else if rule_cmd_recursive_delete(c) {
                assert(rank(Reason::CmdRecursiveDelete) < rank(reason) && rule_matches(Reason::CmdRecursiveDelete, c));
            } else {
                assert(rank(Reason::DiskPartitioning) <= rank(reason));
            }
        }
    }
    if risk_of(c) == Risk::Dangerous(reason) {
        assert forall|earlier: Reason| rank(earlier) < rank(reason) implies !rule_matches(
            earlier,
            c,
        ) by {
            match earlier {
                _ => {},
            }
        }
    }
}

/// The database clients whose commands are watched for destructive
/// statements, by executable name.
pub open spec fn sql_clients() -> Seq<Seq<char>> {
    seq![
        "psql"@,
        "mysql"@,
        "mariadb"@,
        "sqlite3"@,
        "sqlcmd"@,
        "mongosh"@,
        "clickhouse-client"@,
        "cockroach"@,
    ]
}

/// The statements that destroy data.
pub open spec fn destructive_statements() -> Seq<Seq<char>> {
    seq!["drop table"@, "drop database"@, "drop schema"@, "truncate table"@, "delete from"@]
}

/// A destructive statement sent through any of the listed clients is risky:
/// when one segment of the (normalized) command runs a listed client and the
/// command holds a listed statement, the destructive-SQL rule matches, the
/// command is not safe, and it is reported as destructive SQL unless a rule
/// tried earlier already caught it.
pub proof fn lemma_every_sql_client_is_watched(c: Seq<char>, j: int, client: int, statement: int)
    requires
        0 <= j < segments(c).len(),
        0 <= client < sql_clients().len(),
        0 <= statement < destructive_statements().len(),
        command_name(segments(c)[j]) == Some(sql_clients()[client]),
        contains_seq(c, destructive_statements()[statement]),
    ensures
        rule_matches(Reason::DestructiveSql, c),
        risk_of(c) != Risk::Safe,
        (forall|earlier: Reason| rank(earlier) < rank(Reason::DestructiveSql) ==> !rule_matches(
            earlier,
            c,
        )) ==> risk_of(c) == Risk::Dangerous(Reason::DestructiveSql),
{
    reveal_strlit("psql");
    reveal_strlit("mysql");
    reveal_strlit("mariadb");
    reveal_strlit("sqlite3");
    reveal_strlit("sqlcmd");
    reveal_strlit("mongosh");
    reveal_strlit("clickhouse-client");
    reveal_strlit("cockroach");
    let name = sql_clients()[client];
    assert(is_sql_client(name));
    let seg = segments(c)[j];
    assert(sql_client_segment(seg));
    let p = |s: Seq<char>| sql_client_segment(s);
    assert(p(segments(c)[j]));
    assert(some_segment(c, p));
    assert(mentions_destructive_statement(c));
    assert(rule_destructive_sql(c));
    lemma_first_matching_rule_wins(c, Reason::DestructiveSql);
    if risk_of(c) == Risk::Safe {
        assert(!rule_matches(Reason::DestructiveSql, c));
    }
}

proof fn lemma_words_of_blank(s: Seq<char>, i: int)
    requires
        0 <= i <= s.len(),
        forall|k: int| 0 <= k < s.len() ==> is_ws(#[trigger] s[k]),
    ensures
        words_from(s, i, seq![]) == Seq::<Seq<char>>::empty(),
    decreases s.len() - i,
{
    if i < s.len() {
        lemma_words_of_blank(s, i + 1);
    }
}

proof fn lemma_nothing_in_empty(p: Seq<char>)
    requires
        p.len() > 0,
    ensures
        !contains_seq(seq![], p),
{
}

proof fn lemma_flat_split_one(x: Seq<char>, p: Seq<char>)
    ensures
        flat_split(seq![x], p) == split_pat(x, p),
{
    let one: Seq<Seq<char>> = seq![x];
    assert(one.drop_last() =~= Seq::<Seq<char>>::empty());
    assert(flat_split(Seq::<Seq<char>>::empty(), p) == Seq::<Seq<char>>::empty());
    assert(one.last() == x);
    assert(flat_split(one, p) =~= split_pat(x, p));
}

proof fn lemma_no_segments_in_empty()
    ensures
        segments(seq![]) == Seq::<Seq<char>>::empty(),
{
    let e: Seq<char> = seq![];
    let one: Seq<Seq<char>> = seq![e];
    assert(split_set(e, seq![';', '\n']) == one);
    assert(one.drop_last() =~= Seq::<Seq<char>>::empty());
    assert(split_pat(e, "&&"@) == one);
    lemma_flat_split_one(e, "&&"@);
    assert(split_pat(e, "||"@) == one);
    lemma_flat_split_one(e, "||"@);
    assert(split_pat(e, "|"@) == one);
    lemma_flat_split_one(e, "|"@);
    assert(trim(e) =~= e);
    assert(one.last() == e);
    assert(trimmed_nonempty(Seq::<Seq<char>>::empty()) == Seq::<Seq<char>>::empty());
    assert(trimmed_nonempty(one) =~= Seq::<Seq<char>>::empty());
}

/// A command of nothing but whitespace is safe: once its letters are
/// lowercased it normalizes to the empty command, which no rule matches.
pub proof fn lemma_blank_command_is_safe(lowered: Seq<char>)
    requires
        forall|k: int| 0 <= k < lowered.len() ==> is_ws(#[trigger] lowered[k]),
    ensures
        risk_of(normalize(lowered)) == Risk::Safe,
{
    lemma_words_of_blank(lowered, 0);
    let c = normalize(lowered);
    assert(c =~= Seq::<char>::empty());
    lemma_no_segments_in_empty();
    reveal_strlit("> /dev/sd");
    reveal_strlit(">/dev/sd");
    reveal_strlit("> /dev/nvme");
    reveal_strlit(">/dev/nvme");
    reveal_strlit("> /dev/disk");
    reveal_strlit(">/dev/disk");
    reveal_strlit("> /dev/hd");
    reveal_strlit(">/dev/hd");
    reveal_strlit("curl ");
    reveal_strlit("wget ");
    reveal_strlit("iwr ");
    reveal_strlit("invoke-webrequest");
    reveal_strlit(":(){:|:&};:");
    reveal_strlit("restart-computer");
    reveal_strlit("stop-computer");
    reveal_strlit("format-volume");
    reveal_strlit("clear-disk");
    reveal_strlit("initialize-disk");
    assert(remove_ws(c) =~= c);
    lemma_nothing_in_empty("> /dev/sd"@);
    lemma_nothing_in_empty(">/dev/sd"@);
    lemma_nothing_in_empty("> /dev/nvme"@);
    lemma_nothing_in_empty(">/dev/nvme"@);
    lemma_nothing_in_empty("> /dev/disk"@);
    lemma_nothing_in_empty(">/dev/disk"@);
    lemma_nothing_in_empty("> /dev/hd"@);
    lemma_nothing_in_empty(">/dev/hd"@);
    lemma_nothing_in_empty("curl "@);
    lemma_nothing_in_empty("wget "@);
    lemma_nothing_in_empty("iwr "@);
    lemma_nothing_in_empty("invoke-webrequest"@);
    lemma_nothing_in_empty(":(){:|:&};:"@);
    lemma_nothing_in_empty("restart-computer"@);
    lemma_nothing_in_empty("stop-computer"@);
    lemma_nothing_in_empty("format-volume"@);
    lemma_nothing_in_empty("clear-disk"@);
    lemma_nothing_in_empty("initialize-disk"@);
}

} // verus!
