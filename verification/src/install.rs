//! Writing the wrapper into the shell's startup file (`plz hook <shell> --install`).
//!
//! The startup file gets one line — `eval "$(plz hook zsh)"` and its
//! equivalents — so the wrapper is regenerated at every shell start instead of
//! sitting there as a stale copy.
//!
//! Nothing touches disk or the registry without an explicit `y`. That matters
//! most on Windows, where a working wrapper also needs the execution policy
//! relaxed, and changing a security setting behind the user's back is not
//! something a command-line helper gets to do. This module decides; reading
//! and writing files, asking, and talking to PowerShell happen outside.

use vstd::prelude::*;
use crate::cli::Shell;
use crate::integration::{install_hint, install_hint_of, startup_line, startup_line_of};
use crate::text::{
    ascii_lower, chars_of, eq_str, seqs, split_on_chars, split_set, split_set_from,
    string_of, to_ascii_lower, trim, trim_ws, chars1, };

verus! {

/// The policy plz offers to set: local scripts run, downloaded ones still need
/// a signature. It is per-user and needs no administrator rights.
pub const WANTED_POLICY: &'static str = "RemoteSigned";

/// The policy a *new* PowerShell session will start under.
///
/// Plain `Get-ExecutionPolicy` answers for the session plz was launched from,
/// and the Process scope it reports is inherited by us as a child. A terminal
/// started with `-ExecutionPolicy Bypass` would therefore look fine while every
/// ordinary window stays Restricted. Dropping the Process scope and taking the
/// first setting that survives leaves exactly what governs the windows the
/// user opens tomorrow. `Get-ExecutionPolicy -List` is already in precedence
/// order, so "first defined" is the answer; all of them undefined prints
/// nothing.
pub const PERSISTENT_POLICY: &'static str = "(Get-ExecutionPolicy -List | \
     Where-Object { $_.Scope -ne 'Process' -and $_.ExecutionPolicy -ne 'Undefined' } | \
     Select-Object -First 1 -ExpandProperty ExecutionPolicy)";

/// The PowerShell command that sets the wanted policy for the current user.
pub const SET_POLICY: &'static str = "Set-ExecutionPolicy -ExecutionPolicy RemoteSigned -Scope CurrentUser -Force";

/// What adding the line did, which decides whether the follow-up steps make
/// sense.
#[derive(Debug, Clone, Copy, PartialEq, Eq, Structural)]
pub enum Outcome {
    Appended,
    AlreadyPresent,
    Declined,
}

impl Outcome {
    /// Whether the startup file holds the line now.
    pub fn file_holds_the_line(self) -> (r: bool)
        ensures
            r == (self is Appended || self is AlreadyPresent),
    {
        match self {
            Outcome::Appended | Outcome::AlreadyPresent => true,
            Outcome::Declined => false,
        }
    }
}

/// The lines of a text, as `str::lines` yields them: split at each `\n`, with
/// no empty line after a final newline. (A `\r` before the `\n` stays on the
/// line here; the comparisons below trim it away.)
pub open spec fn text_lines(s: Seq<char>) -> Seq<Seq<char>> {
    let pieces = split_set(s, seq!['\n']);
    if pieces.last().len() == 0 {
        pieces.drop_last()
    } else {
        pieces
    }
}

/// The file holds `line` as a statement of its own: some line of it, trimmed,
/// is exactly `line`.
pub open spec fn holds_line(contents: Seq<char>, line: Seq<char>) -> bool {
    exists|i: int| 0 <= i < text_lines(contents).len() && trim(#[trigger] text_lines(contents)[i]) == line
}

/// Whether the startup file already has the line, as its own statement.
///
/// A commented-out copy does not count, and neither does the line appearing
/// inside a longer one — both would leave the wrapper uninstalled.
pub fn contains(contents: &str, line: &str) -> (r: bool)
    ensures
        r == holds_line(contents@, line@),
{
    let text = chars_of(contents);
    let pieces = split_on_chars(&text, &chars1('\n'));
    let last = pieces.len() - 1;
    let count = if pieces[last].len() == 0 { last } else { pieces.len() };
    proof {
        let all = split_set(contents@, seq!['\n']);
        assert(seqs(pieces@) == all);
        assert(text_lines(contents@) =~= seqs(pieces@).take(count as int));
    }
    let mut i: usize = 0;
    while i < count
        invariant
            i <= count <= pieces.len(),
            text_lines(contents@) == seqs(pieces@).take(count as int),
            forall|k: int| 0 <= k < i ==> trim(#[trigger] text_lines(contents@)[k]) != line@,
        decreases count - i,
    {
        let piece = trim_ws(&pieces[i]);
        if eq_str(&piece, line) {
            assert(trim(text_lines(contents@)[i as int]) == line@);
            return true;
        }
        i += 1;
    }
    false
}

/// The text to append: the line and a newline, after a newline of our own
/// when the existing content does not end with one.
pub open spec fn appendix_text(existing: Seq<char>, line: Seq<char>) -> Seq<char> {
    if existing.len() == 0 || existing.last() == '\n' {
        line + seq!['\n']
    } else {
        seq!['\n'] + line + seq!['\n']
    }
}

/// The text to append, with the newline the existing content is missing.
pub fn appendix(existing: &str, line: &str) -> (r: String)
    ensures
        r@ == appendix_text(existing@, line@),
{
    let text = chars_of(existing);
    let mut r = String::new();
    if !(text.len() == 0 || text[text.len() - 1] == '\n') {
        r.append("\n");
    }
    r.append(line);
    r.append("\n");
    proof {
        reveal_strlit("\n");
    }
    assert(r@ =~= appendix_text(existing@, line@));
    r
}

/// What to do with the startup file, given what it holds (`None` when it does
/// not exist yet) and whether the user agreed to the change.
pub open spec fn addition_of(existing: Option<Seq<char>>, line: Seq<char>, agreed: bool) -> Option<
    Seq<char>,
> {
    match existing {
        Some(text) => if holds_line(text, line) {
            None
        } else if agreed {
            Some(appendix_text(text, line))
        } else {
            None
        },
        None => if agreed {
            Some(appendix_text(Seq::empty(), line))
        } else {
            None
        },
    }
}

/// What adding the line comes to: already there, declined, or the text to
/// append. A refusal leaves the file untouched — and, if it did not exist,
/// uncreated.
pub fn decide_addition(existing: Option<&str>, line: &str, agreed: bool) -> (r: (Outcome, Option<String>))
    ensures
        r.0 == (match existing {
            Some(text) => if holds_line(text@, line@) {
                Outcome::AlreadyPresent
            } else if agreed {
                Outcome::Appended
            } else {
                Outcome::Declined
            },
            None => if agreed {
                Outcome::Appended
            } else {
                Outcome::Declined
            },
        }),
        crate::context::opt_text(r.1) == addition_of(
            match existing {
                Some(t) => Some(t@),
                None => None,
            },
            line@,
            agreed,
        ),
{
    let current = match existing {
        Some(text) => {
            if contains(text, line) {
                return (Outcome::AlreadyPresent, None);
            }
            text
        },
        None => "",
    };
    proof {
        reveal_strlit("");
    }
    if agreed {
        (Outcome::Appended, Some(appendix(current, line)))
    } else {
        (Outcome::Declined, None)
    }
}

/// Whether the startup file still needs the line, given its current contents.
pub fn needs_line(existing: Option<&str>, line: &str) -> (r: bool)
    ensures
        r == (match existing {
            Some(text) => !holds_line(text@, line@),
            None => true,
        }),
{
    match existing {
        Some(text) => !contains(text, line),
        None => true,
    }
}

/// Where a startup file lives.
pub enum StartupFile {
    /// `parts` joined under the directory `dir`
    InDir { dir: String, parts: Vec<&'static str> },
    /// `parts` joined under the home directory
    InHome { parts: Vec<&'static str> },
    /// PowerShell's own `$PROFILE`, which only PowerShell can tell
    PowershellProfile,
}

/// Where the line goes for each shell, given `ZDOTDIR` and `XDG_CONFIG_HOME`
/// (an empty value counts as unset).
///
/// ZDOTDIR moves the whole zsh configuration; honouring it is the difference
/// between installing and writing to a file zsh never reads. fish sources
/// `conf.d` automatically, so plz gets a file of its own there instead of
/// editing the user's `config.fish`. cmd.exe has no startup file to write: the
/// error is the hint that says so.
pub fn startup_file(shell: Shell, zdotdir: Option<String>, config_home: Option<String>) -> (r: Result<
    StartupFile,
    &'static str,
>)
    ensures
        shell == Shell::Cmd <==> r is Err,
        r matches Err(hint) ==> hint == install_hint_of(shell),
        shell == Shell::Powershell ==> r matches Ok(StartupFile::PowershellProfile),
        shell == Shell::Bash ==> (r matches Ok(StartupFile::InHome { parts }) && parts@ == seq![".bashrc"]),
        shell == Shell::Zsh ==> match zdotdir {
            Some(d) if d@.len() > 0 => (r matches Ok(StartupFile::InDir { dir, parts }) && dir@ == d@
                && parts@ == seq![".zshrc"]),
            _ => (r matches Ok(StartupFile::InHome { parts }) && parts@ == seq![".zshrc"]),
        },
        shell == Shell::Fish ==> match config_home {
            Some(d) if d@.len() > 0 => (r matches Ok(StartupFile::InDir { dir, parts }) && dir@ == d@
                && parts@ == seq!["fish", "conf.d", "plz.fish"]),
            _ => (r matches Ok(StartupFile::InHome { parts }) && parts@ == seq![
                ".config",
                "fish",
                "conf.d",
                "plz.fish",
            ]),
        },
{
    match shell {
        Shell::Zsh => match zdotdir {
            Some(dir) => {
                if dir.unicode_len() > 0 {
                    Ok(StartupFile::InDir { dir, parts: vec![".zshrc"] })
                } else {
                    Ok(StartupFile::InHome { parts: vec![".zshrc"] })
                }
            },
            None => Ok(StartupFile::InHome { parts: vec![".zshrc"] }),
        },
        Shell::Bash => Ok(StartupFile::InHome { parts: vec![".bashrc"] }),
        Shell::Fish => match config_home {
            Some(dir) => {
                if dir.unicode_len() > 0 {
                    Ok(StartupFile::InDir { dir, parts: vec!["fish", "conf.d", "plz.fish"] })
                } else {
                    Ok(StartupFile::InHome { parts: vec![".config", "fish", "conf.d", "plz.fish"] })
                }
            },
            None => Ok(StartupFile::InHome { parts: vec![".config", "fish", "conf.d", "plz.fish"] }),
        },
        Shell::Powershell => Ok(StartupFile::PowershellProfile),
        Shell::Cmd => Err(install_hint(shell)),
    }
}

/// The line to install for a shell, or the hint explaining why there is none.
pub fn install_line(shell: Shell) -> (r: Result<&'static str, &'static str>)
    ensures
        match startup_line_of(shell) {
            Some(line) => r == Ok::<&'static str, &'static str>(line),
            None => r == Err::<&'static str, &'static str>(install_hint_of(shell)),
        },
{
    match startup_line(shell) {
        Some(line) => Ok(line),
        None => Err(install_hint(shell)),
    }
}

/// Whether to go on to the execution policy: only for PowerShell, and only
/// once the profile holds the line — pointless to nag about the policy when
/// the line was never written.
pub fn policy_check_needed(shell: Shell, outcome: Outcome) -> (r: bool)
    ensures
        r == (shell == Shell::Powershell && (outcome is Appended || outcome is AlreadyPresent)),
{
    shell == Shell::Powershell && outcome.file_holds_the_line()
}

/// The policy in force: the reported one, trimmed, or the platform default
/// when no scope sets one — Windows clients fall back to Restricted, while
/// PowerShell elsewhere does not enforce policies and reports Unrestricted.
pub open spec fn settled(reported: Seq<char>, windows: bool) -> Seq<char> {
    if trim(reported).len() == 0 {
        if windows {
            "Restricted"@
        } else {
            "Unrestricted"@
        }
    } else {
        trim(reported)
    }
}

/// Fill in the platform default when no scope sets a policy.
pub fn settled_policy(reported: &str, windows: bool) -> (r: String)
    ensures
        r@ == settled(reported@, windows),
{
    let t = trim_ws(&chars_of(reported));
    if t.len() == 0 {
        if windows {
            String::from_str("Restricted")
        } else {
            String::from_str("Unrestricted")
        }
    } else {
        string_of(&t)
    }
}

/// A policy that stops PowerShell from running the profile: Restricted,
/// AllSigned (the profile is unsigned like any other script), and Undefined,
/// which at the effective level means the Windows client default. Compared
/// trimmed and ignoring ASCII case; anything unrecognised counts as fine.
pub open spec fn blocks_profile(policy: Seq<char>) -> bool {
    let p = ascii_lower(trim(policy));
    p == "restricted"@ || p == "allsigned"@ || p == "undefined"@
}

/// Whether a policy stops PowerShell from running the profile.
///
/// A policy plz does not know is not a reason to push a security change on
/// the user.
pub fn policy_blocks_profile(policy: &str) -> (r: bool)
    ensures
        r == blocks_profile(policy@),
{
    let p = to_ascii_lower(&trim_ws(&chars_of(policy)));
    eq_str(&p, "restricted") || eq_str(&p, "allsigned") || eq_str(&p, "undefined")
}

/// Where the conversation with PowerShell about its execution policy stands.
#[derive(Debug, Clone, PartialEq, Eq)]
pub enum PolicyState {
    /// The policy has been asked for
    Checking,
    /// The user has been asked whether to relax it
    Asking,
    /// The new policy has been sent
    Setting,
    /// The policy is being read back
    ReadingBack,
    /// Nothing is left to do
    Done,
}

/// What came back from the outside.
pub enum PolicyEvent {
    /// What PowerShell printed for the policy query, or why it could not say
    Read(Result<String, String>),
    /// The user's answer (`--yes` answers yes)
    Answer(bool),
    /// Whether setting the policy went through
    Applied(Result<(), String>),
}

/// What to do next.
pub enum PolicyAction {
    /// The policy could not be read: say so and stop. Not a failure to
    /// install — the line is in the profile either way.
    Unreadable(String),
    /// The policy lets the profile load: nothing to do
    Fine,
    /// Explain that this policy blocks the profile and ask whether to set the
    /// wanted one
    Offer(String),
    /// The user declined: say how to do it by hand
    LeftUnchanged,
    /// Set the wanted policy
    SetPolicy,
    /// Read the policy back: a Group Policy can override the user's scope,
    /// and setting it reports success regardless
    ReadBack,
    /// The policy is still one that blocks the profile: fail with it
    Enforced(String),
    /// The policy now lets the profile load
    NowSet(String),
    /// Talking to PowerShell failed
    Fail(String),
}

/// The next state and the action, as texts.
pub enum PolicyActionView {
    Unreadable(Seq<char>),
    Fine,
    Offer(Seq<char>),
    LeftUnchanged,
    SetPolicy,
    ReadBack,
    Enforced(Seq<char>),
    NowSet(Seq<char>),
    Fail(Seq<char>),
}

pub open spec fn policy_action_view(a: PolicyAction) -> PolicyActionView {
    match a {
        PolicyAction::Unreadable(e) => PolicyActionView::Unreadable(e@),
        PolicyAction::Fine => PolicyActionView::Fine,
        PolicyAction::Offer(p) => PolicyActionView::Offer(p@),
        PolicyAction::LeftUnchanged => PolicyActionView::LeftUnchanged,
        PolicyAction::SetPolicy => PolicyActionView::SetPolicy,
        PolicyAction::ReadBack => PolicyActionView::ReadBack,
        PolicyAction::Enforced(p) => PolicyActionView::Enforced(p@),
        PolicyAction::NowSet(p) => PolicyActionView::NowSet(p@),
        PolicyAction::Fail(e) => PolicyActionView::Fail(e@),
    }
}

/// How the conversation about the execution policy moves on.
///
/// An event that does not belong to the state ends the conversation with
/// nothing done.
pub open spec fn policy_transition(state: PolicyState, event: PolicyEvent, windows: bool) -> (
    PolicyState,
    PolicyActionView,
) {
    match (state, event) {
        (PolicyState::Checking, PolicyEvent::Read(Ok(text))) => {
            let policy = settled(text@, windows);
            if blocks_profile(policy) {
                (PolicyState::Asking, PolicyActionView::Offer(policy))
            } else {
                (PolicyState::Done, PolicyActionView::Fine)
            }
        },
        (PolicyState::Checking, PolicyEvent::Read(Err(e))) => (
            PolicyState::Done,
            PolicyActionView::Unreadable(e@),
        ),
        (PolicyState::Asking, PolicyEvent::Answer(yes)) => if yes {
            (PolicyState::Setting, PolicyActionView::SetPolicy)
        } else {
            (PolicyState::Done, PolicyActionView::LeftUnchanged)
        },
        (PolicyState::Setting, PolicyEvent::Applied(Ok(()))) => (
            PolicyState::ReadingBack,
            PolicyActionView::ReadBack,
        ),
        (PolicyState::Setting, PolicyEvent::Applied(Err(e))) => (
            PolicyState::Done,
            PolicyActionView::Fail(e@),
        ),
        (PolicyState::ReadingBack, PolicyEvent::Read(Ok(text))) => {
            let now = settled(text@, windows);
            if blocks_profile(now) {
                (PolicyState::Done, PolicyActionView::Enforced(now))
            } else {
                (PolicyState::Done, PolicyActionView::NowSet(now))
            }
        },
        (PolicyState::ReadingBack, PolicyEvent::Read(Err(e))) => (
            PolicyState::Done,
            PolicyActionView::Fail(e@),
        ),
        _ => (PolicyState::Done, PolicyActionView::Fine),
    }
}

/// Moves the conversation about the execution policy on by one event.
pub fn policy_step(state: PolicyState, event: PolicyEvent, windows: bool) -> (r: (
    PolicyState,
    PolicyAction,
))
    ensures
        (r.0, policy_action_view(r.1)) == policy_transition(state, event, windows),
{
    match (state, event) {
        (PolicyState::Checking, PolicyEvent::Read(Ok(text))) => {
            let policy = settled_policy(text.as_str(), windows);
            if policy_blocks_profile(policy.as_str()) {
                (PolicyState::Asking, PolicyAction::Offer(policy))
            } else {
                (PolicyState::Done, PolicyAction::Fine)
            }
        },
        (PolicyState::Checking, PolicyEvent::Read(Err(e))) => (
            PolicyState::Done,
            PolicyAction::Unreadable(e),
        ),
        (PolicyState::Asking, PolicyEvent::Answer(yes)) => if yes {
            (PolicyState::Setting, PolicyAction::SetPolicy)
        } else {
            (PolicyState::Done, PolicyAction::LeftUnchanged)
        },
        (PolicyState::Setting, PolicyEvent::Applied(Ok(()))) => (
            PolicyState::ReadingBack,
            PolicyAction::ReadBack,
        ),
        (PolicyState::Setting, PolicyEvent::Applied(Err(e))) => (PolicyState::Done, PolicyAction::Fail(e)),
        (PolicyState::ReadingBack, PolicyEvent::Read(Ok(text))) => {
            let now = settled_policy(text.as_str(), windows);
            if policy_blocks_profile(now.as_str()) {
                (PolicyState::Done, PolicyAction::Enforced(now))
            } else {
                (PolicyState::Done, PolicyAction::NowSet(now))
            }
        },
        (PolicyState::ReadingBack, PolicyEvent::Read(Err(e))) => (
            PolicyState::Done,
            PolicyAction::Fail(e),
        ),
        _ => (PolicyState::Done, PolicyAction::Fine),
    }
}

/// The security setting is only ever changed after a yes: from every state,
/// a `no` — or any other event — never leads to setting the policy.
pub proof fn lemma_policy_changes_only_after_a_yes(state: PolicyState, event: PolicyEvent, windows: bool)
    ensures
        policy_transition(state, event, windows).1 is SetPolicy ==> state == PolicyState::Asking
            && event matches PolicyEvent::Answer(true),
{
}

/// No scope set means the platform default, which blocks the profile exactly
/// on Windows; a policy that is set wins over the default.
pub proof fn lemma_unset_policy_follows_the_platform(reported: Seq<char>, windows: bool)
    ensures
        trim(reported).len() == 0 ==> blocks_profile(settled(reported, windows)) == windows,
        trim(reported).len() > 0 ==> settled(reported, windows) == trim(reported),
{
    reveal_strlit("Restricted");
    reveal_strlit("Unrestricted");
    reveal_strlit("restricted");
    reveal_strlit("allsigned");
    reveal_strlit("undefined");
    if trim(reported).len() == 0 {
        if windows {
            crate::text::lemma_trim_of_word("Restricted"@);
            assert(ascii_lower("Restricted"@) =~= "restricted"@);
        } else {
            reveal_strlit("unrestricted");
            crate::text::lemma_trim_of_word("Unrestricted"@);
            assert(ascii_lower("Unrestricted"@) =~= "unrestricted"@);
        }
    }
}

/// Splitting runs over characters that are not separators without cutting:
/// they join the current piece.
proof fn lemma_split_run(s: Seq<char>, set: Seq<char>, i: int, j: int, cur: Seq<char>)
    requires
        0 <= i <= j <= s.len(),
        forall|m: int| i <= m < j ==> !set.contains(#[trigger] s[m]),
    ensures
        split_set_from(s, set, i, cur) == split_set_from(s, set, j, cur + s.subrange(i, j)),
    decreases j - i,
{
    if i < j {
        lemma_split_run(s, set, i + 1, j, cur.push(s[i]));
        assert(cur.push(s[i]) + s.subrange(i + 1, j) =~= cur + s.subrange(i, j));
    } else {
        assert(cur + s.subrange(i, j) =~= cur);
    }
}

/// Splitting from `i` up to a piece boundary at `k` (just after a separator,
/// or the very start) yields some pieces, then whatever splitting from `k`
/// yields.
proof fn lemma_split_prefix(s: Seq<char>, set: Seq<char>, i: int, cur: Seq<char>, k: int) -> (pieces: Seq<
    Seq<char>,
>)
    requires
        0 <= i <= k <= s.len(),
        k > 0 ==> set.contains(s[k - 1]),
        i == k ==> cur == Seq::<char>::empty(),
    ensures
        split_set_from(s, set, i, cur) == pieces + split_set_from(s, set, k, Seq::<char>::empty()),
    decreases k - i,
{
    if i == k {
        Seq::empty()
    } else if set.contains(s[i]) {
        let rest = lemma_split_prefix(s, set, i + 1, Seq::empty(), k);
        assert(seq![cur] + (rest + split_set_from(s, set, k, Seq::<char>::empty())) =~= (seq![cur]
            + rest) + split_set_from(s, set, k, Seq::<char>::empty()));
        seq![cur] + rest
    } else {
        lemma_split_prefix(s, set, i + 1, cur.push(s[i]), k)
    }
}

/// Installing twice appends once: once the line has been appended, the file
/// holds it, so a second run finds it present and writes nothing. (The line
/// is a single line with nothing to trim, as every startup line is.)
pub proof fn lemma_appended_line_is_found(existing: Seq<char>, line: Seq<char>)
    requires
        !line.contains('\n'),
        trim(line) == line,
    ensures
        holds_line(existing + appendix_text(existing, line), line),
{
    let set = seq!['\n'];
    let head = if existing.len() == 0 || existing.last() == '\n' {
        existing
    } else {
        existing.push('\n')
    };
    let s = existing + appendix_text(existing, line);
    assert(s =~= head + line + seq!['\n']);
    let k = head.len() as int;
    let end = s.len() - 1;
    assert forall|m: int| k <= m < end implies !set.contains(#[trigger] s[m]) by {
        assert(s[m] == line[m - k]);
        if set.contains(s[m]) {
            assert(line.contains(line[m - k]));
        }
    }
    let pieces = lemma_split_prefix(s, set, 0, Seq::empty(), k);
    lemma_split_run(s, set, k, end, Seq::empty());
    assert(Seq::<char>::empty() + s.subrange(k, end) =~= line);
    assert(set.contains(s[end]));
    assert(split_set_from(s, set, end, line) == seq![line] + split_set_from(s, set, end + 1, seq![]));
    assert(split_set_from(s, set, end + 1, seq![]) == seq![Seq::<char>::empty()]);
    let all = pieces + seq![line, Seq::<char>::empty()];
    assert(split_set(s, set) =~= all);
    assert(text_lines(s) =~= pieces + seq![line]);
    assert(trim(text_lines(s)[pieces.len() as int]) == line);
}

} // verus!
