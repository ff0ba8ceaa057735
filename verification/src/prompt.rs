//! Building the request to the model and reading its reply.
//!
//! The reply is JSON, but models routinely wrap it in a ``` block or put a
//! sentence before or after the object. This module finds the texts that may
//! hold the object (`reply_candidates`); what each of them reads as in JSON is
//! decided by the JSON reader and handed back as a `Reading`, and
//! `parse_suggestions` picks the first one that carries suggestions.

use vstd::prelude::*;
use crate::context::{kind_label, opt_text, shell_text, Context, ShellKind};
use crate::i18n::{lang_name, Lang};
use crate::suggestion::Suggestion;
use crate::text::{
    chars_of, decimal, find_char, find_sub, first_match, position_of, push_decimal,
    string_of, strip_leading, strip_repeated, sub_vec, trim, trim_ws,
};

verus! {

// ---------------------------------------------------------------------------
// The prompts
// ---------------------------------------------------------------------------

pub const INTRO: &'static str = "You turn a task described in plain language into ready-to-run \
     terminal commands.\n\n";

pub const ENVIRONMENT: &'static str = "User's environment:\n";

pub const RULES_COUNT: &'static str = "\nRules:\n1. Give exactly ";

pub const RULES_SHELL: &'static str = " command suggestion(s), most direct first, then more \
     specialised ones. If only one sensible option exists, give one.\n\
     2. Every command must run in ";

pub const RULES_OS: &'static str = " on ";

pub const RULES_REST: &'static str = " unchanged.\n\
     3. Do not invent flags or utilities. If a command needs a tool that may not \
     be installed, say so in the explanation.\n\
     4. Do not wrap commands in markdown and do not prefix them with `$`.\n\
     5. Keep each explanation to one short phrase. Write the explanation in ";

pub const RULES_LANGUAGE: &'static str = ", the user's interface language, whatever \
     language the task was written in; do not switch to the same language the task \
     was written in when that is another one.\n\
     6. Reply with a JSON object ONLY, with no prose around it.\n\n";

pub const REPLY_FORMAT: &'static str = "Reply format:\n\
     {\"suggestions\":[{\"command\":\"...\",\"explanation\":\"...\"}]}\n";

pub const HINT_POWERSHELL: &'static str = "this is PowerShell — use cmdlets (Get-ChildItem, Select-Object) \
     or their aliases, not GNU coreutils";

pub const HINT_CMD: &'static str = "this is cmd.exe — only its built-ins and Windows utilities are available; \
     PowerShell and Unix syntax do not work here";

pub const HINT_FISH: &'static str = "this is fish — the syntax differs from POSIX: no `$(...)` inside quotes, \
     and variables are set with `set`, not `VAR=value`";

pub const HINT_NUSHELL: &'static str = "this is nushell — a language of its own with typed pipelines; \
     POSIX syntax does not work here";

/// The shell-specific trap the prompt warns about, if the shell has one.
pub open spec fn hint_for(kind: ShellKind) -> Option<&'static str> {
    match kind {
        ShellKind::PowerShell => Some(HINT_POWERSHELL),
        ShellKind::Cmd => Some(HINT_CMD),
        ShellKind::Fish => Some(HINT_FISH),
        ShellKind::Nushell => Some(HINT_NUSHELL),
        _ => None,
    }
}

/// ` (version)` when the OS version is known.
pub open spec fn version_part(version: Option<Seq<char>>) -> Seq<char> {
    match version {
        Some(v) => " ("@ + v + ")"@,
        None => Seq::empty(),
    }
}

/// The working-directory line, when the directory is sent.
pub open spec fn cwd_part(cwd: Option<Seq<char>>) -> Seq<char> {
    match cwd {
        Some(c) => "- Working directory: "@ + c + "\n"@,
        None => Seq::empty(),
    }
}

/// The note about the shell's traps, when it has one.
pub open spec fn hint_part(kind: ShellKind) -> Seq<char> {
    match hint_for(kind) {
        Some(h) => "- Note: "@ + h@ + "\n"@,
        None => Seq::empty(),
    }
}

/// The system prompt: the role, the environment and the required reply
/// format. The explanations are asked for in `lang`, the interface language,
/// whatever language the task is in.
pub open spec fn system_prompt_text(ctx: Context, count: nat, lang: Lang) -> Seq<char> {
    INTRO@ + ENVIRONMENT@ + "- OS: "@ + ctx.os@ + version_part(opt_text(ctx.os_version)) + "\n"@
        + "- Architecture: "@ + ctx.arch@ + "\n"@ + "- Shell: "@ + shell_text(
        ctx.shell.kind,
        ctx.shell.name@,
        opt_text(ctx.shell.environment),
    ) + "\n"@ + cwd_part(opt_text(ctx.cwd)) + hint_part(ctx.shell.kind) + RULES_COUNT@ + decimal(
        count,
    ) + RULES_SHELL@ + kind_label(ctx.shell.kind)@ + RULES_OS@ + ctx.os@ + RULES_REST@
        + lang_name(lang)@ + RULES_LANGUAGE@ + REPLY_FORMAT@
}

/// System prompt: the role, the environment and the required reply format,
/// with the explanations asked for in the interface language `lang`.
pub fn system_prompt(ctx: &Context, count: usize, lang: Lang) -> (r: String)
    ensures
        r@ == system_prompt_text(*ctx, count as nat, lang),
{
    let mut prompt = String::new();
    prompt.append(INTRO);
    prompt.append(ENVIRONMENT);
    prompt.append("- OS: ");
    prompt.append(ctx.os.as_str());
    let ghost before = prompt@;
    match &ctx.os_version {
        Some(version) => {
            prompt.append(" (");
            prompt.append(version.as_str());
            prompt.append(")");
        },
        None => {},
    }
    assert(prompt@ =~= before + version_part(opt_text(ctx.os_version)));
    prompt.append("\n");
    prompt.append("- Architecture: ");
    prompt.append(ctx.arch.as_str());
    prompt.append("\n");
    prompt.append("- Shell: ");
    let shell = ctx.shell.display();
    prompt.append(shell.as_str());
    prompt.append("\n");
    let ghost before = prompt@;
    match &ctx.cwd {
        Some(cwd) => {
            prompt.append("- Working directory: ");
            prompt.append(cwd.as_str());
            prompt.append("\n");
        },
        None => {},
    }
    assert(prompt@ =~= before + cwd_part(opt_text(ctx.cwd)));
    let ghost before = prompt@;
    match shell_hint(ctx.shell.kind) {
        Some(hint) => {
            prompt.append("- Note: ");
            prompt.append(hint);
            prompt.append("\n");
        },
        None => {},
    }
    assert(prompt@ =~= before + hint_part(ctx.shell.kind));
    prompt.append(RULES_COUNT);
    push_decimal(&mut prompt, count as u64);
    prompt.append(RULES_SHELL);
    prompt.append(ctx.shell.kind.label());
    prompt.append(RULES_OS);
    prompt.append(ctx.os.as_str());
    prompt.append(RULES_REST);
    prompt.append(lang.name());
    prompt.append(RULES_LANGUAGE);
    prompt.append(REPLY_FORMAT);
    prompt
}

/// Shell-specific traps that models routinely forget about.
pub fn shell_hint(kind: ShellKind) -> (r: Option<&'static str>)
    ensures
        r == hint_for(kind),
{
    match kind {
        ShellKind::PowerShell => Some(HINT_POWERSHELL),
        ShellKind::Cmd => Some(HINT_CMD),
        ShellKind::Fish => Some(HINT_FISH),
        ShellKind::Nushell => Some(HINT_NUSHELL),
        _ => None,
    }
}

/// The user message carrying the task itself.
pub fn user_prompt(task: &str) -> (r: String)
    ensures
        r@ == "Task: "@ + trim(task@),
{
    let mut r = String::from_str("Task: ");
    let t = string_of(&trim_ws(&chars_of(task)));
    r.append(t.as_str());
    r
}

// ---------------------------------------------------------------------------
// Framing the reply
// ---------------------------------------------------------------------------

/// A markdown fence.
pub open spec fn fence() -> Seq<char> {
    seq!['`', '`', '`']
}

/// The body of the first markdown ```...``` block, trimmed: after the opening
/// fence the rest of its line (the language tag) is dropped.
pub open spec fn fenced_body(s: Seq<char>) -> Option<Seq<char>> {
    match first_match(s, fence()) {
        None => None,
        Some(start) => {
            let after = s.skip(start + 3);
            let body_start = match find_char(after, '\n') {
                Some(k) => k + 1,
                None => 0,
            };
            let body = after.skip(body_start);
            match first_match(body, fence()) {
                None => None,
                Some(end) => Some(trim(body.take(end))),
            }
        },
    }
}

/// Pull the body out of a markdown ```...``` block.
pub fn strip_code_fence(raw: &str) -> (r: Option<String>)
    ensures
        opt_text(r) == fenced_body(raw@),
{
    proof {
        reveal_strlit("```");
    }
    assert("```"@ =~= fence());
    let chars = chars_of(raw);
    let start = match find_sub(&chars, "```") {
        Some(k) => k,
        None => return None,
    };
    let after = sub_vec(&chars, start + 3, chars.len());
    assert(after@ =~= raw@.skip(start + 3));
    let body_start: usize = match position_of(&after, '\n') {
        Some(k) => k + 1,
        None => 0,
    };
    let body = sub_vec(&after, body_start, after.len());
    assert(body@ =~= after@.skip(body_start as int));
    let end = match find_sub(&body, "```") {
        Some(k) => k,
        None => return None,
    };
    let inner = sub_vec(&body, 0, end);
    assert(inner@ =~= body@.take(end as int));
    Some(string_of(&trim_ws(&inner)))
}

/// Where the object opened at the scan's start closes: the index just past
/// the `}` that brings the depth back to zero. Braces inside string literals
/// do not count, and a backslash inside a string escapes the next character.
pub open spec fn object_end(
    s: Seq<char>,
    i: int,
    depth: nat,
    in_string: bool,
    escaped: bool,
) -> Option<int>
    decreases s.len() - i,
{
    if i < 0 || i >= s.len() {
        None
    } else if escaped {
        object_end(s, i + 1, depth, in_string, false)
    } else if s[i] == '\\' && in_string {
        object_end(s, i + 1, depth, in_string, true)
    } else if s[i] == '"' {
        object_end(s, i + 1, depth, !in_string, false)
    } else if s[i] == '{' && !in_string {
        object_end(s, i + 1, depth + 1, in_string, false)
    } else if s[i] == '}' && !in_string {
        if depth <= 1 {
            Some(i + 1)
        } else {
            object_end(s, i + 1, (depth - 1) as nat, in_string, false)
        }
    } else {
        object_end(s, i + 1, depth, in_string, false)
    }
}

/// The first balanced `{...}` object in the text.
pub open spec fn balanced_object(s: Seq<char>) -> Option<Seq<char>> {
    match find_char(s, '{') {
        None => None,
        Some(start) => match object_end(s, start, 0, false, false) {
            None => None,
            Some(end) => Some(s.subrange(start, end)),
        },
    }
}

/// Find the first balanced `{...}` object in the text.
///
/// Braces are counted with string literals and escapes in mind: otherwise a `}`
/// inside a command (`awk '{print $1}'`, say) would end the object too early.
pub fn extract_balanced_object(raw: &str) -> (r: Option<String>)
    ensures
        opt_text(r) == balanced_object(raw@),
{
    let chars = chars_of(raw);
    let start = match position_of(&chars, '{') {
        Some(k) => k,
        None => return None,
    };
    proof {
        lemma_find_char_hit(chars@, '{', start as int);
    }
    let mut depth: usize = 0;
    let mut in_string = false;
    let mut escaped = false;
    let mut i = start;
    while i < chars.len()
        invariant
            start <= i <= chars.len(),
            start < chars.len(),
            chars@[start as int] == '{',
            chars@ == raw@,
            find_char(raw@, '{') == Some(start as int),
            object_end(chars@, start as int, 0, false, false) == object_end(
                chars@,
                i as int,
                depth as nat,
                in_string,
                escaped,
            ),
            i == start ==> depth == 0 && !in_string && !escaped,
            i > start ==> depth >= 1,
            depth <= i - start,
        decreases chars.len() - i,
    {
        let ch = chars[i];
        if escaped {
            escaped = false;
        } else if ch == '\\' && in_string {
            escaped = true;
        } else if ch == '"' {
            in_string = !in_string;
        } else if ch == '{' && !in_string {
            depth += 1;
        } else if ch == '}' && !in_string {
            depth -= 1;
            if depth == 0 {
                let object = sub_vec(&chars, start, i + 1);
                return Some(string_of(&object));
            }
        }
        i += 1;
    }
    None
}

/// `find_char` names the first occurrence it reports.
proof fn lemma_find_char_hit(s: Seq<char>, c: char, k: int)
    requires
        find_char(s, c) == Some(k),
    ensures
        0 <= k < s.len(),
        s[k] == c,
{
    lemma_find_from_hit(s, c, 0, k);
}

proof fn lemma_find_from_hit(s: Seq<char>, c: char, i: int, k: int)
    requires
        find_from_is(s, c, i, k),
        0 <= i,
    ensures
        i <= k < s.len(),
        s[k] == c,
    decreases s.len() - i,
{
    if i < s.len() && s[i] != c {
        lemma_find_from_hit(s, c, i + 1, k);
    }
}

spec fn find_from_is(s: Seq<char>, c: char, i: int, k: int) -> bool {
    crate::text::find_from(s, c, i) == Some(k)
}

/// The texts that may hold the JSON object, in the order they are tried: the
/// whole reply trimmed, the body of a code block, the first balanced object.
pub open spec fn candidates(raw: Seq<char>) -> Seq<Seq<char>> {
    let fenced = match fenced_body(raw) {
        Some(b) => seq![b],
        None => Seq::empty(),
    };
    let object = match balanced_object(raw) {
        Some(o) => seq![o],
        None => Seq::empty(),
    };
    seq![trim(raw)] + fenced + object
}

/// The text of each string.
pub open spec fn texts(v: Seq<String>) -> Seq<Seq<char>> {
    v.map_values(|s: String| s@)
}

/// The texts that may hold the reply's JSON object, in order of increasing
/// input messiness.
pub fn reply_candidates(raw: &str) -> (r: Vec<String>)
    ensures
        texts(r@) == candidates(raw@),
{
    let mut r: Vec<String> = Vec::new();
    r.push(string_of(&trim_ws(&chars_of(raw))));
    match strip_code_fence(raw) {
        Some(body) => r.push(body),
        None => {},
    }
    match extract_balanced_object(raw) {
        Some(object) => r.push(object),
        None => {},
    }
    assert(texts(r@) =~= candidates(raw@));
    r
}

// ---------------------------------------------------------------------------
// Reading the suggestions
// ---------------------------------------------------------------------------

/// A suggestion as its two texts.
pub open spec fn view_of(s: Suggestion) -> (Seq<char>, Seq<char>) {
    (s.command@, s.explanation@)
}

/// Suggestions as their texts.
pub open spec fn views(v: Seq<Suggestion>) -> Seq<(Seq<char>, Seq<char>)> {
    v.map_values(|s: Suggestion| view_of(s))
}

/// A command without the prompt markers models like to put in front of it.
pub open spec fn clean_command(command: Seq<char>) -> Seq<char> {
    trim(strip_repeated(strip_repeated(trim(command), "$ "@), "> "@))
}

/// The suggestions with their decoration stripped; those left without a
/// command are dropped.
pub open spec fn cleaned(v: Seq<(Seq<char>, Seq<char>)>) -> Seq<(Seq<char>, Seq<char>)>
    decreases v.len(),
{
    if v.len() == 0 {
        Seq::empty()
    } else {
        let rest = cleaned(v.drop_last());
        let command = clean_command(v.last().0);
        if command.len() > 0 {
            rest.push((command, trim(v.last().1)))
        } else {
            rest
        }
    }
}

/// Every command that `cleaned` keeps is non-empty.
pub proof fn lemma_cleaned_commands_are_non_empty(v: Seq<(Seq<char>, Seq<char>)>)
    ensures
        forall|i: int| 0 <= i < cleaned(v).len() ==> #[trigger] cleaned(v)[i].0.len() > 0,
    decreases v.len(),
{
    if v.len() > 0 {
        let rest = cleaned(v.drop_last());
        lemma_cleaned_commands_are_non_empty(v.drop_last());
        assert forall|i: int| 0 <= i < cleaned(v).len() implies #[trigger] cleaned(v)[i].0.len()
            > 0 by {
            if i < rest.len() {
                assert(cleaned(v)[i] == rest[i]);
            }
        }
    }
}

/// Strip the decoration models like to add inside the command itself.
pub fn clean(suggestions: &Vec<Suggestion>) -> (r: Vec<Suggestion>)
    ensures
        views(r@) == cleaned(views(suggestions@)),
{
    let mut r: Vec<Suggestion> = Vec::new();
    let mut i: usize = 0;
    while i < suggestions.len()
        invariant
            i <= suggestions.len(),
            views(r@) == cleaned(views(suggestions@.take(i as int))),
        decreases suggestions.len() - i,
    {
        let s = &suggestions[i];
        let c0 = trim_ws(&chars_of(s.command.as_str()));
        let c1 = strip_leading(&c0, "$ ");
        let c2 = strip_leading(&c1, "> ");
        let command = trim_ws(&c2);
        let explanation = trim_ws(&chars_of(s.explanation.as_str()));
        proof {
            let taken = views(suggestions@.take(i + 1));
            assert(taken.drop_last() =~= views(suggestions@.take(i as int)));
            assert(taken.last() == view_of(suggestions@[i as int]));
        }
        if command.len() > 0 {
            let kept = Suggestion { command: string_of(&command), explanation: string_of(&explanation) };
            r.push(kept);
            assert(views(r@) =~= cleaned(views(suggestions@.take(i + 1))));
        } else {
            assert(views(r@) =~= cleaned(views(suggestions@.take(i + 1))));
        }
        i += 1;
    }
    assert(suggestions@.take(suggestions.len() as int) =~= suggestions@);
    r
}

/// What one candidate text reads as in JSON, in the two shapes a reply may
/// take.
pub struct Reading {
    /// The suggestions of the documented shape `{"suggestions": [...]}`
    /// (an object without the field reads as an empty list), or `None` when
    /// the text is not such an object
    pub payload: Option<Vec<Suggestion>>,
    /// The suggestions of a bare array, which some models return despite the
    /// schema in the prompt, or `None` when the text is not one
    pub list: Option<Vec<Suggestion>>,
}

/// What a reading yields: the first shape that still holds a suggestion once
/// cleaned. A list with nothing left to show is no success.
pub open spec fn reading_result(r: Reading) -> Option<Seq<(Seq<char>, Seq<char>)>> {
    match r.payload {
        Some(p) if cleaned(views(p@)).len() > 0 => Some(cleaned(views(p@))),
        _ => match r.list {
            Some(l) if cleaned(views(l@)).len() > 0 => Some(cleaned(views(l@))),
            _ => None,
        },
    }
}

/// The suggestions a reading yields, if any: an empty list, or one whose
/// commands all clean down to nothing, yields none.
pub fn try_parse(reading: &Reading) -> (r: Option<Vec<Suggestion>>)
    ensures
        match r {
            Some(v) => reading_result(*reading) == Some(views(v@)) && v@.len() > 0,
            None => reading_result(*reading) is None,
        },
{
    match &reading.payload {
        Some(p) => {
            let v = clean(p);
            if v.len() > 0 {
                return Some(v);
            }
        },
        None => {},
    }
    match &reading.list {
        Some(l) => {
            let v = clean(l);
            if v.len() > 0 {
                Some(v)
            } else {
                None
            }
        },
        None => None,
    }
}

/// The result of the first reading that yields suggestions.
pub open spec fn first_parsed(readings: Seq<Reading>) -> Option<Seq<(Seq<char>, Seq<char>)>>
    decreases readings.len(),
{
    if readings.len() == 0 {
        None
    } else {
        match reading_result(readings[0]) {
            Some(v) => Some(v),
            None => first_parsed(readings.drop_first()),
        }
    }
}

/// The reply shortened for an error message: trimmed, and cut to `max`
/// characters with an ellipsis when longer.
pub open spec fn shortened(text: Seq<char>, max: nat) -> Seq<char> {
    let t = trim(text);
    if t.len() <= max {
        t
    } else {
        t.take(max as int).push('…')
    }
}

/// The message for a reply that holds no suggestions.
pub open spec fn parse_error_text(raw: Seq<char>) -> Seq<char> {
    "could not parse the model's reply as JSON. The reply was:\n"@ + shortened(raw, 500)
}

/// Parse the model's reply into a list of suggestions.
///
/// `readings[i]` is what `reply_candidates(raw)[i]` reads as; the first one
/// that yields suggestions wins, and when none does the error carries the
/// reply itself, which is what explains the failure.
pub fn parse_suggestions(raw: &str, readings: &Vec<Reading>) -> (r: Result<Vec<Suggestion>, String>)
    ensures
        match r {
            Ok(v) => first_parsed(readings@) == Some(views(v@)) && v@.len() > 0,
            Err(e) => first_parsed(readings@) is None && e@ == parse_error_text(raw@),
        },
{
    let mut i: usize = 0;
    assert(readings@.skip(0) =~= readings@);
    while i < readings.len()
        invariant
            i <= readings.len(),
            first_parsed(readings@) == first_parsed(readings@.skip(i as int)),
        decreases readings.len() - i,
    {
        proof {
            let rest = readings@.skip(i as int);
            assert(rest[0] == readings@[i as int]);
            assert(rest.drop_first() =~= readings@.skip(i + 1));
        }
        match try_parse(&readings[i]) {
            Some(v) => {
                return Ok(v);
            },
            None => {},
        }
        i += 1;
    }
    Err(parse_error(raw))
}

/// The error for a reply that holds no suggestions.
fn parse_error(raw: &str) -> (e: String)
    ensures
        e@ == parse_error_text(raw@),
{
    let mut e = String::from_str("could not parse the model's reply as JSON. The reply was:\n");
    let short = truncate(raw, 500);
    e.append(short.as_str());
    e
}

/// The text trimmed and cut to `max` characters, with an ellipsis when cut.
pub fn truncate(text: &str, max: usize) -> (r: String)
    ensures
        r@ == shortened(text@, max as nat),
{
    let t = trim_ws(&chars_of(text));
    if t.len() <= max {
        return string_of(&t);
    }
    let mut cut = sub_vec(&t, 0, max);
    cut.push('…');
    assert(cut@ =~= t@.take(max as int).push('…'));
    string_of(&cut)
}

/// At most `count` suggestions, the first ones.
pub fn first_suggestions(suggestions: Vec<Suggestion>, count: usize) -> (r: Vec<Suggestion>)
    ensures
        r@ == (if suggestions@.len() <= count { suggestions@ } else { suggestions@.take(count as int) }),
{
    let mut v = suggestions;
    v.truncate(count);
    v
}

} // verus!
