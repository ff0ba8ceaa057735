use plz::context::{Context, Shell, ShellKind};
use plz::i18n::Lang;
use plz::prompt::{
    extract_balanced_object, parse_suggestions, reply_candidates, strip_code_fence,
    system_prompt, truncate, user_prompt, Reading,
};
use plz::suggestion::Suggestion;
use serde_json::Value;

fn ctx(kind: ShellKind) -> Context {
    Context {
        os: "macOS".into(),
        os_version: Some("15.0".into()),
        arch: "aarch64".into(),
        shell: Shell { kind, name: kind.label().into(), environment: None, path: None },
        cwd: Some("/tmp/project".into()),
    }
}

/// A suggestion as the JSON reader takes one: an object with a string
/// `command` and an optional string `explanation`.
fn suggestion_of(value: &Value) -> Option<Suggestion> {
    let object = value.as_object()?;
    let command = object.get("command")?.as_str()?;
    let explanation = match object.get("explanation") {
        Some(e) => e.as_str()?,
        None => "",
    };
    Some(Suggestion::new(command, explanation))
}

fn suggestions_of(value: &Value) -> Option<Vec<Suggestion>> {
    value.as_array()?.iter().map(suggestion_of).collect()
}

/// What a candidate reads as in JSON, in both shapes.
fn read(text: &str) -> Reading {
    let value: Option<Value> = serde_json::from_str(text).ok();
    let payload = value.as_ref().and_then(|v| {
        let object = v.as_object()?;
        match object.get("suggestions") {
            Some(list) => suggestions_of(list),
            None => Some(Vec::new()),
        }
    });
    let list = value.as_ref().and_then(suggestions_of);
    Reading { payload, list }
}

fn parse(raw: &str) -> Result<Vec<Suggestion>, String> {
    let readings: Vec<Reading> = reply_candidates(raw).iter().map(|c| read(c)).collect();
    parse_suggestions(raw, &readings)
}

#[test]
fn system_prompt_carries_os_and_shell() {
    let prompt = system_prompt(&ctx(ShellKind::Zsh), 3, Lang::En);
    assert!(prompt.contains("macOS"));
    assert!(prompt.contains("15.0"));
    assert!(prompt.contains("zsh"));
    assert!(prompt.contains("/tmp/project"));
    assert!(prompt.contains("exactly 3"));
}

#[test]
fn system_prompt_asks_for_the_task_language() {
    let prompt = system_prompt(&ctx(ShellKind::Zsh), 3, Lang::En);
    assert!(prompt.contains("same language the task was written in"));
    assert!(prompt.contains("explanation in English"));
}

#[test]
fn explanations_are_asked_for_in_the_interface_language() {
    // A task typed in English by a French speaker still gets French
    // explanations: the interface language decides, not the request's.
    let prompt = system_prompt(&ctx(ShellKind::Zsh), 3, Lang::Fr);
    assert!(prompt.contains(
        "5. Keep each explanation to one short phrase. Write the explanation in French, \
         the user's interface language, whatever language the task was written in;"
    ));
    assert!(!prompt.contains("explanation in English"));
    let prompt = system_prompt(&ctx(ShellKind::Zsh), 3, Lang::De);
    assert!(prompt.contains("Write the explanation in German,"));
}

#[test]
fn powershell_and_cmd_get_dedicated_hints() {
    assert!(system_prompt(&ctx(ShellKind::PowerShell), 1, Lang::En).contains("cmdlets"));
    assert!(system_prompt(&ctx(ShellKind::Cmd), 1, Lang::En).contains("cmd.exe"));
    // zsh needs no dedicated hint; adding one would only pad the prompt.
    assert!(!system_prompt(&ctx(ShellKind::Zsh), 1, Lang::En).contains("- Note:"));
}

#[test]
fn the_prompt_reads_as_written() {
    let prompt = system_prompt(&ctx(ShellKind::Fish), 12, Lang::En);
    assert!(prompt.starts_with(
        "You turn a task described in plain language into ready-to-run terminal commands.\n\n"
    ));
    assert!(prompt.contains("- OS: macOS (15.0)\n- Architecture: aarch64\n- Shell: fish\n"));
    assert!(prompt.contains("Give exactly 12 command suggestion(s)"));
    assert!(prompt.contains("2. Every command must run in fish on macOS unchanged.\n"));
    assert!(prompt.ends_with(
        "Reply format:\n{\"suggestions\":[{\"command\":\"...\",\"explanation\":\"...\"}]}\n"
    ));
    let mut bare = ctx(ShellKind::Bash);
    bare.os_version = None;
    bare.cwd = None;
    let prompt = system_prompt(&bare, 1, Lang::En);
    assert!(prompt.contains("- OS: macOS\n"));
    assert!(!prompt.contains("Working directory"));
}

#[test]
fn the_user_message_is_the_trimmed_task() {
    assert_eq!(user_prompt("  list files \n"), "Task: list files");
}

#[test]
fn parses_plain_json() {
    let raw = r#"{"suggestions":[{"command":"ls -la","explanation":"list files"}]}"#;
    let parsed = parse(raw).unwrap();
    assert_eq!(parsed.len(), 1);
    assert_eq!(parsed[0].command, "ls -la");
    assert_eq!(parsed[0].explanation, "list files");
}

#[test]
fn parses_json_wrapped_in_a_code_fence() {
    let raw = "```json\n{\"suggestions\":[{\"command\":\"pwd\",\"explanation\":\"path\"}]}\n```";
    let parsed = parse(raw).unwrap();
    assert_eq!(parsed[0].command, "pwd");
}

#[test]
fn parses_json_surrounded_by_prose() {
    let raw = "Sure! Here are some options:\n\
               {\"suggestions\":[{\"command\":\"df -h\",\"explanation\":\"disks\"}]}\n\
               Hope that helps.";
    let parsed = parse(raw).unwrap();
    assert_eq!(parsed[0].command, "df -h");
}

#[test]
fn parses_a_bare_array() {
    let raw = r#"[{"command":"uptime","explanation":"uptime"}]"#;
    let parsed = parse(raw).unwrap();
    assert_eq!(parsed[0].command, "uptime");
}

#[test]
fn tolerates_missing_explanation() {
    let raw = r#"{"suggestions":[{"command":"id"}]}"#;
    let parsed = parse(raw).unwrap();
    assert_eq!(parsed[0].explanation, "");
}

#[test]
fn explanations_in_any_language_survive_parsing() {
    let raw = r#"{"suggestions":[{"command":"df -h","explanation":"espace disque"}]}"#;
    let parsed = parse(raw).unwrap();
    assert_eq!(parsed[0].explanation, "espace disque");
}

#[test]
fn braces_inside_a_command_do_not_truncate_the_object() {
    let raw = "prose before\n{\"suggestions\":[{\"command\":\"ps aux | awk '{print $2}'\",\
               \"explanation\":\"process ids\"}]}\nprose after";
    let parsed = parse(raw).unwrap();
    assert_eq!(parsed[0].command, "ps aux | awk '{print $2}'");
}

#[test]
fn escaped_quotes_do_not_break_extraction() {
    let raw = r#"here: {"suggestions":[{"command":"echo \"hi\"","explanation":"greet"}]} done"#;
    let parsed = parse(raw).unwrap();
    assert_eq!(parsed[0].command, r#"echo "hi""#);
}

#[test]
fn strips_shell_prompt_markers_from_commands() {
    let raw = r#"{"suggestions":[{"command":"$ ls -la","explanation":""}]}"#;
    let parsed = parse(raw).unwrap();
    assert_eq!(parsed[0].command, "ls -la");
}

#[test]
fn drops_entries_with_empty_commands() {
    let raw = r#"{"suggestions":[{"command":"  ","explanation":"empty"},
                 {"command":"ls","explanation":"fine"}]}"#;
    let parsed = parse(raw).unwrap();
    assert_eq!(parsed.len(), 1);
    assert_eq!(parsed[0].command, "ls");
}

#[test]
fn garbage_is_an_error_not_a_panic() {
    assert!(parse("sorry, I can't help with that").is_err());
    assert!(parse("").is_err());
    assert!(parse("{ broken json").is_err());
}

#[test]
fn empty_suggestion_list_is_an_error() {
    // An empty list is not a success: there would be nothing to show.
    assert!(parse(r#"{"suggestions":[]}"#).is_err());
}

#[test]
fn commands_that_clean_down_to_nothing_are_an_error() {
    // Every command is blank: nothing would be left
    // to show, which is no more a success than an empty list.
    let raw = r#"{"suggestions":[{"command":"  ","explanation":"a"},{"command":"\t","explanation":"b"}]}"#;
    let err = parse(raw).unwrap_err();
    assert!(err.starts_with("could not parse the model's reply as JSON"));
    assert!(parse(r#"[{"command":" ","explanation":"x"}]"#).is_err());
}

#[test]
fn error_message_includes_the_raw_response() {
    let err = parse("I cannot").unwrap_err().to_string();
    assert!(err.contains("I cannot"), "the raw reply is what explains the failure");
}

#[test]
fn the_candidates_come_in_order_of_messiness() {
    let raw = "text ```json\n{\"a\":1}\n``` more {\"b\":{\"c\":\"}\"}} end";
    assert_eq!(
        reply_candidates(raw),
        vec![raw.trim().to_string(), "{\"a\":1}".to_string(), "{\"a\":1}".to_string()]
    );
    assert_eq!(strip_code_fence("no fence"), None);
    assert_eq!(strip_code_fence("```unterminated"), None);
    assert_eq!(extract_balanced_object("x {\"b\":{\"c\":\"}\"}} y").as_deref(), Some("{\"b\":{\"c\":\"}\"}}"));
    assert_eq!(extract_balanced_object("{ never closed"), None);
}

#[test]
fn repeated_prompt_markers_all_go() {
    let raw = r#"{"suggestions":[{"command":" $ $ > ls ","explanation":" x "}]}"#;
    let parsed = parse(raw).unwrap();
    assert_eq!(parsed[0].command, "ls");
    assert_eq!(parsed[0].explanation, "x");
}

#[test]
fn long_replies_are_cut_in_the_error() {
    let raw = "x".repeat(600);
    let err = parse(&raw).unwrap_err();
    assert!(err.ends_with('…'));
    assert_eq!(truncate("  abc  ", 2), "ab…");
    assert_eq!(truncate(" abc ", 3), "abc");
}
