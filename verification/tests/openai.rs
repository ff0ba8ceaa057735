use plz::config::Config;
use plz::context::{Context, Shell, ShellKind};
use plz::i18n::Lang;
use plz::json::Json;
use plz::provider::openai::{
    api_error_message, api_message, describe_api_error, describe_transport_error,
    extract_api_message, reply_content, snippet, OpenAiProvider, ProviderError, TransportFailure,
};
use plz::provider::presets::ollama;

#[test]
fn endpoint_is_built_without_double_slash() {
    let mut config = Config::default();
    config.provider.base_url = "https://api.example.com/v1/".into();
    config.provider.api_key = Some("k".into());
    let provider = OpenAiProvider::from_config(&config, None, None).ok().unwrap();
    assert_eq!(provider.endpoint, "https://api.example.com/v1/chat/completions");
}

#[test]
fn missing_key_is_reported_before_any_request() {
    let mut config = Config::default();
    config.provider.api_key = None;
    let err = OpenAiProvider::from_config(&config, None, None).err().unwrap();
    assert_eq!(err, ProviderError::NoApiKey);
    assert!(err.message().contains("API key"));
}

#[test]
fn ollama_works_without_a_key() {
    let mut config = Config::default();
    config.provider.preset = ollama().name.into();
    config.provider.base_url = ollama().base_url.into();
    config.provider.model = ollama().model.into();
    config.provider.api_key = None;
    assert!(OpenAiProvider::from_config(&config, None, None).is_ok());
}

#[test]
fn empty_base_url_is_rejected() {
    let mut config = Config::default();
    config.provider.base_url = String::new();
    let err = OpenAiProvider::from_config(&config, None, None).err().unwrap();
    assert!(err.message().contains("base_url"));
    config.provider.base_url = "https://x".into();
    config.provider.model = "  ".into();
    let err = OpenAiProvider::from_config(&config, None, None).err().unwrap();
    assert!(err.message().contains("model"));
}

#[test]
fn api_error_message_is_extracted_from_the_body() {
    let body = r#"{"error":{"message":"Invalid API key","type":"authentication_error"}}"#;
    assert_eq!(extract_api_message(body).as_deref(), Some("Invalid API key"));
}

#[test]
fn unauthorised_error_explains_what_to_fix() {
    let err = describe_api_error("401 Unauthorized", 401, r#"{"error":{"message":"bad key"}}"#);
    assert!(err.contains("bad key"));
    assert!(err.contains("PLZ_API_KEY"));
}

#[test]
fn bad_request_hints_at_json_mode() {
    let err = describe_api_error("400 Bad Request", 400, "{}");
    assert!(err.contains("json_mode"));
}

#[test]
fn non_json_error_body_is_shown_as_is() {
    let err = describe_api_error("500 Internal Server Error", 500, "<html>Bad Gateway</html>");
    assert!(err.contains("Bad Gateway"));
    assert!(err.contains("server-side error"));
}

#[test]
fn a_status_without_a_hint_gets_none() {
    assert_eq!(
        describe_api_error("418 I'm a teapot", 418, "  "),
        "the API returned 418 I'm a teapot: (empty response)"
    );
    assert_eq!(
        api_error_message("418 I'm a teapot", 418, Some("short".into()), "ignored"),
        "the API returned 418 I'm a teapot: short"
    );
}

#[test]
fn an_error_given_as_a_string_is_its_own_message() {
    assert_eq!(extract_api_message(r#"{"error":"quota exhausted"}"#).as_deref(), Some("quota exhausted"));
    // An error object without a text message, or no error member at all,
    // carries nothing; neither does a body that is not JSON.
    assert_eq!(extract_api_message(r#"{"error":{"message":42}}"#), None);
    assert_eq!(extract_api_message(r#"{"message":"not under error"}"#), None);
    assert_eq!(extract_api_message(r#"["error"]"#), None);
    assert_eq!(extract_api_message("Bad Gateway"), None);
    assert_eq!(
        describe_api_error("503 Service Unavailable", 503, r#"{"error":"overloaded"}"#),
        "the API returned 503 Service Unavailable: overloaded\nThe provider had a server-side error. Try again later."
    );
}

#[test]
fn the_message_is_read_from_the_json_value() {
    let error = Json::Object(vec![
        ("type".to_string(), Json::Text("auth".into())),
        ("message".to_string(), Json::Text("bad key".into())),
    ]);
    let body = Some(Json::Object(vec![("error".to_string(), error)]));
    assert_eq!(api_message(&body).as_deref(), Some("bad key"));
    let text = Some(Json::Object(vec![("error".to_string(), Json::Text("down".into()))]));
    assert_eq!(api_message(&text).as_deref(), Some("down"));
    let number = Some(Json::Object(vec![("error".to_string(), Json::Number("5".into()))]));
    assert_eq!(api_message(&number), None);
    assert_eq!(api_message(&Some(Json::Null)), None);
    assert_eq!(api_message(&None), None);
}

#[test]
fn response_without_choices_is_an_error_not_a_panic() {
    assert_eq!(reply_content(Vec::new()), Err("the model returned an empty response".to_string()));
    assert_eq!(reply_content(vec!["a".into(), "b".into()]), Ok("a".to_string()));
}

#[test]
fn a_long_body_is_cut() {
    let body = "y".repeat(400);
    let cut = snippet(&body);
    assert_eq!(cut.chars().count(), 301);
    assert!(cut.ends_with('…'));
    assert_eq!(snippet(" short "), "short");
}

#[test]
fn transport_errors_say_what_to_check() {
    let timeout = describe_transport_error("https://x", TransportFailure::Timeout, "");
    assert!(timeout.contains("timeout_secs"));
    let connect = describe_transport_error("https://x", TransportFailure::Connect, "refused");
    assert!(connect.contains("could not connect to https://x: refused"));
}

#[test]
fn the_request_carries_the_prompts_and_the_switches() {
    let config = Config::default();
    let provider = OpenAiProvider::from_config(&config, Some("key".into()), None)
        .ok()
        .unwrap()
        .with_model(Some("other".into()));
    assert_eq!(provider.model, "other");
    assert_eq!(provider.api_key.as_deref(), Some("key"));
    let ctx = Context {
        os: "Linux".into(),
        os_version: None,
        arch: "x86_64".into(),
        shell: Shell::new(ShellKind::Bash, "bash".into()),
        cwd: None,
    };
    let request = provider.request(&ctx, " free space ", 2, Lang::Fr);
    assert_eq!(request.user, "Task: free space");
    assert!(request.system.contains("exactly 2"));
    assert!(request.system.contains("Write the explanation in French, the user's interface language"));
    assert!(request.json_object);
    assert!(request.disable_thinking);
}
