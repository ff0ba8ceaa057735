use plz::config::{mask_key, setup_config, Config, SetupError};
use plz::provider::presets::{custom, deepseek, ollama};

#[test]
fn plz_api_key_wins_over_config_field() {
    let mut config = Config::default();
    config.provider.api_key = Some("from-config".into());
    assert_eq!(
        config.api_key(Some("from-env".into()), None).as_deref(),
        Some("from-env")
    );
    assert_eq!(config.api_key(None, None).as_deref(), Some("from-config"));
}

#[test]
fn preset_env_var_wins_over_config_field() {
    let mut config = Config::default(); // deepseek preset
    config.provider.api_key = Some("from-config".into());
    assert_eq!(config.key_env_var(), Some("DEEPSEEK_API_KEY"));
    assert_eq!(
        config.api_key(None, Some("from-preset-env".into())).as_deref(),
        Some("from-preset-env")
    );
}

#[test]
fn blank_env_var_does_not_shadow_config_field() {
    let mut config = Config::default();
    config.provider.api_key = Some("from-config".into());
    assert_eq!(config.api_key(Some("   ".into()), None).as_deref(), Some("from-config"));
}

#[test]
fn a_preset_without_a_variable_ignores_one() {
    let mut config = Config::default();
    config.provider.preset = ollama().name.to_string();
    assert_eq!(config.key_env_var(), None);
    assert_eq!(config.api_key(None, Some("stray".into())), None);
    config.provider.api_key = Some("  ".into());
    assert_eq!(config.api_key(None, None), None);
}

#[test]
fn ollama_does_not_require_a_key() {
    let mut config = Config::default();
    config.provider.preset = ollama().name.to_string();
    assert!(!config.key_required());
}

#[test]
fn an_unknown_preset_requires_a_key() {
    let mut config = Config::default();
    config.provider.preset = "somewhere-else".to_string();
    assert!(config.key_required());
}

#[test]
fn empty_toml_falls_back_to_defaults() {
    let config = Config::default();
    assert_eq!(config.behavior.suggestions, 3);
    assert!(config.behavior.confirm_dangerous);
    assert_eq!(config.behavior.timeout_secs, 30);
    assert!(config.behavior.language.is_none());
    assert_eq!(config.provider.preset, deepseek().name);
    assert_eq!(config.provider.base_url, deepseek().base_url);
    assert!(config.behavior.disable_thinking);
}

#[test]
fn redacted_hides_the_middle_of_the_key() {
    let mut config = Config::default();
    config.provider.api_key = Some("sk-1234567890abcdef".into());
    let shown = config.redacted().provider.api_key.unwrap();
    assert!(!shown.contains("567890"));
    assert!(shown.starts_with("sk-1"));
    assert!(shown.ends_with("cdef"));
    assert_eq!(shown, "sk-1...cdef");
}

#[test]
fn short_keys_are_fully_masked() {
    assert_eq!(mask_key("short"), "*****");
    assert_eq!(mask_key("0123456789"), "**********");
    assert_eq!(mask_key(""), "");
}

#[test]
fn redaction_keeps_everything_but_the_key() {
    let mut config = Config::default();
    config.behavior.language = Some("fr".into());
    let shown = config.redacted();
    assert_eq!(shown.provider.preset, config.provider.preset);
    assert_eq!(shown.behavior.language.as_deref(), Some("fr"));
    assert!(shown.provider.api_key.is_none());
}

#[test]
fn setup_refuses_empty_fields_and_trims_the_slash() {
    assert_eq!(
        setup_config(deepseek(), "", "m", None).err(),
        Some(SetupError::BaseUrlRequired)
    );
    assert_eq!(
        setup_config(deepseek(), "https://x/v1", "", None).err(),
        Some(SetupError::ModelRequired)
    );
    let config = setup_config(custom(), "https://x/v1//", "m", Some(String::new())).unwrap();
    assert_eq!(config.provider.base_url, "https://x/v1");
    assert_eq!(config.provider.preset, "custom");
    assert!(config.provider.api_key.is_none());
    assert!(!config.behavior.disable_thinking);
    let config = setup_config(ollama(), "http://localhost:11434/v1", "qwen3.5", Some("k".into()))
        .unwrap();
    assert!(!config.behavior.json_mode);
    assert_eq!(config.provider.api_key.as_deref(), Some("k"));
    assert_eq!(SetupError::ModelRequired.key(), "errors.model_required");
}
