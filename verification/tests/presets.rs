use plz::i18n::Label;
use plz::provider::presets::{all, by_name, custom, deepseek, ollama, openai};

#[test]
fn all_presets_are_findable_by_name() {
    for preset in all() {
        assert_eq!(by_name(preset.name).map(|p| p.name), Some(preset.name));
    }
}

#[test]
fn unknown_preset_is_none() {
    assert!(by_name("no-such-provider").is_none());
}

#[test]
fn only_deepseek_disables_thinking() {
    // The field puts an extra key in the request body, and endpoints that do
    // not know it answer 400. Turning it on is a per-provider decision.
    for preset in all() {
        assert_eq!(preset.disable_thinking, preset.name == deepseek().name, "{}", preset.name);
    }
}

#[test]
fn base_urls_have_no_trailing_slash() {
    // "/chat/completions" is appended to base_url; a trailing slash would give "//".
    for preset in all() {
        assert!(!preset.base_url.ends_with('/'), "{}", preset.name);
    }
}

#[test]
fn the_presets_come_in_setup_order() {
    let names: Vec<&str> = all().iter().map(|p| p.name).collect();
    assert_eq!(names, vec!["deepseek", "openai", "openrouter", "ollama", "custom"]);
}

#[test]
fn prose_entries_are_translated_and_brands_are_not() {
    assert_eq!(custom().base_url_display(), Label::Message("wizard.address_entered_manually"));
    assert_eq!(openai().base_url_display(), Label::Verbatim("https://api.openai.com/v1"));
    assert_eq!(ollama().title_display(), Label::Message("wizard.preset_ollama"));
    assert_eq!(custom().title_display(), Label::Message("wizard.preset_custom"));
    assert_eq!(deepseek().title_display(), Label::Verbatim("DeepSeek"));
    assert_eq!(ollama().key_hint_display(), Label::Message("wizard.no_key_required"));
    assert_eq!(custom().key_hint_display(), Label::Message("wizard.see_provider_docs"));
    assert_eq!(
        openai().key_hint_display(),
        Label::Verbatim("https://platform.openai.com/api-keys")
    );
}
