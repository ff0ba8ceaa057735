//! Ready-made setups for OpenAI-compatible endpoints.

use vstd::prelude::*;
use crate::i18n::Label;
use crate::text::{chars_of, eq_str};

verus! {

/// A ready-made setup for one OpenAI-compatible endpoint.
///
/// Everything here is only a default for the config. Users can override any of
/// it by hand, and `custom()` lets them point at an arbitrary `base_url` with no
/// preset at all.
#[derive(Debug, Clone, Copy, PartialEq, Eq)]
pub struct Preset {
    /// The name written to the config's `preset` field
    pub name: &'static str,
    /// Human-readable title shown during interactive setup
    pub title: &'static str,
    /// Base URL without a trailing slash; `/chat/completions` is appended to it
    pub base_url: &'static str,
    /// Default model
    pub model: &'static str,
    /// Environment variable holding the key when the config has none
    pub key_env: Option<&'static str>,
    /// Whether the endpoint supports `response_format: {"type": "json_object"}`
    pub json_mode: bool,
    /// Whether to ask the endpoint to skip reasoning with
    /// `thinking: {"type": "disabled"}`. Set it only where the default model
    /// thinks: here reasoning buys nothing and costs latency and tokens.
    pub disable_thinking: bool,
    /// Where to get a key; shown during first-time setup
    pub key_hint: &'static str,
}

/// The preset for DeepSeek.
pub open spec fn deepseek_spec() -> Preset {
    Preset {
        name: "deepseek",
        title: "DeepSeek",
        base_url: "https://api.deepseek.com/v1",
        model: "deepseek-v4-flash",
        key_env: Some("DEEPSEEK_API_KEY"),
        json_mode: true,
        disable_thinking: true,
        key_hint: "https://platform.deepseek.com/api_keys",
    }
}

/// The preset for OpenAI.
pub open spec fn openai_spec() -> Preset {
    Preset {
        name: "openai",
        title: "OpenAI",
        base_url: "https://api.openai.com/v1",
        model: "gpt-5.6-luna",
        key_env: Some("OPENAI_API_KEY"),
        json_mode: true,
        disable_thinking: false,
        key_hint: "https://platform.openai.com/api-keys",
    }
}

/// The preset for OpenRouter.
pub open spec fn openrouter_spec() -> Preset {
    Preset {
        name: "openrouter",
        title: "OpenRouter",
        base_url: "https://openrouter.ai/api/v1",
        model: "~deepseek/deepseek-v4-flash-latest",
        key_env: Some("OPENROUTER_API_KEY"),
        json_mode: true,
        disable_thinking: false,
        key_hint: "https://openrouter.ai/keys",
    }
}

/// The preset for a local Ollama.
pub open spec fn ollama_spec() -> Preset {
    Preset {
        name: "ollama",
        title: "Ollama (local)",
        base_url: "http://localhost:11434/v1",
        model: "qwen3.5",
        key_env: None,
        json_mode: false,
        disable_thinking: false,
        key_hint: "no key required",
    }
}

/// The entry for any other OpenAI-compatible endpoint.
pub open spec fn custom_spec() -> Preset {
    Preset {
        name: "custom",
        title: "Another OpenAI-compatible endpoint",
        base_url: "",
        model: "",
        key_env: None,
        json_mode: true,
        disable_thinking: false,
        key_hint: "see your provider's documentation",
    }
}

/// DeepSeek. The model thinks by default, and a one-shot CLI gains nothing
/// from it, so this preset asks the endpoint to skip reasoning.
#[verifier::when_used_as_spec(deepseek_spec)]
pub fn deepseek() -> (p: Preset)
    ensures
        p == deepseek_spec(),
{
    Preset {
        name: "deepseek",
        title: "DeepSeek",
        base_url: "https://api.deepseek.com/v1",
        model: "deepseek-v4-flash",
        key_env: Some("DEEPSEEK_API_KEY"),
        json_mode: true,
        disable_thinking: true,
        key_hint: "https://platform.deepseek.com/api_keys",
    }
}

/// OpenAI.
#[verifier::when_used_as_spec(openai_spec)]
pub fn openai() -> (p: Preset)
    ensures
        p == openai_spec(),
{
    Preset {
        name: "openai",
        title: "OpenAI",
        base_url: "https://api.openai.com/v1",
        model: "gpt-5.6-luna",
        key_env: Some("OPENAI_API_KEY"),
        json_mode: true,
        disable_thinking: false,
        key_hint: "https://platform.openai.com/api-keys",
    }
}

/// OpenRouter. The `~` prefix of the model is OpenRouter's router alias: it
/// resolves to the newest model of the family, so the preset does not go
/// stale each time a dated release replaces the previous one. A proxy in front
/// of many providers is likelier to reject an unknown body field than honour
/// it, so thinking is left alone.
#[verifier::when_used_as_spec(openrouter_spec)]
pub fn openrouter() -> (p: Preset)
    ensures
        p == openrouter_spec(),
{
    Preset {
        name: "openrouter",
        title: "OpenRouter",
        base_url: "https://openrouter.ai/api/v1",
        model: "~deepseek/deepseek-v4-flash-latest",
        key_env: Some("OPENROUTER_API_KEY"),
        json_mode: true,
        disable_thinking: false,
        key_hint: "https://openrouter.ai/keys",
    }
}

/// A local Ollama: no key, and no `json_object` response format.
#[verifier::when_used_as_spec(ollama_spec)]
pub fn ollama() -> (p: Preset)
    ensures
        p == ollama_spec(),
{
    Preset {
        name: "ollama",
        title: "Ollama (local)",
        base_url: "http://localhost:11434/v1",
        model: "qwen3.5",
        key_env: None,
        json_mode: false,
        disable_thinking: false,
        key_hint: "no key required",
    }
}

/// Another OpenAI-compatible endpoint, whose address the user types.
#[verifier::when_used_as_spec(custom_spec)]
pub fn custom() -> (p: Preset)
    ensures
        p == custom_spec(),
{
    Preset {
        name: "custom",
        title: "Another OpenAI-compatible endpoint",
        base_url: "",
        model: "",
        key_env: None,
        json_mode: true,
        disable_thinking: false,
        key_hint: "see your provider's documentation",
    }
}

/// The presets in setup order.
pub open spec fn all_presets() -> Seq<Preset> {
    seq![deepseek_spec(), openai_spec(), openrouter_spec(), ollama_spec(), custom_spec()]
}

/// Every preset, in the order they appear during first-time setup.
pub fn all() -> (r: Vec<Preset>)
    ensures
        r@ == all_presets(),
{
    let r = vec![deepseek(), openai(), openrouter(), ollama(), custom()];
    assert(r@ =~= all_presets());
    r
}

/// The first preset stored under `name`.
pub open spec fn preset_named(name: Seq<char>) -> Option<Preset> {
    if name == deepseek_spec().name@ {
        Some(deepseek_spec())
    } else if name == openai_spec().name@ {
        Some(openai_spec())
    } else if name == openrouter_spec().name@ {
        Some(openrouter_spec())
    } else if name == ollama_spec().name@ {
        Some(ollama_spec())
    } else if name == custom_spec().name@ {
        Some(custom_spec())
    } else {
        None
    }
}

/// Look up a preset by the name stored in the config.
pub fn by_name(name: &str) -> (r: Option<Preset>)
    ensures
        r == preset_named(name@),
{
    let n = chars_of(name);
    if eq_str(&n, deepseek().name) {
        Some(deepseek())
    } else if eq_str(&n, openai().name) {
        Some(openai())
    } else if eq_str(&n, openrouter().name) {
        Some(openrouter())
    } else if eq_str(&n, ollama().name) {
        Some(ollama())
    } else if eq_str(&n, custom().name) {
        Some(custom())
    } else {
        None
    }
}

impl Preset {
    /// The base URL as shown in the selection list.
    ///
    /// `custom` has none — the user types the address themselves, and empty
    /// parentheses in the list would look like a bug.
    pub fn base_url_display(&self) -> (r: Label)
        ensures
            self.base_url@.len() == 0 ==> r == Label::Message("wizard.address_entered_manually"),
            self.base_url@.len() > 0 ==> r == Label::Verbatim(self.base_url),
    {
        if self.base_url.unicode_len() == 0 {
            Label::Message("wizard.address_entered_manually")
        } else {
            Label::Verbatim(self.base_url)
        }
    }

    /// The title as shown in the setup list.
    ///
    /// The struct keeps the English text as the preset's identity; only the two
    /// entries that are prose rather than a brand name have a translation.
    pub fn title_display(&self) -> (r: Label)
        ensures
            r == (if self.name@ == ollama_spec().name@ {
                Label::Message("wizard.preset_ollama")
            } else if self.name@ == custom_spec().name@ {
                Label::Message("wizard.preset_custom")
            } else {
                Label::Verbatim(self.title)
            }),
    {
        let n = chars_of(self.name);
        if eq_str(&n, ollama().name) {
            Label::Message("wizard.preset_ollama")
        } else if eq_str(&n, custom().name) {
            Label::Message("wizard.preset_custom")
        } else {
            Label::Verbatim(self.title)
        }
    }

    /// Where to get a key. For most presets this is a URL, which stays as it is.
    pub fn key_hint_display(&self) -> (r: Label)
        ensures
            r == (if self.name@ == ollama_spec().name@ {
                Label::Message("wizard.no_key_required")
            } else if self.name@ == custom_spec().name@ {
                Label::Message("wizard.see_provider_docs")
            } else {
                Label::Verbatim(self.key_hint)
            }),
    {
        let n = chars_of(self.name);
        if eq_str(&n, ollama().name) {
            Label::Message("wizard.no_key_required")
        } else if eq_str(&n, custom().name) {
            Label::Message("wizard.see_provider_docs")
        } else {
            Label::Verbatim(self.key_hint)
        }
    }
}

/// Every preset is found again by the name it is stored under.
pub proof fn lemma_every_preset_is_found_by_name(i: int)
    requires
        0 <= i < all_presets().len(),
    ensures
        preset_named(all_presets()[i].name@) == Some(all_presets()[i]),
{
    reveal_strlit("deepseek");
    reveal_strlit("openai");
    reveal_strlit("openrouter");
    reveal_strlit("ollama");
    reveal_strlit("custom");
    assert("deepseek"@[0] == 'd');
    assert("openai"@[0] == 'o' && "openai"@.len() == 6);
    assert("openrouter"@[0] == 'o' && "openrouter"@.len() == 10);
    assert("ollama"@[0] == 'o' && "ollama"@[1] == 'l' && "openai"@[1] == 'p'
        && "openrouter"@[1] == 'p');
    assert("custom"@[0] == 'c');
}

/// Only DeepSeek asks the endpoint to skip reasoning: the field puts an extra
/// key in the request body, and endpoints that do not know it answer 400.
pub proof fn lemma_only_deepseek_disables_thinking(i: int)
    requires
        0 <= i < all_presets().len(),
    ensures
        all_presets()[i].disable_thinking <==> all_presets()[i] == deepseek_spec(),
{
}

/// No base URL ends with a slash: `/chat/completions` is appended to it, and
/// a trailing slash would give `//`.
pub proof fn lemma_base_urls_have_no_trailing_slash(i: int)
    requires
        0 <= i < all_presets().len(),
    ensures
        all_presets()[i].base_url@.len() == 0 || all_presets()[i].base_url@.last() != '/',
{
    reveal_strlit("https://api.deepseek.com/v1");
    reveal_strlit("https://api.openai.com/v1");
    reveal_strlit("https://openrouter.ai/api/v1");
    reveal_strlit("http://localhost:11434/v1");
    reveal_strlit("");
}

} // verus!
