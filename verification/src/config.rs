//! The configuration: which endpoint to talk to, and how plz behaves.
//!
//! Reading and writing the file, and reading the environment, happen outside;
//! this module holds the values and the rules that pick among them.

use vstd::prelude::*;
use crate::context::opt_text;
use crate::provider::presets::{by_name, deepseek, deepseek_spec, preset_named, Preset};
use crate::text::{chars_of, push_char, string_of, sub_vec, trim, trim_end_ch, trim_end_char, trim_ws};

verus! {

/// Environment variable that overrides the config's key for any provider.
pub const KEY_ENV: &'static str = "PLZ_API_KEY";

/// Environment variable that points at a different config file.
/// Used by tests and for keeping several profiles.
pub const CONFIG_PATH_ENV: &'static str = "PLZ_CONFIG";

#[derive(Debug, Clone)]
pub struct Config {
    pub provider: ProviderConfig,
    pub behavior: BehaviorConfig,
}

#[derive(Debug, Clone)]
pub struct ProviderConfig {
    /// Preset name from `provider::presets`, or "custom"
    pub preset: String,
    /// Base URL without a trailing slash
    pub base_url: String,
    pub model: String,
    /// Stored here only when it is not supplied through an environment variable
    pub api_key: Option<String>,
}

#[derive(Debug, Clone)]
pub struct BehaviorConfig {
    /// How many suggestions to request
    pub suggestions: usize,
    /// Ask for confirmation before running risky commands
    pub confirm_dangerous: bool,
    /// Timeout for the HTTP request to the model
    pub timeout_secs: u64,
    /// Whether to send the working directory to the model
    pub send_cwd: bool,
    /// Whether to ask the endpoint for `response_format: json_object`
    pub json_mode: bool,
    /// Whether to ask the endpoint to skip reasoning with
    /// `thinking: {"type": "disabled"}`
    ///
    /// Off unless a preset asks for it: the field is not part of the OpenAI API,
    /// and an endpoint that does not know it answers 400.
    pub disable_thinking: bool,
    /// Interface language, or "auto" to follow the OS
    ///
    /// A free string rather than an enum: an unknown value has to degrade to
    /// auto-detection, because a config that fails to parse takes plz down with
    /// it.
    pub language: Option<String>,
}

pub fn default_suggestions() -> (r: usize)
    ensures
        r == 3,
{
    3
}

pub fn default_true() -> (r: bool)
    ensures
        r,
{
    true
}

pub fn default_timeout() -> (r: u64)
    ensures
        r == 30,
{
    30
}

impl Default for ProviderConfig {
    /// The default provider is DeepSeek.
    fn default() -> (r: Self)
        ensures
            r.preset@ == deepseek_spec().name@,
            r.base_url@ == deepseek_spec().base_url@,
            r.model@ == deepseek_spec().model@,
            r.api_key is None,
    {
        let preset = deepseek();
        ProviderConfig {
            preset: String::from_str(preset.name),
            base_url: String::from_str(preset.base_url),
            model: String::from_str(preset.model),
            api_key: None,
        }
    }
}

impl Default for BehaviorConfig {
    fn default() -> (r: Self)
        ensures
            r.suggestions == 3,
            r.confirm_dangerous,
            r.timeout_secs == 30,
            r.send_cwd,
            r.json_mode,
            r.disable_thinking == deepseek_spec().disable_thinking,
            r.language is None,
    {
        BehaviorConfig {
            suggestions: default_suggestions(),
            confirm_dangerous: default_true(),
            timeout_secs: default_timeout(),
            send_cwd: default_true(),
            json_mode: default_true(),
            // Follows the default provider, which is DeepSeek.
            disable_thinking: deepseek().disable_thinking,
            language: None,
        }
    }
}

impl Default for Config {
    fn default() -> (r: Self)
        ensures
            r.provider.preset@ == deepseek_spec().name@,
            r.provider.base_url@ == deepseek_spec().base_url@,
            r.provider.model@ == deepseek_spec().model@,
            r.provider.api_key is None,
            r.behavior.suggestions == 3,
            r.behavior.confirm_dangerous,
            r.behavior.timeout_secs == 30,
            r.behavior.send_cwd,
            r.behavior.json_mode,
            r.behavior.disable_thinking == deepseek_spec().disable_thinking,
            r.behavior.language is None,
    {
        Config { provider: ProviderConfig::default(), behavior: BehaviorConfig::default() }
    }
}

/// A key that is there and not blank.
pub open spec fn usable(key: Option<Seq<char>>) -> bool {
    key matches Some(k) && trim(k).len() > 0
}

/// The environment variable of the configured preset that may hold the key.
pub open spec fn preset_key_var(preset_name: Seq<char>) -> Option<&'static str> {
    match preset_named(preset_name) {
        Some(p) => p.key_env,
        None => None,
    }
}

/// The key in priority order: `PLZ_API_KEY`, then the preset's variable, then
/// the config field; a blank value counts as absent.
pub open spec fn chosen_key(
    plz_key: Option<Seq<char>>,
    preset_name: Seq<char>,
    preset_key: Option<Seq<char>>,
    stored: Option<Seq<char>>,
) -> Option<Seq<char>> {
    if usable(plz_key) {
        plz_key
    } else if preset_key_var(preset_name) is Some && usable(preset_key) {
        preset_key
    } else if usable(stored) {
        stored
    } else {
        None
    }
}

/// Whether an optional key is there and not blank.
fn is_usable(key: &Option<String>) -> (r: bool)
    ensures
        r == usable(opt_text(*key)),
{
    match key {
        Some(k) => trim_ws(&chars_of(k.as_str())).len() > 0,
        None => false,
    }
}

/// A copy of an optional string.
fn copy_opt(s: &Option<String>) -> (r: Option<String>)
    ensures
        opt_text(r) == opt_text(*s),
{
    match s {
        Some(t) => Some(t.clone()),
        None => None,
    }
}

/// A key masked so it stays recognisable: both ends kept around `...` when it
/// is longer than ten characters, every character a `*` otherwise.
pub open spec fn masked(key: Seq<char>) -> Seq<char> {
    if key.len() <= 10 {
        Seq::new(key.len(), |i: int| '*')
    } else {
        key.take(4) + "..."@ + key.skip(key.len() - 4)
    }
}

/// Mask a key, keeping both ends so it stays recognisable.
pub fn mask_key(key: &str) -> (r: String)
    ensures
        r@ == masked(key@),
{
    let chars = chars_of(key);
    let n = chars.len();
    if n <= 10 {
        let mut r = String::new();
        let mut i: usize = 0;
        while i < n
            invariant
                i <= n,
                r@ == Seq::new(i as nat, |k: int| '*'),
            decreases n - i,
        {
            push_char(&mut r, '*');
            i += 1;
            assert(r@ =~= Seq::new(i as nat, |k: int| '*'));
        }
        return r;
    }
    let head = sub_vec(&chars, 0, 4);
    let tail = sub_vec(&chars, n - 4, n);
    let mut r = string_of(&head);
    r.append("...");
    let t = string_of(&tail);
    r.append(t.as_str());
    assert(tail@ =~= key@.skip(key@.len() - 4));
    r
}

impl Config {
    /// The environment variable that may hold the key for the configured
    /// preset (`DEEPSEEK_API_KEY` and the like), if it has one.
    pub fn key_env_var(&self) -> (r: Option<&'static str>)
        ensures
            r == preset_key_var(self.provider.preset@),
    {
        match by_name(self.provider.preset.as_str()) {
            Some(p) => p.key_env,
            None => None,
        }
    }

    /// The API key, resolved in priority order: `PLZ_API_KEY` (`plz_key`),
    /// then the preset's variable (`preset_key`, the value of
    /// `key_env_var()`), then the config field.
    ///
    /// Environment variables come first so that CI and temporary switches do
    /// not require editing the file. A blank variable does not shadow the
    /// field.
    pub fn api_key(&self, plz_key: Option<String>, preset_key: Option<String>) -> (r: Option<String>)
        ensures
            opt_text(r) == chosen_key(
                opt_text(plz_key),
                self.provider.preset@,
                opt_text(preset_key),
                opt_text(self.provider.api_key),
            ),
    {
        if is_usable(&plz_key) {
            return plz_key;
        }
        if self.key_env_var().is_some() && is_usable(&preset_key) {
            return preset_key;
        }
        if is_usable(&self.provider.api_key) {
            return copy_opt(&self.provider.api_key);
        }
        None
    }

    /// Whether the chosen endpoint needs a key (a local Ollama does not).
    pub fn key_required(&self) -> (r: bool)
        ensures
            r == (match preset_named(self.provider.preset@) {
                Some(p) => p.key_env is Some,
                None => true,
            }),
    {
        match by_name(self.provider.preset.as_str()) {
            Some(p) => p.key_env.is_some(),
            None => true,
        }
    }

    /// A copy of the config that is safe to print: the same in every field but
    /// the key, which is masked.
    pub fn redacted(&self) -> (r: Config)
        ensures
            r.provider.preset@ == self.provider.preset@,
            r.provider.base_url@ == self.provider.base_url@,
            r.provider.model@ == self.provider.model@,
            opt_text(r.provider.api_key) == (match opt_text(self.provider.api_key) {
                Some(k) => Some(masked(k)),
                None => None,
            }),
            r.behavior.suggestions == self.behavior.suggestions,
            r.behavior.confirm_dangerous == self.behavior.confirm_dangerous,
            r.behavior.timeout_secs == self.behavior.timeout_secs,
            r.behavior.send_cwd == self.behavior.send_cwd,
            r.behavior.json_mode == self.behavior.json_mode,
            r.behavior.disable_thinking == self.behavior.disable_thinking,
            opt_text(r.behavior.language) == opt_text(self.behavior.language),
    {
        let api_key = match &self.provider.api_key {
            Some(k) => Some(mask_key(k.as_str())),
            None => None,
        };
        Config {
            provider: ProviderConfig {
                preset: self.provider.preset.clone(),
                base_url: self.provider.base_url.clone(),
                model: self.provider.model.clone(),
                api_key,
            },
            behavior: BehaviorConfig {
                suggestions: self.behavior.suggestions,
                confirm_dangerous: self.behavior.confirm_dangerous,
                timeout_secs: self.behavior.timeout_secs,
                send_cwd: self.behavior.send_cwd,
                json_mode: self.behavior.json_mode,
                disable_thinking: self.behavior.disable_thinking,
                language: copy_opt(&self.behavior.language),
            },
        }
    }
}

/// A value first-time setup cannot do without.
#[derive(Debug, Clone, Copy, PartialEq, Eq, Structural)]
pub enum SetupError {
    /// The base URL was left empty
    BaseUrlRequired,
    /// The model was left empty
    ModelRequired,
}

impl SetupError {
    /// The catalogue message for the error.
    pub fn key(self) -> (r: &'static str)
        ensures
            r == (match self {
                SetupError::BaseUrlRequired => "errors.base_url_required",
                SetupError::ModelRequired => "errors.model_required",
            }),
    {
        match self {
            SetupError::BaseUrlRequired => "errors.base_url_required",
            SetupError::ModelRequired => "errors.model_required",
        }
    }
}

/// The config first-time setup writes, from the chosen preset, the base URL
/// and model as typed (empty ones are refused) and the key, if one was typed.
///
/// The base URL loses its trailing slashes: `/chat/completions` is appended
/// to it. The preset decides the two request switches.
pub fn setup_config(preset: Preset, base_url: &str, model: &str, key: Option<String>) -> (r: Result<
    Config,
    SetupError,
>)
    ensures
        base_url@.len() == 0 ==> r == Err::<Config, SetupError>(SetupError::BaseUrlRequired),
        base_url@.len() > 0 && model@.len() == 0 ==> r == Err::<Config, SetupError>(
            SetupError::ModelRequired,
        ),
        base_url@.len() > 0 && model@.len() > 0 ==> (r matches Ok(c) && {
            &&& c.provider.preset@ == preset.name@
            &&& c.provider.base_url@ == trim_end_char(base_url@, '/')
            &&& c.provider.model@ == model@
            &&& opt_text(c.provider.api_key) == (match opt_text(key) {
                Some(k) if k.len() > 0 => Some(k),
                _ => None,
            })
            &&& c.behavior.json_mode == preset.json_mode
            &&& c.behavior.disable_thinking == preset.disable_thinking
            &&& c.behavior.suggestions == 3
            &&& c.behavior.confirm_dangerous
            &&& c.behavior.timeout_secs == 30
            &&& c.behavior.send_cwd
            &&& c.behavior.language is None
        }),
{
    if base_url.unicode_len() == 0 {
        return Err(SetupError::BaseUrlRequired);
    }
    if model.unicode_len() == 0 {
        return Err(SetupError::ModelRequired);
    }
    let mut config = Config::default();
    config.provider.preset = String::from_str(preset.name);
    config.provider.base_url = string_of(&trim_end_ch(&chars_of(base_url), '/'));
    config.provider.model = String::from_str(model);
    config.behavior.json_mode = preset.json_mode;
    config.behavior.disable_thinking = preset.disable_thinking;
    config.provider.api_key = match key {
        Some(k) => if k.unicode_len() > 0 {
            Some(k)
        } else {
            None
        },
        None => None,
    };
    Ok(config)
}

/// The key the config uses is the first usable one in priority order: a
/// usable `PLZ_API_KEY` wins over everything, the field decides only when no
/// variable supplies a usable key, and a blank key is never the answer.
pub proof fn lemma_environment_wins_over_the_file(
    plz_key: Option<Seq<char>>,
    preset_name: Seq<char>,
    preset_key: Option<Seq<char>>,
    stored: Option<Seq<char>>,
)
    ensures
        usable(plz_key) ==> chosen_key(plz_key, preset_name, preset_key, stored) == plz_key,
        !usable(plz_key) && !(preset_key_var(preset_name) is Some && usable(preset_key)) ==> chosen_key(
            plz_key,
            preset_name,
            preset_key,
            stored,
        ) == (if usable(stored) {
            stored
        } else {
            None
        }),
        chosen_key(plz_key, preset_name, preset_key, stored) matches Some(k) ==> trim(k).len() > 0,
{
}

/// A masked key never shows the middle of the key: a long key keeps four
/// characters at each end, a short one none.
pub proof fn lemma_mask_hides_the_middle(key: Seq<char>)
    ensures
        key.len() <= 10 ==> masked(key).len() == key.len() && forall|i: int|
            0 <= i < key.len() ==> masked(key)[i] == '*',
        key.len() > 10 ==> masked(key).len() == 11 && masked(key).take(4) == key.take(4)
            && masked(key).skip(7) == key.skip(key.len() - 4),
{
    reveal_strlit("...");
    if key.len() > 10 {
        assert(masked(key).take(4) =~= key.take(4));
        assert(masked(key).skip(7) =~= key.skip(key.len() - 4));
    }
}

} // verus!
