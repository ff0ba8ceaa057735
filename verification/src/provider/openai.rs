//! An endpoint compatible with the OpenAI Chat Completions API: what is sent,
//! and how its answers and failures read.
//!
//! The HTTP exchange itself happens outside; this module holds the settings it
//! needs, the request it carries, and the messages that explain what went
//! wrong.

use vstd::prelude::*;
use crate::config::{chosen_key, Config};
use crate::context::{opt_text, Context};
use crate::i18n::Lang;
use crate::json::{get_member, member, read_json, json_reading, Json};
use crate::prompt::{system_prompt, system_prompt_text, user_prompt};
use crate::text::{chars_of, string_of, sub_vec, trim, trim_end_ch, trim_end_char, trim_ws};

verus! {

/// What talking to the endpoint needs.
pub struct OpenAiProvider {
    /// The full URL requests go to
    pub endpoint: String,
    pub model: String,
    pub api_key: Option<String>,
    pub json_mode: bool,
    pub disable_thinking: bool,
    /// How long a request may take
    pub timeout_secs: u64,
}

/// Why the configuration cannot be used to talk to the endpoint.
#[derive(Debug, Clone, Copy, PartialEq, Eq, Structural)]
pub enum ProviderError {
    NoBaseUrl,
    NoModel,
    NoApiKey,
}

impl ProviderError {
    /// What the error says to the user.
    pub fn message(self) -> (r: &'static str)
        ensures
            r == (match self {
                ProviderError::NoBaseUrl => "the configuration has no base_url — run `plz config init`",
                ProviderError::NoModel => "the configuration has no model — run `plz config init`",
                ProviderError::NoApiKey => "no API key found.\nSet PLZ_API_KEY or run `plz config init`.",
            }),
    {
        match self {
            ProviderError::NoBaseUrl => "the configuration has no base_url — run `plz config init`",
            ProviderError::NoModel => "the configuration has no model — run `plz config init`",
            ProviderError::NoApiKey => "no API key found.\nSet PLZ_API_KEY or run `plz config init`.",
        }
    }
}

/// The endpoint for a base URL: its trailing slashes dropped, then
/// `/chat/completions`.
pub open spec fn endpoint_of(base_url: Seq<char>) -> Seq<char> {
    trim_end_char(base_url, '/') + "/chat/completions"@
}

impl OpenAiProvider {
    /// The settings for the configured endpoint, given the two environment
    /// variables that may hold the key (`PLZ_API_KEY` and the preset's own).
    ///
    /// A missing base URL or model is reported before the key, and a missing
    /// key only where the endpoint needs one — all before any request.
    pub fn from_config(config: &Config, plz_key: Option<String>, preset_key: Option<String>) -> (r: Result<
        Self,
        ProviderError,
    >)
        ensures
            trim(config.provider.base_url@).len() == 0 ==> r == Err::<Self, ProviderError>(
                ProviderError::NoBaseUrl,
            ),
            trim(config.provider.base_url@).len() > 0 && trim(config.provider.model@).len() == 0
                ==> r == Err::<Self, ProviderError>(ProviderError::NoModel),
            ({
                let key = chosen_key(
                    opt_text(plz_key),
                    config.provider.preset@,
                    opt_text(preset_key),
                    opt_text(config.provider.api_key),
                );
                let required = match crate::provider::presets::preset_named(config.provider.preset@) {
                    Some(p) => p.key_env is Some,
                    None => true,
                };
                trim(config.provider.base_url@).len() > 0 && trim(config.provider.model@).len() > 0
                    ==> if required && key is None {
                    r == Err::<Self, ProviderError>(ProviderError::NoApiKey)
                } else {
                    r matches Ok(p) && p.endpoint@ == endpoint_of(config.provider.base_url@)
                        && p.model@ == config.provider.model@ && opt_text(p.api_key) == key
                        && p.json_mode == config.behavior.json_mode && p.disable_thinking
                        == config.behavior.disable_thinking && p.timeout_secs
                        == config.behavior.timeout_secs
                }
            }),
    {
        if trim_ws(&chars_of(config.provider.base_url.as_str())).len() == 0 {
            return Err(ProviderError::NoBaseUrl);
        }
        if trim_ws(&chars_of(config.provider.model.as_str())).len() == 0 {
            return Err(ProviderError::NoModel);
        }
        let api_key = config.api_key(plz_key, preset_key);
        if config.key_required() && api_key.is_none() {
            return Err(ProviderError::NoApiKey);
        }
        let mut endpoint = string_of(&trim_end_ch(&chars_of(config.provider.base_url.as_str()), '/'));
        endpoint.append("/chat/completions");
        Ok(OpenAiProvider {
            endpoint,
            model: config.provider.model.clone(),
            api_key,
            json_mode: config.behavior.json_mode,
            disable_thinking: config.behavior.disable_thinking,
            timeout_secs: config.behavior.timeout_secs,
        })
    }

    /// Override the model for a single run (the `--model` flag).
    pub fn with_model(self, model: Option<String>) -> (r: Self)
        ensures
            r.model@ == (match model {
                Some(m) => m@,
                None => self.model@,
            }),
            r.endpoint@ == self.endpoint@,
            opt_text(r.api_key) == opt_text(self.api_key),
            r.json_mode == self.json_mode,
            r.disable_thinking == self.disable_thinking,
            r.timeout_secs == self.timeout_secs,
    {
        let mut this = self;
        match model {
            Some(m) => {
                this.model = m;
            },
            None => {},
        }
        this
    }

    /// The request for a task: the system and user messages, and the two
    /// optional fields.
    ///
    /// The response format is asked for only where the endpoint supports it:
    /// Ollama and some compatible servers answer 400 on an unknown field.
    /// Likewise `thinking`, which is DeepSeek's, not the OpenAI API's.
    pub fn request(&self, ctx: &Context, task: &str, count: usize, lang: Lang) -> (r: ChatRequest)
        ensures
            r.model@ == self.model@,
            r.system@ == system_prompt_text(*ctx, count as nat, lang),
            r.user@ == "Task: "@ + trim(task@),
            r.json_object == self.json_mode,
            r.disable_thinking == self.disable_thinking,
    {
        ChatRequest {
            model: self.model.clone(),
            system: system_prompt(ctx, count, lang),
            user: user_prompt(task),
            json_object: self.json_mode,
            disable_thinking: self.disable_thinking,
        }
    }
}

/// A request to the Chat Completions API: the model, the two messages, and
/// whether to send `response_format: {"type": "json_object"}` and
/// `thinking: {"type": "disabled"}`.
pub struct ChatRequest {
    pub model: String,
    pub system: String,
    pub user: String,
    pub json_object: bool,
    pub disable_thinking: bool,
}

pub const EMPTY_RESPONSE: &'static str = "the model returned an empty response";

/// The text of the first choice in the reply; a reply without choices is an
/// error, not a panic.
pub fn reply_content(contents: Vec<String>) -> (r: Result<String, String>)
    ensures
        contents@.len() > 0 ==> (r matches Ok(c) && c@ == contents@[0]@),
        contents@.len() == 0 ==> (r matches Err(e) && e@ == EMPTY_RESPONSE@),
{
    let mut contents = contents;
    if contents.len() == 0 {
        return Err(String::from_str(EMPTY_RESPONSE));
    }
    Ok(contents.swap_remove(0))
}

/// How a request failed on its way to the server.
#[derive(Debug, Clone, Copy, PartialEq, Eq, Structural)]
pub enum TransportFailure {
    Timeout,
    Connect,
    Other,
}

/// The message for a request that failed on its way, as a hint about what to
/// fix.
pub open spec fn transport_text(endpoint: Seq<char>, failure: TransportFailure, detail: Seq<char>) -> Seq<
    char,
> {
    match failure {
        TransportFailure::Timeout => "the request to "@ + endpoint
            + " timed out.\nRaise `timeout_secs` in the configuration or check your connection."@,
        TransportFailure::Connect => "could not connect to "@ + endpoint + ": "@ + detail
            + ".\nCheck base_url and your network (for Ollama, whether the server is running)."@,
        TransportFailure::Other => "request to "@ + endpoint + " failed: "@ + detail,
    }
}

/// Turn a transport error into a hint about what to fix.
pub fn describe_transport_error(endpoint: &str, failure: TransportFailure, detail: &str) -> (r: String)
    ensures
        r@ == transport_text(endpoint@, failure, detail@),
{
    match failure {
        TransportFailure::Timeout => {
            let mut m = String::from_str("the request to ");
            m.append(endpoint);
            m.append(" timed out.\nRaise `timeout_secs` in the configuration or check your connection.");
            m
        },
        TransportFailure::Connect => {
            let mut m = String::from_str("could not connect to ");
            m.append(endpoint);
            m.append(": ");
            m.append(detail);
            m.append(".\nCheck base_url and your network (for Ollama, whether the server is running).");
            m
        },
        TransportFailure::Other => {
            let mut m = String::from_str("request to ");
            m.append(endpoint);
            m.append(" failed: ");
            m.append(detail);
            m
        },
    }
}

/// What to suggest for an HTTP error status; empty where there is nothing to
/// add.
pub open spec fn hint_for_status(code: u16) -> &'static str {
    if code == 401 || code == 403 {
        "The key is invalid or expired. Check PLZ_API_KEY or run `plz config init`."
    } else if code == 404 {
        "Check base_url and the model name — the provider may not have that model."
    } else if code == 429 {
        "Rate limit exceeded. Wait, or check your account balance."
    } else if code == 400 {
        "Request rejected. If the endpoint does not support json_object, set `json_mode = false` in the configuration."
    } else if 500 <= code && code <= 599 {
        "The provider had a server-side error. Try again later."
    } else {
        ""
    }
}

/// The hint for an HTTP error status.
pub fn status_hint(code: u16) -> (r: &'static str)
    ensures
        r == hint_for_status(code),
{
    if code == 401 || code == 403 {
        "The key is invalid or expired. Check PLZ_API_KEY or run `plz config init`."
    } else if code == 404 {
        "Check base_url and the model name — the provider may not have that model."
    } else if code == 429 {
        "Rate limit exceeded. Wait, or check your account balance."
    } else if code == 400 {
        "Request rejected. If the endpoint does not support json_object, set `json_mode = false` in the configuration."
    } else if 500 <= code && code <= 599 {
        "The provider had a server-side error. Try again later."
    } else {
        ""
    }
}

/// The message for an HTTP error from the API: the status as it prints, the
/// detail, and the hint for the status on a line of its own when there is one.
pub open spec fn api_error_text(status: Seq<char>, code: u16, detail: Seq<char>) -> Seq<char> {
    let head = "the API returned "@ + status + ": "@ + detail;
    if hint_for_status(code)@.len() == 0 {
        head
    } else {
        head + "\n"@ + hint_for_status(code)@
    }
}

/// The message for an HTTP error from the API once the body has been read:
/// `status` is the status as it prints (`401 Unauthorized`), `code` its
/// number, and `message` the message the body carried, if it carried one;
/// without it the body itself is shown, shortened.
pub fn api_error_message(status: &str, code: u16, message: Option<String>, body: &str) -> (r: String)
    ensures
        r@ == api_error_text(
            status@,
            code,
            match message {
                Some(m) => m@,
                None => snippet_text(body@),
            },
        ),
{
    let detail = match message {
        Some(m) => m,
        None => snippet(body),
    };
    let hint = status_hint(code);
    let mut r = String::from_str("the API returned ");
    r.append(status);
    r.append(": ");
    r.append(detail.as_str());
    if hint.unicode_len() > 0 {
        r.append("\n");
        r.append(hint);
    }
    r
}

/// Turn an HTTP error from the API into a human-readable message: the
/// message the body carries when it is JSON that has one, else the start of
/// the body, and the hint for the status.
pub fn describe_api_error(status: &str, code: u16, body: &str) -> (r: String)
    ensures
        r@ == api_error_text(
            status@,
            code,
            match api_message_of(json_reading(body@)) {
                Some(m) => m,
                None => snippet_text(body@),
            },
        ),
{
    api_error_message(status, code, extract_api_message(body), body)
}

/// What an error body says went wrong: the `message` of its `error` member,
/// or that member itself when it is a string.
pub open spec fn api_message_of(reading: Option<Json>) -> Option<Seq<char>> {
    match reading {
        Some(Json::Object(members)) => match member(members@, "error"@) {
            Some(Json::Object(inner)) => match member(inner@, "message"@) {
                Some(Json::Text(m)) => Some(m@),
                _ => None,
            },
            Some(Json::Text(s)) => Some(s@),
            _ => None,
        },
        _ => None,
    }
}

/// The message an error body carries, given what the body reads as in JSON.
pub fn api_message(reading: &Option<Json>) -> (r: Option<String>)
    ensures
        match r {
            Some(m) => api_message_of(*reading) == Some(m@),
            None => api_message_of(*reading) is None,
        },
{
    let members = match reading {
        Some(Json::Object(members)) => members,
        _ => return None,
    };
    match get_member(members, "error") {
        Some(Json::Object(inner)) => match get_member(inner, "message") {
            Some(Json::Text(m)) => Some(m.clone()),
            _ => None,
        },
        Some(Json::Text(s)) => Some(s.clone()),
        _ => None,
    }
}

/// Pull `error.message` out of an error body when it is there.
pub fn extract_api_message(body: &str) -> (r: Option<String>)
    ensures
        match r {
            Some(m) => api_message_of(json_reading(body@)) == Some(m@),
            None => api_message_of(json_reading(body@)) is None,
        },
{
    api_message(&read_json(body))
}

/// The start of a body for an error message: trimmed, cut to 300 characters
/// with an ellipsis when longer, and a note when there is nothing.
pub open spec fn snippet_text(body: Seq<char>) -> Seq<char> {
    let t = trim(body);
    if t.len() == 0 {
        "(empty response)"@
    } else if t.len() <= 300 {
        t
    } else {
        t.take(300) + "…"@
    }
}

/// The start of a response body, for an error message.
pub fn snippet(body: &str) -> (r: String)
    ensures
        r@ == snippet_text(body@),
{
    let t = trim_ws(&chars_of(body));
    if t.len() == 0 {
        return String::from_str("(empty response)");
    }
    if t.len() <= 300 {
        return string_of(&t);
    }
    let cut = sub_vec(&t, 0, 300);
    let mut r = string_of(&cut);
    r.append("…");
    r
}

} // verus!
