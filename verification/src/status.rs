//! The status engine: deriving the configuration-health summary from the
//! active configuration, including the distinct wording for a missing file.

use vstd::prelude::*;

use crate::model::{env_has_key, env_map, ClaudeConfig, ConfigStatus};
use crate::strutil::blank;

verus! {

/// The tracked authentication-token key.
pub open spec fn token_key() -> Seq<char> {
    "ANTHROPIC_AUTH_TOKEN"@
}

/// The tracked base-URL key.
pub open spec fn base_url_key() -> Seq<char> {
    "ANTHROPIC_BASE_URL"@
}

/// The tracked maximum-output-tokens key.
pub open spec fn max_tokens_key() -> Seq<char> {
    "CLAUDE_CODE_MAX_OUTPUT_TOKENS"@
}

/// The tracked nonessential-traffic switch key.
pub open spec fn traffic_key() -> Seq<char> {
    "CLAUDE_CODE_DISABLE_NONESSENTIAL_TRAFFIC"@
}

/// The token is usable: present and not blank after trimming.
pub open spec fn spec_has_token(c: ClaudeConfig) -> bool {
    env_has_key(c.env@, token_key()) && !blank(env_map(c.env@)[token_key()])
}

/// The base URL is usable: present and not blank after trimming.
pub open spec fn spec_has_base_url(c: ClaudeConfig) -> bool {
    env_has_key(c.env@, base_url_key()) && !blank(env_map(c.env@)[base_url_key()])
}

/// The message chosen by the four-way branch over the two field flags.
pub open spec fn spec_status_message(has_token: bool, has_base_url: bool) -> Seq<char> {
    if has_token && has_base_url {
        "Configuration is complete and ready! 😊"@
    } else if has_token {
        "Missing API base URL 😐"@
    } else if has_base_url {
        "Missing authentication token 😐"@
    } else {
        "No configuration found. Please set up your API credentials 😢"@
    }
}

/// The wording used when the configuration file itself cannot be read.
pub open spec fn spec_missing_file_message() -> Seq<char> {
    "Configuration file not found 😢"@
}

fn has_usable(config: &ClaudeConfig, key: &str) -> (r: bool)
    ensures
        r == (env_has_key(config.env@, key@) && !blank(env_map(config.env@)[key@])),
{
    match crate::model::env_get(&config.env, key) {
        Some(v) => !crate::strutil::is_blank(v.as_str()),
        None => false,
    }
}

/// Derives the health summary of a successfully loaded configuration: each
/// flag says whether its tracked key is present with a non-blank value,
/// `is_configured` is their conjunction, and the message follows the four-way
/// branch over the flags.
pub fn derive_status(config: &ClaudeConfig) -> (r: ConfigStatus)
    ensures
        r.has_token == spec_has_token(*config),
        r.has_base_url == spec_has_base_url(*config),
        r.is_configured == (r.has_token && r.has_base_url),
        r.wf(),
        r.status_message@ == spec_status_message(r.has_token, r.has_base_url),
{
    let has_token = has_usable(config, "ANTHROPIC_AUTH_TOKEN");
    let has_base_url = has_usable(config, "ANTHROPIC_BASE_URL");
    let is_configured = has_token && has_base_url;

    let status_message = if is_configured {
        String::from_str("Configuration is complete and ready! 😊")
    } else if has_token {
        String::from_str("Missing API base URL 😐")
    } else if has_base_url {
        String::from_str("Missing authentication token 😐")
    } else {
        String::from_str("No configuration found. Please set up your API credentials 😢")
    };

    ConfigStatus { is_configured, has_token, has_base_url, status_message }
}

/// The summary reported when the configuration file is absent or unreadable:
/// all flags false, with the distinct missing-file wording.
pub fn missing_config_status() -> (r: ConfigStatus)
    ensures
        !r.is_configured,
        !r.has_token,
        !r.has_base_url,
        r.wf(),
        r.status_message@ == spec_missing_file_message(),
{
    ConfigStatus {
        is_configured: false,
        has_token: false,
        has_base_url: false,
        status_message: String::from_str("Configuration file not found 😢"),
    }
}

/// Answers the status query from the result of loading the configuration:
/// a loaded document is summarized by `derive_status`; a failed load is
/// normalized to the all-false summary with the missing-file wording.
pub fn check_config_status(loaded: Option<&ClaudeConfig>) -> (r: ConfigStatus)
    ensures
        r.wf(),
        match loaded {
            Some(config) => {
                &&& r.has_token == spec_has_token(*config)
                &&& r.has_base_url == spec_has_base_url(*config)
                &&& r.status_message@ == spec_status_message(r.has_token, r.has_base_url)
            },
            None => {
                &&& !r.has_token
                &&& !r.has_base_url
                &&& r.status_message@ == spec_missing_file_message()
            },
        },
{
    match loaded {
        Some(config) => derive_status(config),
        None => missing_config_status(),
    }
}

} // verus!
