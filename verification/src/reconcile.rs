//! The preset reconciler: projecting the active configuration into a
//! synthetic preset, matching it against the stored presets, and naming the
//! active state for display.

use vstd::prelude::*;

use crate::model::{env_has_key, env_map, ClaudeConfig, ConfigPreset, PresetModel};
use crate::status::{base_url_key, max_tokens_key, token_key, traffic_key};
use crate::strutil::contains_seq;

verus! {

/// The vendor's public API endpoint, the default base URL.
pub open spec fn default_base_url() -> Seq<char> {
    "https://api.anthropic.com"@
}

/// The host substring that marks a base URL as the vendor's public API.
pub open spec fn official_host() -> Seq<char> {
    "api.anthropic.com"@
}

/// The value bound to `k`, or `dflt` when the key is absent.
pub open spec fn env_value_or(
    m: Map<Seq<char>, Seq<char>>,
    k: Seq<char>,
    dflt: Seq<char>,
) -> Seq<char> {
    if m.dom().contains(k) {
        m[k]
    } else {
        dflt
    }
}

/// The projection of an environment map into the synthetic current preset:
/// the four tracked values, with the documented defaults where a key is
/// absent, under the fixed label.
pub open spec fn spec_current_preset(m: Map<Seq<char>, Seq<char>>) -> PresetModel {
    PresetModel {
        name: "Current Config"@,
        auth_token: env_value_or(m, token_key(), ""@),
        base_url: env_value_or(m, base_url_key(), default_base_url()),
        max_output_tokens: env_value_or(m, max_tokens_key(), "32000"@),
        disable_nonessential_traffic: env_value_or(m, traffic_key(), "0"@),
    }
}

fn env_get_or(config: &ClaudeConfig, key: &str, dflt: &str) -> (r: String)
    ensures
        r@ == env_value_or(env_map(config.env@), key@, dflt@),
{
    proof {
        assert(env_map(config.env@).dom().contains(key@) == env_has_key(config.env@, key@));
    }
    match crate::model::env_get(&config.env, key) {
        Some(v) => v.clone(),
        None => String::from_str(dflt),
    }
}

/// Projects the four tracked keys of the configuration into an ephemeral
/// preset named "Current Config", substituting the fixed defaults for absent
/// keys. Never persisted.
pub fn get_current_config_as_preset(config: &ClaudeConfig) -> (r: ConfigPreset)
    ensures
        r@ == spec_current_preset(env_map(config.env@)),
{
    ConfigPreset {
        name: String::from_str("Current Config"),
        auth_token: env_get_or(config, "ANTHROPIC_AUTH_TOKEN", ""),
        base_url: env_get_or(config, "ANTHROPIC_BASE_URL", "https://api.anthropic.com"),
        max_output_tokens: env_get_or(config, "CLAUDE_CODE_MAX_OUTPUT_TOKENS", "32000"),
        disable_nonessential_traffic: env_get_or(
            config,
            "CLAUDE_CODE_DISABLE_NONESSENTIAL_TRAFFIC",
            "0",
        ),
    }
}

/// Two presets carry the same identity: their 4-tuples of tracked values are
/// equal. Names play no part.
pub open spec fn tuple_eq(a: PresetModel, b: PresetModel) -> bool {
    &&& a.auth_token == b.auth_token
    &&& a.base_url == b.base_url
    &&& a.max_output_tokens == b.max_output_tokens
    &&& a.disable_nonessential_traffic == b.disable_nonessential_traffic
}

/// Some stored preset has the query's 4-tuple.
pub open spec fn has_tuple_match(presets: Seq<ConfigPreset>, cur: PresetModel) -> bool {
    exists|i: int| 0 <= i < presets.len() && tuple_eq(presets[i]@, cur)
}

/// Index `i` holds the first preset with the query's 4-tuple.
pub open spec fn is_first_tuple_match(
    presets: Seq<ConfigPreset>,
    cur: PresetModel,
    i: int,
) -> bool {
    &&& 0 <= i < presets.len()
    &&& tuple_eq(presets[i]@, cur)
    &&& forall|j: int| 0 <= j < i ==> !tuple_eq(presets[j]@, cur)
}

/// The index of the first preset with the query's 4-tuple.
pub open spec fn first_tuple_match(presets: Seq<ConfigPreset>, cur: PresetModel) -> int {
    choose|i: int| is_first_tuple_match(presets, cur, i)
}

/// Whenever some preset matches, a first one does, and it is unique.
pub proof fn lemma_first_tuple_match(presets: Seq<ConfigPreset>, cur: PresetModel)
    requires
        has_tuple_match(presets, cur),
    ensures
        is_first_tuple_match(presets, cur, first_tuple_match(presets, cur)),
{
    let j = choose|j: int| 0 <= j < presets.len() && tuple_eq(presets[j]@, cur);
    lemma_first_tuple_match_from_witness(presets, cur, j);
}

proof fn lemma_first_tuple_match_from_witness(
    presets: Seq<ConfigPreset>,
    cur: PresetModel,
    j: int,
)
    requires
        0 <= j < presets.len(),
        tuple_eq(presets[j]@, cur),
    ensures
        exists|i: int| is_first_tuple_match(presets, cur, i),
        is_first_tuple_match(presets, cur, first_tuple_match(presets, cur)),
    decreases j,
{
    if forall|m: int| 0 <= m < j ==> !tuple_eq(presets[m]@, cur) {
        assert(is_first_tuple_match(presets, cur, j));
    } else {
        let m = choose|m: int| 0 <= m < j && tuple_eq(presets[m]@, cur);
        lemma_first_tuple_match_from_witness(presets, cur, m);
    }
}

/// The first match wins: when the preset at `i` matches the query, the first
/// matching index is at most `i`, so of two presets with identical 4-tuples
/// the earlier one names the match, whatever their names.
pub proof fn lemma_match_first_wins(presets: Seq<ConfigPreset>, cur: PresetModel, i: int)
    requires
        0 <= i < presets.len(),
        tuple_eq(presets[i]@, cur),
    ensures
        has_tuple_match(presets, cur),
        first_tuple_match(presets, cur) <= i,
        tuple_eq(presets[first_tuple_match(presets, cur)]@, cur),
{
    lemma_first_tuple_match_from_witness(presets, cur, i);
    let f = first_tuple_match(presets, cur);
    if i < f {
        assert(!tuple_eq(presets[i]@, cur));
    }
}

/// Whether two presets carry the same 4-tuple of tracked values.
pub fn preset_matches(a: &ConfigPreset, b: &ConfigPreset) -> (r: bool)
    ensures
        r == tuple_eq(a@, b@),
{
    a.auth_token == b.auth_token && a.base_url == b.base_url && a.max_output_tokens
        == b.max_output_tokens && a.disable_nonessential_traffic == b.disable_nonessential_traffic
}

/// Returns the name of the first stored preset whose 4-tuple equals the
/// query's, or nothing when none matches.
pub fn match_preset(current: &ConfigPreset, presets: &Vec<ConfigPreset>) -> (r: Option<String>)
    ensures
        match r {
            Some(name) => has_tuple_match(presets@, current@) && name@ == presets@[first_tuple_match(
                presets@,
                current@,
            )].name@,
            None => !has_tuple_match(presets@, current@),
        },
{
    let n = presets.len();
    let mut i: usize = 0;
    while i < n
        invariant
            i <= n,
            n == presets@.len(),
            forall|j: int| 0 <= j < i ==> !tuple_eq(presets@[j]@, current@),
        decreases n - i,
    {
        if preset_matches(&presets[i], current) {
            proof {
                assert(is_first_tuple_match(presets@, current@, i as int));
                lemma_match_first_wins(presets@, current@, i as int);
                if first_tuple_match(presets@, current@) < i as int {
                    assert(!tuple_eq(presets@[first_tuple_match(presets@, current@)]@, current@));
                }
            }
            return Some(presets[i].name.clone());
        }
        i += 1;
    }
    None
}

/// The label naming the current state: the first matching preset's name, or
/// the heuristic fallback over the base URL when no preset matches.
pub open spec fn spec_display_label(presets: Seq<ConfigPreset>, cur: PresetModel) -> Seq<char> {
    if has_tuple_match(presets, cur) {
        presets[first_tuple_match(presets, cur)].name@
    } else if contains_seq(cur.base_url, official_host()) {
        "Official API"@
    } else {
        "Custom API"@
    }
}

/// Names the current state for display: the matched preset's name, else
/// "Official API" when the base URL contains the vendor's public host, else
/// "Custom API". Display only; never persisted.
pub fn current_display_label(current: &ConfigPreset, presets: &Vec<ConfigPreset>) -> (r: String)
    ensures
        r@ == spec_display_label(presets@, current@),
{
    match match_preset(current, presets) {
        Some(name) => name,
        None => {
            if crate::strutil::str_contains(current.base_url.as_str(), "api.anthropic.com") {
                String::from_str("Official API")
            } else {
                String::from_str("Custom API")
            }
        },
    }
}

} // verus!
