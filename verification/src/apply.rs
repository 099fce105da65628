//! The preset applier: merging a chosen preset's tracked fields into the
//! active configuration, and the round-trip law relating the applier to the
//! current-preset projection.

use vstd::prelude::*;

use crate::model::{env_map, ClaudeConfig, ConfigPreset};
use crate::reconcile::spec_current_preset;
use crate::status::{base_url_key, max_tokens_key, token_key, traffic_key};

verus! {

/// The environment map after a preset is applied: the four tracked keys bound
/// to the preset's fields, everything else untouched.
pub open spec fn spec_applied_env(
    p: PresetFieldsArg,
    m: Map<Seq<char>, Seq<char>>,
) -> Map<Seq<char>, Seq<char>> {
    m.insert(token_key(), p.auth_token).insert(base_url_key(), p.base_url).insert(
        max_tokens_key(),
        p.max_output_tokens,
    ).insert(traffic_key(), p.disable_nonessential_traffic)
}

/// The 4-tuple of tracked values a preset carries, as character sequences.
pub struct PresetFieldsArg {
    pub auth_token: Seq<char>,
    pub base_url: Seq<char>,
    pub max_output_tokens: Seq<char>,
    pub disable_nonessential_traffic: Seq<char>,
}

/// The tracked fields of a preset, dropping its display name.
pub open spec fn preset_fields(p: ConfigPreset) -> PresetFieldsArg {
    PresetFieldsArg {
        auth_token: p.auth_token@,
        base_url: p.base_url@,
        max_output_tokens: p.max_output_tokens@,
        disable_nonessential_traffic: p.disable_nonessential_traffic@,
    }
}

/// Overwrites the four tracked keys of the configuration's environment with
/// the preset's fields; all other environment keys, the permissions, and the
/// feedback-survey state pass through unchanged. No field content is
/// validated: any string is stored verbatim. The caller persists the result.
pub fn apply_preset(preset: &ConfigPreset, config: &mut ClaudeConfig)
    ensures
        env_map(final(config).env@) == spec_applied_env(
            preset_fields(*preset),
            env_map(old(config).env@),
        ),
        final(config).permissions == old(config).permissions,
        final(config).feedback_survey_state == old(config).feedback_survey_state,
{
    crate::model::env_set(&mut config.env, "ANTHROPIC_AUTH_TOKEN", preset.auth_token.clone());
    crate::model::env_set(&mut config.env, "ANTHROPIC_BASE_URL", preset.base_url.clone());
    crate::model::env_set(
        &mut config.env,
        "CLAUDE_CODE_MAX_OUTPUT_TOKENS",
        preset.max_output_tokens.clone(),
    );
    crate::model::env_set(
        &mut config.env,
        "CLAUDE_CODE_DISABLE_NONESSENTIAL_TRAFFIC",
        preset.disable_nonessential_traffic.clone(),
    );
}

/// The four tracked keys are pairwise distinct (their lengths already
/// differ).
pub proof fn lemma_tracked_keys_distinct()
    ensures
        token_key() != base_url_key(),
        token_key() != max_tokens_key(),
        token_key() != traffic_key(),
        base_url_key() != max_tokens_key(),
        base_url_key() != traffic_key(),
        max_tokens_key() != traffic_key(),
{
    reveal_strlit("ANTHROPIC_AUTH_TOKEN");
    reveal_strlit("ANTHROPIC_BASE_URL");
    reveal_strlit("CLAUDE_CODE_MAX_OUTPUT_TOKENS");
    reveal_strlit("CLAUDE_CODE_DISABLE_NONESSENTIAL_TRAFFIC");
    assert(token_key().len() == 20);
    assert(base_url_key().len() == 18);
    assert(max_tokens_key().len() == 29);
    assert(traffic_key().len() == 40);
}

/// Round trip: applying a preset and then projecting the result as the
/// current preset reproduces the preset's four tracked fields exactly, for
/// any preset field values and any starting environment.
pub proof fn lemma_apply_round_trip(p: PresetFieldsArg, m: Map<Seq<char>, Seq<char>>)
    ensures
        spec_current_preset(spec_applied_env(p, m)).auth_token == p.auth_token,
        spec_current_preset(spec_applied_env(p, m)).base_url == p.base_url,
        spec_current_preset(spec_applied_env(p, m)).max_output_tokens == p.max_output_tokens,
        spec_current_preset(spec_applied_env(p, m)).disable_nonessential_traffic
            == p.disable_nonessential_traffic,
{
    lemma_tracked_keys_distinct();
    let m2 = spec_applied_env(p, m);
    assert(m2.dom().contains(token_key()));
    assert(m2.dom().contains(base_url_key()));
    assert(m2.dom().contains(max_tokens_key()));
    assert(m2.dom().contains(traffic_key()));
}

} // verus!
