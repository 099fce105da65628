use claude_preset_tray::apply::apply_preset;
use claude_preset_tray::model::{env_get, ClaudeConfig, ConfigPreset};
use claude_preset_tray::reconcile::{
    current_display_label, get_current_config_as_preset, match_preset, preset_matches,
};

fn cfg(pairs: &[(&str, &str)]) -> ClaudeConfig {
    ClaudeConfig {
        env: pairs.iter().map(|(k, v)| (k.to_string(), v.to_string())).collect(),
        permissions: Vec::new(),
        feedback_survey_state: None,
    }
}

fn preset(name: &str, token: &str, url: &str, max: &str, dis: &str) -> ConfigPreset {
    ConfigPreset {
        name: name.to_string(),
        auth_token: token.to_string(),
        base_url: url.to_string(),
        max_output_tokens: max.to_string(),
        disable_nonessential_traffic: dis.to_string(),
    }
}

#[test]
fn projection_uses_documented_defaults() {
    let current = get_current_config_as_preset(&cfg(&[]));
    assert_eq!(current.name, "Current Config");
    assert_eq!(current.auth_token, "");
    assert_eq!(current.base_url, "https://api.anthropic.com");
    assert_eq!(current.max_output_tokens, "32000");
    assert_eq!(current.disable_nonessential_traffic, "0");
}

#[test]
fn projection_reads_tracked_keys() {
    let config = cfg(&[
        ("ANTHROPIC_AUTH_TOKEN", "sk-a"),
        ("ANTHROPIC_BASE_URL", "https://proxy.example"),
        ("CLAUDE_CODE_MAX_OUTPUT_TOKENS", "8000"),
        ("CLAUDE_CODE_DISABLE_NONESSENTIAL_TRAFFIC", "1"),
        ("UNRELATED", "kept"),
    ]);
    let current = get_current_config_as_preset(&config);
    assert_eq!(current.auth_token, "sk-a");
    assert_eq!(current.base_url, "https://proxy.example");
    assert_eq!(current.max_output_tokens, "8000");
    assert_eq!(current.disable_nonessential_traffic, "1");
}

#[test]
fn apply_then_project_round_trips() {
    let mut config = cfg(&[("ANTHROPIC_AUTH_TOKEN", "old"), ("OTHER_KEY", "other")]);
    let chosen = preset("Work", "sk-new", "https://work.example", "16000", "1");
    apply_preset(&chosen, &mut config);

    let current = get_current_config_as_preset(&config);
    assert_eq!(current.auth_token, "sk-new");
    assert_eq!(current.base_url, "https://work.example");
    assert_eq!(current.max_output_tokens, "16000");
    assert_eq!(current.disable_nonessential_traffic, "1");

    assert_eq!(env_get(&config.env, "OTHER_KEY").map(|s| s.as_str()), Some("other"));
    assert_eq!(env_get(&config.env, "ANTHROPIC_AUTH_TOKEN").map(|s| s.as_str()), Some("sk-new"));
}

#[test]
fn apply_accepts_arbitrary_strings_verbatim() {
    let mut config = cfg(&[]);
    let odd = preset("Odd", "  spaces  ", "not a url", "not numeric", "maybe");
    apply_preset(&odd, &mut config);
    let current = get_current_config_as_preset(&config);
    assert_eq!(current.auth_token, "  spaces  ");
    assert_eq!(current.base_url, "not a url");
    assert_eq!(current.max_output_tokens, "not numeric");
    assert_eq!(current.disable_nonessential_traffic, "maybe");
}

#[test]
fn match_preset_returns_first_of_identical_tuples() {
    let query = preset("Current Config", "sk-a", "https://u.example", "32000", "0");
    let presets = vec![
        preset("Later", "sk-b", "https://u.example", "32000", "0"),
        preset("Earlier Twin", "sk-a", "https://u.example", "32000", "0"),
        preset("Later Twin", "sk-a", "https://u.example", "32000", "0"),
    ];
    assert_eq!(match_preset(&query, &presets), Some("Earlier Twin".to_string()));
}

#[test]
fn match_preset_ignores_names() {
    let query = preset("whatever", "sk-a", "https://u.example", "32000", "0");
    let presets = vec![preset("Named Differently", "sk-a", "https://u.example", "32000", "0")];
    assert!(preset_matches(&presets[0], &query));
    assert_eq!(match_preset(&query, &presets), Some("Named Differently".to_string()));
}

#[test]
fn match_preset_none_when_no_tuple_matches() {
    let query = preset("q", "sk-a", "https://u.example", "32000", "0");
    let presets = vec![preset("Other", "sk-b", "https://u.example", "32000", "0")];
    assert_eq!(match_preset(&query, &presets), None);
}

#[test]
fn fallback_label_official_or_custom() {
    let no_presets: Vec<ConfigPreset> = Vec::new();
    let official = preset("x", "sk", "https://api.anthropic.com/v1", "32000", "0");
    assert_eq!(current_display_label(&official, &no_presets), "Official API");

    let custom = preset("x", "sk", "https://proxy.example", "32000", "0");
    assert_eq!(current_display_label(&custom, &no_presets), "Custom API");
}

#[test]
fn matched_name_beats_fallback_label() {
    let current = preset("Current Config", "sk-a", "https://api.anthropic.com", "32000", "0");
    let presets = vec![preset("Main", "sk-a", "https://api.anthropic.com", "32000", "0")];
    assert_eq!(current_display_label(&current, &presets), "Main");
}
