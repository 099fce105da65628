use claude_preset_tray::model::ClaudeConfig;
use claude_preset_tray::status::{check_config_status, derive_status, missing_config_status};

fn cfg(pairs: &[(&str, &str)]) -> ClaudeConfig {
    ClaudeConfig {
        env: pairs.iter().map(|(k, v)| (k.to_string(), v.to_string())).collect(),
        permissions: Vec::new(),
        feedback_survey_state: None,
    }
}

#[test]
fn configured_when_token_and_url_present() {
    let config = cfg(&[
        ("ANTHROPIC_AUTH_TOKEN", "sk-something"),
        ("ANTHROPIC_BASE_URL", "https://api.anthropic.com"),
    ]);
    let status = derive_status(&config);
    assert!(status.is_configured);
    assert!(status.has_token);
    assert!(status.has_base_url);
    assert_eq!(status.status_message, "Configuration is complete and ready! 😊");
}

#[test]
fn whitespace_token_counts_as_missing() {
    let config = cfg(&[("ANTHROPIC_AUTH_TOKEN", "  "), ("ANTHROPIC_BASE_URL", "https://x")]);
    let status = derive_status(&config);
    assert!(!status.has_token);
    assert!(status.has_base_url);
    assert!(!status.is_configured);
    assert_eq!(status.status_message, "Missing authentication token 😐");
}

#[test]
fn token_only_reports_missing_base_url() {
    let config = cfg(&[("ANTHROPIC_AUTH_TOKEN", "sk-something")]);
    let status = derive_status(&config);
    assert!(status.has_token);
    assert!(!status.has_base_url);
    assert!(!status.is_configured);
    assert_eq!(status.status_message, "Missing API base URL 😐");
}

#[test]
fn empty_env_reports_no_configuration() {
    let config = cfg(&[]);
    let status = derive_status(&config);
    assert!(!status.has_token);
    assert!(!status.has_base_url);
    assert!(!status.is_configured);
    assert_eq!(
        status.status_message,
        "No configuration found. Please set up your API credentials 😢"
    );
}

#[test]
fn blank_base_url_flips_configured_off() {
    let config = cfg(&[("ANTHROPIC_AUTH_TOKEN", "sk-x"), ("ANTHROPIC_BASE_URL", "\t\n ")]);
    let status = derive_status(&config);
    assert!(status.has_token);
    assert!(!status.has_base_url);
    assert!(!status.is_configured);
    assert_eq!(status.status_message, "Missing API base URL 😐");
}

#[test]
fn missing_file_has_distinct_wording() {
    let status = missing_config_status();
    assert!(!status.is_configured);
    assert!(!status.has_token);
    assert!(!status.has_base_url);
    assert_eq!(status.status_message, "Configuration file not found 😢");
}

#[test]
fn check_status_normalizes_load_failure() {
    let status = check_config_status(None);
    assert!(!status.is_configured);
    assert_eq!(status.status_message, "Configuration file not found 😢");

    let config = cfg(&[
        ("ANTHROPIC_AUTH_TOKEN", "sk-x"),
        ("ANTHROPIC_BASE_URL", "https://api.anthropic.com"),
    ]);
    let status = check_config_status(Some(&config));
    assert!(status.is_configured);
    assert_eq!(status.status_message, "Configuration is complete and ready! 😊");
}
