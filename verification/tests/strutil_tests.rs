use claude_preset_tray::strutil::{is_blank, str_contains, str_eq, str_starts_with};

#[test]
fn blankness_matches_trimming() {
    assert!(is_blank(""));
    assert!(is_blank("   "));
    assert!(is_blank("\t\r\n"));
    assert!(is_blank("\u{00A0}\u{2003}\u{3000}"));
    assert!(!is_blank(" a "));
    assert!(!is_blank("token"));
}

#[test]
fn substring_search() {
    assert!(str_contains("https://api.anthropic.com/v1", "api.anthropic.com"));
    assert!(str_contains("abc", ""));
    assert!(str_contains("abc", "abc"));
    assert!(!str_contains("ab", "abc"));
    assert!(!str_contains("https://proxy.example", "api.anthropic.com"));
    assert!(str_contains("ünïcodé hay", "codé"));
}

#[test]
fn prefix_test() {
    assert!(str_starts_with("preset_Work", "preset_"));
    assert!(str_starts_with("anything", ""));
    assert!(!str_starts_with("preset", "preset_"));
    assert!(!str_starts_with("xpreset_", "preset_"));
}

#[test]
fn character_equality() {
    assert!(str_eq("", ""));
    assert!(str_eq("same", "same"));
    assert!(!str_eq("same", "Same"));
    assert!(!str_eq("same", "same "));
}
