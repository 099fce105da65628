use claude_preset_tray::model::{env_get, env_set};

fn env(pairs: &[(&str, &str)]) -> Vec<(String, String)> {
    pairs.iter().map(|(k, v)| (k.to_string(), v.to_string())).collect()
}

#[test]
fn lookup_takes_first_occurrence() {
    let e = env(&[("K", "first"), ("K", "second"), ("L", "ell")]);
    assert_eq!(env_get(&e, "K").map(|s| s.as_str()), Some("first"));
    assert_eq!(env_get(&e, "L").map(|s| s.as_str()), Some("ell"));
    assert_eq!(env_get(&e, "M"), None);
}

#[test]
fn set_overwrites_first_occurrence() {
    let mut e = env(&[("K", "first"), ("K", "second")]);
    env_set(&mut e, "K", "new".to_string());
    assert_eq!(env_get(&e, "K").map(|s| s.as_str()), Some("new"));
    assert_eq!(e.len(), 2);
    assert_eq!(e[1].1, "second");
}

#[test]
fn set_appends_absent_key() {
    let mut e = env(&[("A", "a")]);
    env_set(&mut e, "B", "b".to_string());
    assert_eq!(e.len(), 2);
    assert_eq!(env_get(&e, "A").map(|s| s.as_str()), Some("a"));
    assert_eq!(env_get(&e, "B").map(|s| s.as_str()), Some("b"));
}
