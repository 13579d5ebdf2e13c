use openwork_workspace::config::{
    apply_preset, choose_config_file, chrome_mcp_value, required_plugins, should_seed_chrome_mcp,
    updated_config_text, ConfigFile,
};
use serde_json::Value;

fn json(text: &str) -> Value {
    serde_json::from_str(text).unwrap()
}

const STARTER_NEW: &str = r#"{
  "$schema": "https://opencode.ai/config.json",
  "plugin": ["opencode-scheduler"],
  "mcp": {
    "chrome-devtools": {"type": "local", "command": ["npx", "-y", "chrome-devtools-mcp@latest"]}
  }
}"#;

#[test]
fn config_file_choice() {
    assert_eq!(choose_config_file(true, true), ConfigFile::Jsonc);
    assert_eq!(choose_config_file(true, false), ConfigFile::Jsonc);
    assert_eq!(choose_config_file(false, true), ConfigFile::Json);
    assert_eq!(choose_config_file(false, false), ConfigFile::Jsonc);
}

#[test]
fn presets_require_scheduler() {
    assert_eq!(required_plugins("starter"), vec!["opencode-scheduler"]);
    assert_eq!(required_plugins("automation"), vec!["opencode-scheduler"]);
    assert!(required_plugins("minimal").is_empty());
    assert!(required_plugins("").is_empty());
    assert!(required_plugins("Starter").is_empty());
}

#[test]
fn only_starter_seeds_chrome() {
    assert!(should_seed_chrome_mcp("starter"));
    assert!(!should_seed_chrome_mcp("automation"));
    assert!(!should_seed_chrome_mcp("starter "));
}

#[test]
fn chrome_server_value() {
    assert_eq!(
        chrome_mcp_value(),
        json(r#"{"type": "local", "command": ["npx", "-y", "chrome-devtools-mcp@latest"]}"#)
    );
}

#[test]
fn new_starter_config() {
    let (v, changed) = apply_preset(None, "starter");
    assert!(changed);
    assert_eq!(v, json(STARTER_NEW));
}

#[test]
fn new_plain_config_is_written_with_schema() {
    let (v, changed) = apply_preset(None, "minimal");
    assert!(changed);
    assert_eq!(v, json(r#"{"$schema": "https://opencode.ai/config.json"}"#));
}

#[test]
fn unreadable_config_with_plain_preset_is_left_alone() {
    let (v, changed) = apply_preset(Some(None), "minimal");
    assert!(!changed);
    assert_eq!(v, json("{}"));
}

#[test]
fn unreadable_config_with_automation_gets_plugin() {
    let (v, changed) = apply_preset(Some(None), "automation");
    assert!(changed);
    assert_eq!(v, json(r#"{"plugin": ["opencode-scheduler"]}"#));
}

#[test]
fn non_object_config_is_replaced() {
    let (v, changed) = apply_preset(Some(Some(json("[1, 2]"))), "minimal");
    assert!(changed);
    assert_eq!(v, json(r#"{"$schema": "https://opencode.ai/config.json"}"#));
}

#[test]
fn plugin_string_becomes_list() {
    let (v, changed) = apply_preset(Some(Some(json(r#"{"plugin": "mine"}"#))), "automation");
    assert!(changed);
    assert_eq!(v, json(r#"{"plugin": ["mine", "opencode-scheduler"]}"#));
}

#[test]
fn plugin_list_drops_non_strings_and_keeps_other_fields() {
    let input = json(r#"{"theme": "dark", "plugin": [1, "a", null, "opencode-scheduler"], "model": {"x": 1}}"#);
    let (v, changed) = apply_preset(Some(Some(input)), "automation");
    assert!(!changed);
    assert_eq!(
        v,
        json(r#"{"theme": "dark", "plugin": ["a", "opencode-scheduler"], "model": {"x": 1}}"#)
    );
}

#[test]
fn existing_chrome_server_is_kept() {
    let input = json(
        r#"{"plugin": ["opencode-scheduler"], "mcp": {"chrome-devtools": {"type": "remote"}, "other": {}}}"#,
    );
    let (v, changed) = apply_preset(Some(Some(input.clone())), "starter");
    assert!(!changed);
    assert_eq!(v, input);
}

#[test]
fn non_object_mcp_is_replaced() {
    let input = json(r#"{"plugin": ["opencode-scheduler"], "mcp": "none"}"#);
    let (v, changed) = apply_preset(Some(Some(input)), "starter");
    assert!(changed);
    let mut expected = json(STARTER_NEW);
    expected.as_object_mut().unwrap().remove("$schema");
    assert_eq!(v, expected);
}

#[test]
fn preset_applied_twice_changes_nothing() {
    for preset in ["starter", "automation", "minimal"] {
        for start in [None, Some(None), Some(Some(json(r#"{"plugin": "x", "mcp": 3}"#)))] {
            let (first, _) = apply_preset(start, preset);
            let (second, changed) = apply_preset(Some(Some(first.clone())), preset);
            assert!(!changed);
            assert_eq!(first, second);
        }
    }
}

#[test]
fn text_for_missing_file() {
    let text = updated_config_text(None, "starter").unwrap().unwrap();
    assert_eq!(json(&text), json(STARTER_NEW));
    assert!(text.contains("\n  "));
}

#[test]
fn text_unchanged_file_is_not_rewritten() {
    let existing = r#"{
        // a JSON5 comment
        plugin: ['opencode-scheduler', 'other',],
        mcp: { 'chrome-devtools': { type: 'local' } },
    }"#;
    assert_eq!(updated_config_text(Some(existing.to_string()), "starter"), Ok(None));
}

#[test]
fn text_json5_file_is_updated() {
    let existing = "{ plugin: ['other'], theme: 'dark' }";
    let text = updated_config_text(Some(existing.to_string()), "automation").unwrap().unwrap();
    assert_eq!(json(&text), json(r#"{"plugin": ["other", "opencode-scheduler"], "theme": "dark"}"#));
}

#[test]
fn text_broken_file_with_plain_preset() {
    assert_eq!(updated_config_text(Some("{ not json".to_string()), "minimal"), Ok(None));
}

#[test]
fn text_broken_file_with_starter_preset_is_rewritten() {
    let text = updated_config_text(Some("{ not json".to_string()), "starter").unwrap().unwrap();
    let mut expected = json(STARTER_NEW);
    expected.as_object_mut().unwrap().remove("$schema");
    assert_eq!(json(&text), expected);
}

#[test]
fn text_of_non_object_file_is_replaced() {
    let text = updated_config_text(Some("\"just a string\"".to_string()), "minimal").unwrap().unwrap();
    assert_eq!(json(&text), json(r#"{"$schema": "https://opencode.ai/config.json"}"#));
}

#[test]
fn plain_preset_leaves_object_config_alone() {
    let input = json(r#"{"plugin": "mine", "mcp": 1, "theme": "dark"}"#);
    let (v, changed) = apply_preset(Some(Some(input.clone())), "minimal");
    assert!(!changed);
    assert_eq!(v, input);
    assert_eq!(updated_config_text(Some(input.to_string()), "minimal"), Ok(None));
}
