use kybe_paste::config::types::{Config, PastebinComConfig};
use kybe_paste::config::{plan_load, temp_path, LoadPlan};
use kybe_paste::pastebins::registration::{key_problem, KeyProblem};
use kybe_paste::pastebins::{PasteBin, PasteBins};

fn cfg(enable: bool, key: Option<&str>) -> Config {
    Config { pastebin_com: PastebinComConfig { enable, key: key.map(|k| k.to_string()) } }
}

#[test]
fn default_config_is_disabled_with_empty_key() {
    let c = Config::default();
    assert!(!c.pastebin_com.enable);
    assert_eq!(c.pastebin_com.key, Some(String::new()));
    assert_eq!(PastebinComConfig::default(), c.pastebin_com);
}

#[test]
fn missing_file_is_created_with_defaults() {
    match plan_load(false, false) {
        LoadPlan::CreateDefault(c) => assert_eq!(c, Config::default()),
        _ => panic!("expected the default configuration"),
    }
}

#[test]
fn existing_file_is_read() {
    assert!(matches!(plan_load(true, true), LoadPlan::ReadFile));
}

#[test]
fn existing_non_file_fails() {
    assert!(matches!(plan_load(true, false), LoadPlan::NotAFile));
}

#[test]
fn temp_path_appends_suffix() {
    assert_eq!(temp_path("/home/u/.config/x/config.toml"), "/home/u/.config/x/config.toml.tmp");
}

#[test]
fn enabled_without_key_warns_once() {
    let mut reg = PasteBins::new();
    let w = reg.register_from_config(&cfg(true, None));
    assert_eq!(w.len(), 1);
    assert_eq!(w[0].display_name, "Pastebin");
    assert_eq!(w[0].domain, "pastebin.com");
    assert_eq!(w[0].problem, KeyProblem::NotSet);
    assert_eq!(w[0].message(), "failed to register (Pastebin / pastebin.com) because key is not set");
    assert!(reg.get("pastebin").is_none());
}

#[test]
fn enabled_with_empty_key_warns_once() {
    let mut reg = PasteBins::new();
    let w = reg.register_from_config(&cfg(true, Some("")));
    assert_eq!(w.len(), 1);
    assert_eq!(w[0].problem, KeyProblem::Empty);
    assert_eq!(w[0].message(), "failed to register (Pastebin / pastebin.com) because key is empty");
    assert!(reg.get("pastebin").is_none());
}

#[test]
fn enabled_with_blank_key_warns_once() {
    let mut reg = PasteBins::new();
    let w = reg.register_from_config(&cfg(true, Some(" \t\n ")));
    assert_eq!(w.len(), 1);
    assert_eq!(w[0].problem, KeyProblem::Empty);
    assert!(reg.get("pastebin").is_none());
}

#[test]
fn disabled_is_silent_whatever_the_key() {
    for key in [None, Some(""), Some("abc")] {
        let mut reg = PasteBins::new();
        let w = reg.register_from_config(&cfg(false, key));
        assert!(w.is_empty());
        assert!(reg.get("pastebin").is_none());
        assert!(reg.all().is_empty());
    }
}

#[test]
fn enabled_with_key_registers() {
    let mut reg = PasteBins::new();
    let w = reg.register_from_config(&cfg(true, Some(" abc ")));
    assert!(w.is_empty());
    let s = reg.get("pastebin").expect("registered");
    assert_eq!(s.upload_request("x").form[0].1, " abc ");
}

#[test]
fn key_problem_from_trimmed_key() {
    assert_eq!(key_problem(&None, ""), Some(KeyProblem::NotSet));
    assert_eq!(key_problem(&Some("  ".to_string()), ""), Some(KeyProblem::Empty));
    assert_eq!(key_problem(&Some(" k ".to_string()), "k"), None);
}
