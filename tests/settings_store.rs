use anki_creator::document::{config_from_table, config_to_table, parse_config, render_config};
use anki_creator::load::{next_load_action, LoadAction, LoadEvent};
use anki_creator::location::{app_dir_under, config_file_under, get_config_path};
use anki_creator::settings::{Config, ConfigError};
use anki_creator::shortcut::{copy_modifier, CopyModifier};
use std::path::PathBuf;

fn key(s: &str) -> Config {
    Config { api_key: Some(s.to_string()) }
}

fn finished_key(action: LoadAction) -> Option<String> {
    match action {
        LoadAction::Finish(c) => c.api_key,
        other => panic!("expected Finish, got {:?}", other),
    }
}

fn is_parse_error(r: &Result<Config, ConfigError>) -> bool {
    matches!(r, Err(ConfigError::Parse(_)))
}

#[test]
fn default_has_no_api_key() {
    assert_eq!(Config::default().api_key, None);
}

#[test]
fn parses_stored_api_key() {
    let c = parse_config("api_key = \"sk-test-123\"").unwrap();
    assert_eq!(c.api_key, Some("sk-test-123".to_string()));
}

#[test]
fn empty_document_is_default() {
    assert_eq!(parse_config("").unwrap().api_key, None);
}

#[test]
fn unknown_keys_are_ignored() {
    let text = "api_key = \"k1\"\ntheme = \"dark\"\ncount = 3\n\n[window]\nwidth = 800\n";
    assert_eq!(parse_config(text).unwrap().api_key, Some("k1".to_string()));
    assert_eq!(parse_config("theme = \"dark\"\n").unwrap().api_key, None);
}

#[test]
fn malformed_text_is_parse_error() {
    assert!(is_parse_error(&parse_config("api_key = ")));
    assert!(is_parse_error(&parse_config("this is not toml")));
    assert!(is_parse_error(&parse_config("[unclosed")));
}

#[test]
fn non_string_api_key_is_parse_error() {
    assert!(is_parse_error(&parse_config("api_key = 42")));
    assert!(is_parse_error(&parse_config("api_key = [\"a\"]")));
}

#[test]
fn table_with_integer_key_is_parse_error() {
    let mut t = toml::Table::new();
    t.insert("api_key".to_string(), toml::Value::Integer(5));
    assert!(is_parse_error(&config_from_table(t)));
}

#[test]
fn table_of_record_holds_the_key() {
    let t = config_to_table(&key("abc"));
    assert_eq!(t.get("api_key"), Some(&toml::Value::String("abc".to_string())));
    assert_eq!(t.len(), 1);
    assert!(config_to_table(&Config::default()).is_empty());
}

#[test]
fn saving_absent_key_writes_no_entry() {
    let text = render_config(&Config { api_key: None }).unwrap();
    assert!(!text.contains("api_key"));
    assert_eq!(text, "");
    assert_eq!(parse_config(&text).unwrap().api_key, None);
}

#[test]
fn default_record_round_trips() {
    let text = render_config(&Config::default()).unwrap();
    assert_eq!(parse_config(&text).unwrap().api_key, None);
}

#[test]
fn saving_key_writes_entry() {
    let text = render_config(&key("sk-test-123")).unwrap();
    assert_eq!(text.trim(), "api_key = \"sk-test-123\"");
}

#[test]
fn written_text_reads_back() {
    for k in ["", "plain", "with \"quotes\"", "line\nbreak", "back\\slash", "tab\there", "ünïcödé", "a\"b\\c\nd é"] {
        let text = render_config(&key(k)).unwrap();
        assert_eq!(parse_config(&text).unwrap().api_key, Some(k.to_string()));
    }
}

#[test]
fn load_creates_missing_directory() {
    assert!(matches!(next_load_action(LoadEvent::DirChecked(false)), LoadAction::CreateDir));
    assert!(matches!(next_load_action(LoadEvent::DirCreated), LoadAction::CheckFile));
    assert!(matches!(next_load_action(LoadEvent::DirChecked(true)), LoadAction::CheckFile));
}

#[test]
fn first_run_writes_and_returns_default() {
    let text = match next_load_action(LoadEvent::FileChecked(false)) {
        LoadAction::WriteDefault(t) => t,
        other => panic!("expected WriteDefault, got {:?}", other),
    };
    assert_eq!(text, "");
    assert_eq!(finished_key(next_load_action(LoadEvent::DefaultWritten)), None);
    assert_eq!(finished_key(next_load_action(LoadEvent::ContentRead(text))), None);
}

#[test]
fn existing_file_is_read() {
    assert!(matches!(next_load_action(LoadEvent::FileChecked(true)), LoadAction::ReadFile));
    let read = LoadEvent::ContentRead("api_key = \"sk-test-123\"\n".to_string());
    assert_eq!(finished_key(next_load_action(read)), Some("sk-test-123".to_string()));
}

#[test]
fn reload_gives_equal_settings() {
    let text = "api_key = \"k\"\nother = true\n".to_string();
    let first = finished_key(next_load_action(LoadEvent::ContentRead(text.clone())));
    let second = finished_key(next_load_action(LoadEvent::ContentRead(text)));
    assert_eq!(first, second);
    assert_eq!(first, Some("k".to_string()));
}

#[test]
fn malformed_file_fails_load() {
    match next_load_action(LoadEvent::ContentRead("api_key = \"open".to_string())) {
        LoadAction::Fail(ConfigError::Parse(msg)) => assert!(!msg.is_empty()),
        other => panic!("expected a parse failure, got {:?}", other),
    }
}

#[test]
fn missing_base_directory_is_resolution_error() {
    assert_eq!(config_file_under(None).unwrap_err(), ConfigError::PathResolution);
    assert_eq!(app_dir_under(None).unwrap_err(), ConfigError::PathResolution);
}

#[test]
fn config_file_sits_under_application_directory() {
    let base = PathBuf::from("base");
    let expected = PathBuf::from("base").join("anki-creator").join("config.toml");
    assert_eq!(config_file_under(Some(base.clone())).unwrap(), expected);
    assert_eq!(app_dir_under(Some(base)).unwrap(), PathBuf::from("base").join("anki-creator"));
}

#[test]
fn copy_modifier_by_platform() {
    assert_eq!(copy_modifier(true), CopyModifier::Meta);
    assert_eq!(copy_modifier(false), CopyModifier::Control);
}

#[test]
fn resolved_config_path_ends_with_file_name() {
    if let Ok(p) = get_config_path() {
        assert!(p.ends_with(PathBuf::from("anki-creator").join("config.toml")));
    } else {
        assert_eq!(get_config_path().unwrap_err(), ConfigError::PathResolution);
    }
}
