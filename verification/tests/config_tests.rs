use rebel::config::{Config, ConfigOpt};
use rebel::json_data::{check_no_numbers, JsonData};

fn text(s: &str) -> JsonData {
    JsonData::Text(s.to_string())
}

fn one_key_object(key: &str, value: JsonData) -> Config {
    Config::Json(JsonData::Object(vec![(key.to_string(), value)], "{}".to_string()))
}

#[test]
fn cwd_candidate_wins_when_both_parse() {
    let cwd = r#"{"namespace": "core"}"#;
    let home = r#"{"namespace": "prelude"}"#;
    let config = Config::new(Some(cwd), Some(home));
    assert_eq!(config.map("namespace"), Some("core".to_string()));
    assert!(!Config::home_parse_diagnostic(Some(cwd), Some(home)));
}

#[test]
fn home_candidate_used_when_cwd_missing() {
    let home = r#"{"namespace": "prelude"}"#;
    let config = Config::new(None, Some(home));
    assert_eq!(config.map("namespace"), Some("prelude".to_string()));
}

#[test]
fn unparsable_cwd_falls_through_to_home() {
    let home = r#"{"namespace": "common"}"#;
    let config = Config::new(Some("{ not json"), Some(home));
    assert_eq!(config.map("namespace"), Some("common".to_string()));
}

#[test]
fn absent_when_no_candidate_parses() {
    let config = Config::new(Some("{"), Some("also not json"));
    assert_eq!(config.map("namespace"), None);
    let config = Config::new(None, None);
    assert_eq!(config.map("anything"), None);
}

#[test]
fn diagnostic_owed_only_for_failing_home_candidate() {
    assert!(Config::home_parse_diagnostic(None, Some("{")));
    assert!(Config::home_parse_diagnostic(Some("{"), Some("{")));
    assert!(!Config::home_parse_diagnostic(None, None));
    assert!(!Config::home_parse_diagnostic(None, Some("{}")));
    assert!(!Config::home_parse_diagnostic(Some("{}"), Some("{")));
}

#[test]
fn map_projects_text_leaf() {
    let config = one_key_object("rc", text("/etc/rc.l"));
    assert_eq!(config.map("rc"), Some("/etc/rc.l".to_string()));
}

#[test]
fn map_projects_object_leaf_to_its_serialized_text() {
    let config = Config::new(Some(r#"{"config": {"gc": "on"}}"#), None);
    assert_eq!(config.map("config"), Some(r#"{"gc":"on"}"#.to_string()));
}

#[test]
fn map_concatenates_array_of_texts() {
    let config = Config::new(Some(r#"{"k": ["a", "b", "c"]}"#), None);
    assert_eq!(config.map("k"), Some("abc".to_string()));
}

#[test]
fn map_yields_nothing_for_other_leaves() {
    let config = Config::new(Some(r#"{"flag": true, "nothing": null}"#), None);
    assert_eq!(config.map("flag"), None);
    assert_eq!(config.map("nothing"), None);
    assert_eq!(config.map("missing"), None);
}

#[test]
fn map_ok_rejects_array_with_non_text_element() {
    let config = Config::new(Some(r#"{"k": ["a", true]}"#), None);
    assert!(!config.map_ok("k"));
    let config = Config::new(Some(r#"{"k": ["a", "b"]}"#), None);
    assert!(config.map_ok("k"));
}

#[test]
fn map_opt_converts_array_of_texts_in_order() {
    let config = Config::new(Some(r#"{"k": ["a", "b", "c"]}"#), None);
    let opt = config.map_opt("k").expect("value expected");
    match opt {
        ConfigOpt::Array(elems) => {
            assert_eq!(elems.len(), 3);
            assert!(matches!(&elems[0], ConfigOpt::String(s) if s == "a"));
            assert!(matches!(&elems[1], ConfigOpt::String(s) if s == "b"));
            assert!(matches!(&elems[2], ConfigOpt::String(s) if s == "c"));
        },
        other => panic!("array expected, got {:?}", other),
    }
}

#[test]
fn map_opt_converts_leaves() {
    let config = Config::new(Some(r#"{"flag": false, "name": "x", "obj": {"a": "b"}}"#), None);
    assert!(matches!(config.map_opt("flag"), Some(ConfigOpt::Boolean(false))));
    assert!(matches!(config.map_opt("name"), Some(ConfigOpt::String(s)) if s == "x"));
    assert!(matches!(config.map_opt("obj"), Some(ConfigOpt::Object(s)) if s == r#"{"a":"b"}"#));
    assert!(matches!(config.map_opt("missing"), Some(ConfigOpt::Null)));
    assert!(matches!(Config::Absent.map_opt("k"), None));
}

#[test]
fn the_first_entry_wins_among_equal_keys() {
    let config = Config::Json(JsonData::Object(
        vec![
            ("k".to_string(), text("first")),
            ("k".to_string(), text("second")),
        ],
        "{}".to_string(),
    ));
    assert_eq!(config.map("k"), Some("first".to_string()));
}

#[test]
fn numeric_leaves_are_flagged_as_violations() {
    let config = Config::new(Some(r#"{"k": [1, "a"], "ok": "x"}"#), None);
    assert!(!config.map_opt_ok("k"));
    assert!(config.map_opt_ok("ok"));
    assert!(!check_no_numbers(&JsonData::Number));
    assert!(check_no_numbers(&text("abc")));
}
