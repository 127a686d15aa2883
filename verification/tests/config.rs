use chat_client::config::{
    config_from_settings, find_text, load_config, parse_config, ServiceConfig, Setting,
};
use chat_client::error::ConfigError;

fn setting(key: &str, text: Option<&str>) -> Setting {
    Setting { key: key.to_string(), text: text.map(|t| t.to_string()) }
}

#[test]
fn config_with_both_fields_loads() {
    let config = parse_config("api_key = \"sk-x\"\nmodel = \"gpt-4\"\n").unwrap();
    assert_eq!(config.api_key(), "sk-x");
    assert_eq!(config.model(), "gpt-4");
}

#[test]
fn config_fields_may_come_in_any_order() {
    let config = parse_config("model = 'gpt-4'\napi_key = 'sk-x'").unwrap();
    assert_eq!(config.api_key(), "sk-x");
    assert_eq!(config.model(), "gpt-4");
}

#[test]
fn config_tolerates_other_settings() {
    let text = "retries = 3\napi_key = \"k\"\nverbose = true\nmodel = \"m\"\nratio = 0.5\n\
                tags = [\"a\", \"b\"]\nsince = 1979-05-27\n\n[proxy]\nhost = \"h\"\n";
    let config = parse_config(text).unwrap();
    assert_eq!(config.api_key(), "k");
    assert_eq!(config.model(), "m");
}

#[test]
fn config_without_model_is_malformed() {
    assert_eq!(parse_config("api_key = \"sk-x\"\n"), Err(ConfigError::Malformed));
}

#[test]
fn config_without_api_key_is_malformed() {
    assert_eq!(parse_config("model = \"gpt-4\"\n"), Err(ConfigError::Malformed));
}

#[test]
fn config_with_a_field_that_is_no_string_is_malformed() {
    assert_eq!(parse_config("api_key = \"sk-x\"\nmodel = 4\n"), Err(ConfigError::Malformed));
    assert_eq!(parse_config("api_key = true\nmodel = \"m\"\n"), Err(ConfigError::Malformed));
}

#[test]
fn config_with_an_empty_field_is_malformed() {
    assert_eq!(parse_config("api_key = \"\"\nmodel = \"m\"\n"), Err(ConfigError::Malformed));
    assert_eq!(parse_config("api_key = \"k\"\nmodel = \"\"\n"), Err(ConfigError::Malformed));
}

#[test]
fn config_fields_inside_a_table_do_not_count() {
    let text = "[service]\napi_key = \"sk-x\"\nmodel = \"gpt-4\"\n";
    assert_eq!(parse_config(text), Err(ConfigError::Malformed));
}

#[test]
fn text_that_is_no_toml_is_malformed() {
    assert_eq!(parse_config("api_key: sk-x"), Err(ConfigError::Malformed));
    assert_eq!(parse_config("api_key = \"unterminated"), Err(ConfigError::Malformed));
    assert_eq!(parse_config("a = 1\na = 2\n"), Err(ConfigError::Malformed));
}

#[test]
fn empty_text_is_malformed() {
    assert_eq!(parse_config(""), Err(ConfigError::Malformed));
}

#[test]
fn unread_file_is_not_found() {
    assert_eq!(load_config(None), Err(ConfigError::NotFound));
}

#[test]
fn read_file_is_parsed() {
    let config = load_config(Some("api_key = \"sk-x\"\nmodel = \"gpt-4\"\n")).unwrap();
    assert_eq!(config.api_key(), "sk-x");
    assert_eq!(config.model(), "gpt-4");
    assert_eq!(load_config(Some("model = 1")), Err(ConfigError::Malformed));
}

#[test]
fn toml_strings_are_decoded() {
    let config = parse_config("api_key = \"a\\tb\\u00e9\"\nmodel = 'c\\d'\n").unwrap();
    assert_eq!(config.api_key(), "a\tb\u{e9}");
    assert_eq!(config.model(), "c\\d");
}

#[test]
fn settings_give_the_configuration() {
    let settings = vec![
        setting("model", Some("gpt-4")),
        setting("retries", None),
        setting("api_key", Some("sk-x")),
    ];
    let config = config_from_settings(&settings).unwrap();
    assert_eq!(config.api_key(), "sk-x");
    assert_eq!(config.model(), "gpt-4");
}

#[test]
fn settings_without_a_text_give_none() {
    let settings = vec![setting("model", None), setting("api_key", Some("sk-x"))];
    assert_eq!(config_from_settings(&settings), Err(ConfigError::Malformed));
    assert_eq!(config_from_settings(&Vec::new()), Err(ConfigError::Malformed));
}

#[test]
fn first_setting_under_a_key_counts() {
    let settings = vec![
        setting("a", Some("1")),
        setting("b", None),
        setting("a", Some("2")),
        setting("b", Some("3")),
    ];
    assert_eq!(find_text(&settings, "a"), Some(&"1".to_string()));
    assert_eq!(find_text(&settings, "b"), None);
    assert_eq!(find_text(&settings, "c"), None);
}

#[test]
fn new_refuses_empty_fields() {
    assert_eq!(
        ServiceConfig::new(String::new(), "m".to_string()),
        Err(ConfigError::Malformed)
    );
    assert_eq!(
        ServiceConfig::new("k".to_string(), String::new()),
        Err(ConfigError::Malformed)
    );
    let config = ServiceConfig::new("k".to_string(), "m".to_string()).unwrap();
    assert_eq!(config.api_key(), "k");
    assert_eq!(config.model(), "m");
}
