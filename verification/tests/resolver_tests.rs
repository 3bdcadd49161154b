use scheduled::{resolve_config_value, ConfigError};

fn store_with(key: &str, value: &str) -> config::Config {
    config::Config::builder()
        .set_override(key, value)
        .unwrap()
        .build()
        .unwrap()
}

fn empty_store() -> config::Config {
    scheduled::empty_config()
}

#[test]
fn literal_passes_through_unchanged() {
    let store = empty_store();
    assert_eq!(resolve_config_value("5s", &store).unwrap(), "5s");
    assert_eq!(resolve_config_value("hello", &store).unwrap(), "hello");
    assert_eq!(resolve_config_value("", &store).unwrap(), "");
}

#[test]
fn placeholder_with_default_uses_default_when_key_absent() {
    let store = empty_store();
    assert_eq!(resolve_config_value("${a.b:5s}", &store).unwrap(), "5s");
}

#[test]
fn placeholder_with_default_prefers_stored_value() {
    let store = store_with("a.b", "250ms");
    assert_eq!(resolve_config_value("${a.b:5s}", &store).unwrap(), "250ms");
}

#[test]
fn placeholder_without_default_returns_stored_value() {
    let store = store_with("a.b", "7");
    assert_eq!(resolve_config_value("${a.b}", &store).unwrap(), "7");
}

#[test]
fn placeholder_without_default_is_a_hard_error_when_key_absent() {
    let store = empty_store();
    let err = resolve_config_value("${a.b}", &store).unwrap_err();
    let ConfigError::MissingRequiredKey(key) = err;
    assert_eq!(key, "a.b");
}

#[test]
fn missing_key_error_carries_the_key() {
    let store = empty_store();
    let err = resolve_config_value("${app.interval}", &store).unwrap_err();
    assert_eq!(err.key(), "app.interval");
}

#[test]
fn default_may_be_empty() {
    let store = empty_store();
    assert_eq!(resolve_config_value("${a.b:}", &store).unwrap(), "");
}

#[test]
fn default_keeps_everything_after_first_colon() {
    let store = empty_store();
    assert_eq!(resolve_config_value("${a.b:x:y}", &store).unwrap(), "x:y");
}

#[test]
fn unclosed_placeholder_is_treated_as_a_literal_here() {
    // Malformed placeholders are a registration-time concern; resolution
    // passes them through like any other literal.
    let store = empty_store();
    assert_eq!(resolve_config_value("${a.b", &store).unwrap(), "${a.b");
}

#[test]
fn stored_integers_resolve_as_strings() {
    let store = config::Config::builder()
        .set_override("app.interval", 60i64)
        .unwrap()
        .build()
        .unwrap();
    assert_eq!(resolve_config_value("${app.interval}", &store).unwrap(), "60");
}
