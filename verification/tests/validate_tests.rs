use scheduled::{
    has_time_suffix, validate_config_placeholder_format, validate_positive_value,
    validate_time_suffix, ScheduleValueError,
};

#[test]
fn unclosed_placeholder_is_rejected_at_validation() {
    assert_eq!(
        validate_config_placeholder_format("${a.b"),
        Some(ScheduleValueError::MissingClosingBrace)
    );
}

#[test]
fn suffix_after_placeholder_is_rejected_at_validation() {
    assert_eq!(
        validate_config_placeholder_format("${a.b}s"),
        Some(ScheduleValueError::TrailingAfterPlaceholder)
    );
    assert_eq!(
        validate_config_placeholder_format("${a.b}ms"),
        Some(ScheduleValueError::TrailingAfterPlaceholder)
    );
}

#[test]
fn well_formed_placeholders_pass_validation() {
    assert_eq!(validate_config_placeholder_format("${a.b}"), None);
    assert_eq!(validate_config_placeholder_format("${a.b:5s}"), None);
    assert_eq!(validate_config_placeholder_format("5s"), None);
    assert_eq!(validate_config_placeholder_format("500"), None);
}

#[test]
fn malformed_placeholder_is_distinct_from_missing_key() {
    // The same malformed value is caught by validation before the store
    // is ever consulted, while a well-formed placeholder for an absent
    // key is a resolution error — two different failures.
    assert_eq!(
        validate_config_placeholder_format("${a.b"),
        Some(ScheduleValueError::MissingClosingBrace)
    );
    let store = scheduled::empty_config();
    let resolution = scheduled::resolve_config_value("${a.b}", &store);
    assert!(matches!(
        resolution,
        Err(scheduled::ConfigError::MissingRequiredKey(_))
    ));
    assert_eq!(validate_config_placeholder_format("${a.b}"), None);
}

#[test]
fn uppercase_suffix_is_rejected() {
    assert_eq!(validate_time_suffix("5S"), Some(ScheduleValueError::UppercaseSuffix));
    assert_eq!(validate_time_suffix("500MS"), Some(ScheduleValueError::UppercaseSuffix));
    assert_eq!(validate_time_suffix("5Sec"), Some(ScheduleValueError::UppercaseSuffix));
}

#[test]
fn unknown_suffix_is_rejected() {
    assert_eq!(validate_time_suffix("5sec"), Some(ScheduleValueError::UnknownSuffix));
    assert_eq!(validate_time_suffix("10min"), Some(ScheduleValueError::UnknownSuffix));
    assert_eq!(validate_time_suffix("1x"), Some(ScheduleValueError::UnknownSuffix));
}

#[test]
fn valid_suffixes_pass() {
    assert_eq!(validate_time_suffix("500ms"), None);
    assert_eq!(validate_time_suffix("5s"), None);
    assert_eq!(validate_time_suffix("10m"), None);
    assert_eq!(validate_time_suffix("2h"), None);
    assert_eq!(validate_time_suffix("7d"), None);
    assert_eq!(validate_time_suffix("500"), None);
    assert_eq!(validate_time_suffix("${app.interval}"), None);
}

#[test]
fn zero_interval_is_rejected_but_zero_delay_is_fine() {
    assert_eq!(validate_positive_value("0", false), Some(ScheduleValueError::ZeroValue));
    assert_eq!(validate_positive_value("0", true), None);
    assert_eq!(validate_positive_value("000", false), Some(ScheduleValueError::ZeroValue));
    assert_eq!(validate_positive_value("0s", false), Some(ScheduleValueError::ZeroValue));
    assert_eq!(validate_positive_value("5", false), None);
    assert_eq!(validate_positive_value("${app.interval}", false), None);
}

#[test]
fn has_time_suffix_sees_only_literal_suffixes() {
    assert!(has_time_suffix("5s"));
    assert!(has_time_suffix("500ms"));
    assert!(has_time_suffix("10m"));
    assert!(!has_time_suffix("500"));
    assert!(!has_time_suffix("${app.interval}s"));
    assert!(!has_time_suffix(""));
}
