use scheduled::TimeUnit;

#[test]
fn to_millis_is_exact_for_all_five_units() {
    assert_eq!(TimeUnit::Milliseconds.to_millis(7), 7);
    assert_eq!(TimeUnit::Seconds.to_millis(5), 5000);
    assert_eq!(TimeUnit::Minutes.to_millis(3), 180_000);
    assert_eq!(TimeUnit::Hours.to_millis(2), 7_200_000);
    assert_eq!(TimeUnit::Days.to_millis(2), 172_800_000);
}

#[test]
fn checked_to_millis_matches_and_catches_overflow() {
    assert_eq!(TimeUnit::Seconds.checked_to_millis(5), Some(5000));
    assert_eq!(TimeUnit::Days.checked_to_millis(2), Some(172_800_000));
    assert_eq!(TimeUnit::Days.checked_to_millis(u64::MAX), None);
    assert_eq!(TimeUnit::Milliseconds.checked_to_millis(u64::MAX), Some(u64::MAX));
}

#[test]
fn parse_duration_round_trips_every_valid_suffix() {
    assert_eq!(TimeUnit::parse_duration("500ms"), Some((500, TimeUnit::Milliseconds)));
    assert_eq!(TimeUnit::parse_duration("5s"), Some((5, TimeUnit::Seconds)));
    assert_eq!(TimeUnit::parse_duration("10m"), Some((10, TimeUnit::Minutes)));
    assert_eq!(TimeUnit::parse_duration("2h"), Some((2, TimeUnit::Hours)));
    assert_eq!(TimeUnit::parse_duration("7d"), Some((7, TimeUnit::Days)));
}

#[test]
fn parse_duration_rejects_uppercase_suffix() {
    assert_eq!(TimeUnit::parse_duration("5S"), None);
    assert_eq!(TimeUnit::parse_duration("500MS"), None);
    assert_eq!(TimeUnit::parse_duration("5Sec"), None);
}

#[test]
fn parse_duration_rejects_missing_suffix() {
    assert_eq!(TimeUnit::parse_duration("500"), None);
    assert_eq!(TimeUnit::parse_duration("0"), None);
}

#[test]
fn parse_duration_rejects_missing_digits() {
    assert_eq!(TimeUnit::parse_duration("ms"), None);
    assert_eq!(TimeUnit::parse_duration("s"), None);
    assert_eq!(TimeUnit::parse_duration(""), None);
}

#[test]
fn parse_duration_rejects_alias_suffixes() {
    assert_eq!(TimeUnit::parse_duration("5sec"), None);
    assert_eq!(TimeUnit::parse_duration("10min"), None);
    assert_eq!(TimeUnit::parse_duration("1hr"), None);
}

#[test]
fn parse_duration_rejects_value_too_large_for_u64() {
    assert_eq!(TimeUnit::parse_duration("18446744073709551615ms"), Some((u64::MAX, TimeUnit::Milliseconds)));
    assert_eq!(TimeUnit::parse_duration("18446744073709551616ms"), None);
}

#[test]
fn parse_unit_name_accepts_full_names_in_any_case() {
    assert_eq!(TimeUnit::parse_unit_name("milliseconds"), Some(TimeUnit::Milliseconds));
    assert_eq!(TimeUnit::parse_unit_name("SECONDS"), Some(TimeUnit::Seconds));
    assert_eq!(TimeUnit::parse_unit_name("Minutes"), Some(TimeUnit::Minutes));
    assert_eq!(TimeUnit::parse_unit_name("hOuRs"), Some(TimeUnit::Hours));
    assert_eq!(TimeUnit::parse_unit_name("days"), Some(TimeUnit::Days));
}

#[test]
fn parse_unit_name_rejects_abbreviations() {
    assert_eq!(TimeUnit::parse_unit_name("ms"), None);
    assert_eq!(TimeUnit::parse_unit_name("s"), None);
    assert_eq!(TimeUnit::parse_unit_name("sec"), None);
    assert_eq!(TimeUnit::parse_unit_name("min"), None);
    assert_eq!(TimeUnit::parse_unit_name(""), None);
}
