use log_generator::config::{Config, ConfigError, JsonConfigData, CHANCE_DENOM, DEFAULT_CHANCE};

#[test]
fn from_args_accepts_valid_range() {
    let c = Config::from_args(1990, 1995, 2).unwrap();
    assert_eq!(c.start_year, 1990);
    assert_eq!(c.end_year, 1995);
    assert_eq!(c.items_per_day, 2);
}

#[test]
fn from_args_accepts_single_year() {
    let c = Config::from_args(2020, 2020, 1).unwrap();
    assert_eq!(c.start_year, 2020);
    assert_eq!(c.end_year, 2020);
}

#[test]
fn from_args_rejects_non_positive() {
    assert!(matches!(Config::from_args(0, 2020, 1), Err(ConfigError::NonPositive)));
    assert!(matches!(Config::from_args(-5, 2020, 1), Err(ConfigError::NonPositive)));
    assert!(matches!(Config::from_args(2020, 0, 1), Err(ConfigError::NonPositive)));
    assert!(matches!(Config::from_args(2020, 2021, 0), Err(ConfigError::NonPositive)));
}

#[test]
fn from_args_rejects_end_before_start() {
    assert!(matches!(Config::from_args(2021, 2020, 1), Err(ConfigError::EndBeforeStart)));
}

#[test]
fn error_messages_are_the_documented_ones() {
    assert_eq!(
        ConfigError::NonPositive.message(),
        "Years and <items_per_day> must be positive integers."
    );
    assert_eq!(
        ConfigError::EndBeforeStart.message(),
        "<end_year> cannot be earlier than <start_year>."
    );
    assert_eq!(
        ConfigError::EmptyActivities.message(),
        "'common_activities' array must not be empty."
    );
}

#[test]
fn validate_rejects_empty_activities() {
    let r = JsonConfigData::validate(vec![], None, vec![], 0);
    assert!(matches!(r, Err(ConfigError::EmptyActivities)));
}

#[test]
fn validate_without_remarks() {
    let (data, notes) =
        JsonConfigData::validate(vec!["read".to_string()], None, vec![], 0).unwrap();
    assert_eq!(data.activities, vec!["read".to_string()]);
    assert!(data.remarks.is_none());
    assert!(!notes.remarks_disabled);
    assert!(!notes.chance_reset);
}

#[test]
fn validate_disables_remarks_with_empty_contents() {
    let (data, notes) = JsonConfigData::validate(
        vec!["read".to_string()],
        Some("note: ".to_string()),
        vec![],
        700_000,
    )
    .unwrap();
    assert!(data.remarks.is_none());
    assert!(notes.remarks_disabled);
    assert!(!notes.chance_reset);
}

#[test]
fn validate_keeps_in_range_chance() {
    let (data, notes) = JsonConfigData::validate(
        vec!["read".to_string()],
        Some("note: ".to_string()),
        vec!["fine day".to_string()],
        700_000,
    )
    .unwrap();
    let rc = data.remarks.unwrap();
    assert_eq!(rc.prefix, "note: ");
    assert_eq!(rc.contents, vec!["fine day".to_string()]);
    assert_eq!(rc.chance_num, 700_000);
    assert!(!notes.remarks_disabled);
    assert!(!notes.chance_reset);
}

#[test]
fn validate_resets_out_of_range_chance() {
    let over = CHANCE_DENOM as i64 + 1;
    let (data, notes) = JsonConfigData::validate(
        vec!["read".to_string()],
        Some("note: ".to_string()),
        vec!["fine day".to_string()],
        over,
    )
    .unwrap();
    assert_eq!(data.remarks.unwrap().chance_num, DEFAULT_CHANCE);
    assert!(notes.chance_reset);

    let (data, notes) = JsonConfigData::validate(
        vec!["read".to_string()],
        Some("note: ".to_string()),
        vec!["fine day".to_string()],
        -1,
    )
    .unwrap();
    assert_eq!(data.remarks.unwrap().chance_num, DEFAULT_CHANCE);
    assert!(notes.chance_reset);
}
