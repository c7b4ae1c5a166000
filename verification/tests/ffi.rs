use timeline_date::ffi::{
    parse_hour_cycle, parse_locale_preferences_csv, prepare_feed_label,
    prepare_timeline_date_for_feed,
};
use timeline_date::mf2::MessageArgs;
use timeline_date::{HourCycle, TimelineDateError, TimelineDateFfiError};

#[test]
fn parses_csv_locale_preferences() {
    assert_eq!(
        parse_locale_preferences_csv(" fr-CA, es-MX ,, en "),
        vec!["fr-CA", "es-MX", "en"]
    );
    assert!(parse_locale_preferences_csv(" , , ").is_empty());
}

#[test]
fn csv_edges_split_like_str_split() {
    assert!(parse_locale_preferences_csv("").is_empty());
    assert_eq!(parse_locale_preferences_csv(",fr,"), vec!["fr"]);
    assert_eq!(parse_locale_preferences_csv("es"), vec!["es"]);
}

#[test]
fn parses_hour_cycle_values() {
    assert_eq!(parse_hour_cycle("").expect("empty"), HourCycle::LocaleDefault);
    assert_eq!(
        parse_hour_cycle("locale-default").expect("default"),
        HourCycle::LocaleDefault
    );
    assert_eq!(parse_hour_cycle("H12").expect("h12"), HourCycle::H12);
    assert_eq!(parse_hour_cycle("24").expect("h24"), HourCycle::H24);
    assert_eq!(
        parse_hour_cycle("midday"),
        Err(TimelineDateFfiError::InvalidHourCycle)
    );
}

#[test]
fn hour_cycle_names_ignore_case_and_padding() {
    assert_eq!(parse_hour_cycle(" Locale_Default\t"), Ok(HourCycle::LocaleDefault));
    assert_eq!(parse_hour_cycle("DEFAULT"), Ok(HourCycle::LocaleDefault));
    assert_eq!(parse_hour_cycle(" h24 "), Ok(HourCycle::H24));
    assert_eq!(parse_hour_cycle("12"), Ok(HourCycle::H12));
    assert_eq!(parse_hour_cycle("h 12"), Err(TimelineDateFfiError::InvalidHourCycle));
}

#[test]
fn maps_rust_errors_to_stable_ffi_cases() {
    let cases = [
        (TimelineDateError::InvalidTimestamp(1), TimelineDateFfiError::InvalidTimestamp),
        (
            TimelineDateError::InvalidTimezone("Mars/Base".to_owned()),
            TimelineDateFfiError::InvalidTimezone,
        ),
        (
            TimelineDateError::InvalidLocale("bad".to_owned()),
            TimelineDateFfiError::InvalidLocale,
        ),
        (
            TimelineDateError::I18nInit("catalog".to_owned()),
            TimelineDateFfiError::I18nInit,
        ),
        (
            TimelineDateError::I18nFormat("message".to_owned()),
            TimelineDateFfiError::I18nFormat,
        ),
        (
            TimelineDateError::FormattingUnsupported("feature".to_owned()),
            TimelineDateFfiError::FormattingUnsupported,
        ),
        (
            TimelineDateError::LocaleDataUnavailable("fr".to_owned()),
            TimelineDateFfiError::LocaleDataUnavailable,
        ),
        (
            TimelineDateError::Internal("state".to_owned()),
            TimelineDateFfiError::Internal,
        ),
    ];

    for (source, expected) in cases {
        assert_eq!(TimelineDateFfiError::from(source), expected);
    }
}

#[test]
fn compatibility_alias_delegates_old_argument_order() {
    let alias = prepare_feed_label(
        600_000,
        120_000,
        "UTC".to_owned(),
        "es-MX, fr".to_owned(),
        "h24".to_owned(),
    )
    .expect("alias");
    let canonical = prepare_timeline_date_for_feed(
        120_000,
        600_000,
        "UTC".to_owned(),
        "es-MX, fr".to_owned(),
        "h24".to_owned(),
    )
    .expect("canonical");
    assert_eq!(alias.locale, canonical.locale);
    assert_eq!(alias.key, canonical.key);
    assert_eq!(alias.args, canonical.args);
    assert_eq!(canonical.locale, "es");
    assert_eq!(canonical.key, "timeline_date.minutes_ago");
    assert_eq!(canonical.args, MessageArgs { event: None, minutes: Some(8), timezone: None });
}

#[test]
fn canonical_order_does_not_silently_match_swapped_arguments() {
    let canonical = prepare_timeline_date_for_feed(
        120_000,
        600_000,
        "UTC".to_owned(),
        "en".to_owned(),
        "h24".to_owned(),
    )
    .expect("canonical");
    let swapped = prepare_timeline_date_for_feed(
        600_000,
        120_000,
        "UTC".to_owned(),
        "en".to_owned(),
        "h24".to_owned(),
    )
    .expect("swapped");
    assert_ne!(canonical.key, swapped.key);
    assert_eq!(swapped.key, "timeline_date.future_at_datetime");
}

#[test]
fn propagates_invalid_timezone_and_locale() {
    assert!(matches!(
        prepare_timeline_date_for_feed(
            0,
            0,
            "Mars/Base".to_owned(),
            "en".to_owned(),
            "default".to_owned(),
        ),
        Err(TimelineDateFfiError::InvalidTimezone)
    ));
    assert!(matches!(
        prepare_timeline_date_for_feed(
            0,
            0,
            "UTC".to_owned(),
            "en--US".to_owned(),
            "default".to_owned(),
        ),
        Err(TimelineDateFfiError::InvalidLocale)
    ));
}

#[test]
fn facade_rejects_invalid_hour_cycle() {
    assert!(matches!(
        prepare_timeline_date_for_feed(
            0,
            0,
            "UTC".to_owned(),
            "en".to_owned(),
            "midday".to_owned(),
        ),
        Err(TimelineDateFfiError::InvalidHourCycle)
    ));
}

#[test]
fn facade_rejects_out_of_range_instants() {
    assert!(matches!(
        prepare_timeline_date_for_feed(i64::MAX, 0, "UTC".to_owned(), "".to_owned(), "".to_owned()),
        Err(TimelineDateFfiError::InvalidTimestamp)
    ));
}
