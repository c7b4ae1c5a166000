use timeline_date::locale::{parse_locale, select_locale, DEFAULT_LOCALE, SUPPORTED_LOCALES};
use timeline_date::{HourCycle, TimelineDateError, TimelineDateFormatter, TimelineDateOptions};

fn select(preferences: &[&str]) -> Result<String, TimelineDateError> {
    let preferences = preferences
        .iter()
        .map(|preference| preference.to_string())
        .collect::<Vec<_>>();
    select_locale(&preferences)
}

#[test]
fn exact_match_selects_supported_locale() {
    assert_eq!(select(&["fr"]).expect("locale"), "fr");
}

#[test]
fn lookup_truncates_region_to_supported_language() {
    assert_eq!(select(&["fr-CA"]).expect("locale"), "fr");
}

#[test]
fn fallback_uses_default_when_no_supported_locale_matches() {
    assert_eq!(select(&["ja-JP"]).expect("locale"), "en");
}

#[test]
fn empty_preferences_use_default_locale() {
    assert_eq!(select(&[]).expect("locale"), "en");
    assert_eq!(select(&["", " "]).expect("locale"), "en");
}

#[test]
fn whitespace_and_case_are_normalized_before_lookup() {
    assert_eq!(select(&[" ES-mx "]).expect("locale"), "es");
}

#[test]
fn malformed_locale_returns_typed_error() {
    let error = select(&["en--US"]).expect_err("invalid locale");
    assert_eq!(error, TimelineDateError::InvalidLocale("en--US".to_owned()));
}

#[test]
fn duplicate_preferences_are_ignored_after_normalization() {
    assert_eq!(select(&["fr-CA", "fr-ca", "es"]).expect("locale"), "fr");
}

#[test]
fn invalid_supported_locale_maps_to_internal_error() {
    let error = parse_locale("").expect_err("invalid locale");
    assert_eq!(
        error,
        TimelineDateError::Internal("invalid supported locale: ".to_owned())
    );
}

#[test]
fn generated_runtime_exposes_expected_locales() {
    assert_eq!(DEFAULT_LOCALE, "en");
    assert_eq!(SUPPORTED_LOCALES, ["en", "es", "fr"]);
}

#[test]
fn first_malformed_preference_is_reported_trimmed() {
    assert_eq!(
        select(&["fr", "  de--AT ", "x!"]),
        Err(TimelineDateError::InvalidLocale("de--AT".to_owned()))
    );
}

#[test]
fn selection_is_always_a_bundled_locale() {
    for preferences in [&["zh-Hant-TW"][..], &["es-419", "fr"], &["EN-gb"], &["pt", "de"]] {
        let selected = select(preferences).expect("locale");
        assert!(SUPPORTED_LOCALES.contains(&selected.as_str()));
    }
}

#[test]
fn new_stores_options() {
    let options = TimelineDateOptions::new(1_780_958_400_000, "America/Vancouver")
        .with_locale_preferences(&["fr-CA", "fr"])
        .with_hour_cycle(HourCycle::H24);
    let formatter = TimelineDateFormatter::new(options.clone()).expect("formatter");
    assert_eq!(formatter.options(), &options);
    assert_eq!(formatter.selected_locale(), "fr");
}

#[test]
fn cloned_formatter_keeps_options() {
    let options = TimelineDateOptions::new(1, "UTC");
    let formatter = TimelineDateFormatter::new(options.clone()).expect("formatter");
    let cloned = formatter.clone();
    assert_eq!(cloned.options(), &options);
    assert_eq!(cloned.selected_locale(), "en");
}

#[test]
fn independent_formatters_keep_selected_locale() {
    let french = TimelineDateFormatter::new(
        TimelineDateOptions::new(1, "UTC").with_locale_preferences(&["fr-CA"]),
    )
    .expect("french formatter");
    let spanish = TimelineDateFormatter::new(
        TimelineDateOptions::new(1, "UTC").with_locale_preferences(&["es-MX"]),
    )
    .expect("spanish formatter");

    assert_eq!(french.selected_locale(), "fr");
    assert_eq!(spanish.selected_locale(), "es");
}

#[test]
fn formatter_is_send_and_sync() {
    fn assert_send_sync<T: Send + Sync>() {}
    assert_send_sync::<TimelineDateFormatter>();
}

#[test]
fn new_rejects_malformed_locale() {
    let options = TimelineDateOptions::new(1, "UTC").with_locale_preferences(&["en--US"]);
    let error = TimelineDateFormatter::new(options).expect_err("invalid locale");
    assert_eq!(error, TimelineDateError::InvalidLocale("en--US".to_owned()));
}

#[test]
fn padded_upper_case_tag_selects_its_language() {
    assert_eq!(
        select_locale(&vec![" ES-mx ".to_owned()]).expect("locale"),
        "es"
    );
    assert_eq!(
        select_locale(&vec!["en--US".to_owned()]),
        Err(TimelineDateError::InvalidLocale("en--US".to_owned()))
    );
    assert_eq!(
        parse_locale("zh-hant-tw").expect("tag").normalized(),
        "zh-Hant-TW"
    );
}
