use timeline_date::options::{trimmed_nonblank_values, DEFAULT_SKEW_SECONDS};
use timeline_date::{FuturePolicy, HourCycle, OldDateTimePolicy, TimelineDateOptions, TimelineDateStyle};

#[test]
fn new_sets_default_options() {
    let options = TimelineDateOptions::new(1_780_958_400_000, "America/Vancouver");
    assert_eq!(options.now_unix_ms, 1_780_958_400_000);
    assert_eq!(options.timezone, "America/Vancouver");
    assert_eq!(options.locale_preferences, ["en"]);
    assert_eq!(options.hour_cycle, HourCycle::LocaleDefault);
    assert_eq!(options.future_policy, FuturePolicy { skew_seconds: 30 });
    assert_eq!(options.old_date_time_policy, OldDateTimePolicy::DateOnly);
}

#[test]
fn locale_preferences_trim_and_drop_empty_values() {
    let options =
        TimelineDateOptions::new(0, "UTC").with_locale_preferences(&[" fr-CA ", "", " ", "fr"]);
    assert_eq!(options.locale_preferences, ["fr-CA", "fr"]);
}

#[test]
fn empty_locale_preferences_keep_default() {
    let options = TimelineDateOptions::new(0, "UTC").with_locale_preferences(&["", " "]);
    assert_eq!(options.locale_preferences, ["en"]);
}

#[test]
fn hour_cycle_builder_sets_every_variant() {
    let h12 = TimelineDateOptions::new(0, "UTC").with_hour_cycle(HourCycle::H12);
    let h24 = TimelineDateOptions::new(0, "UTC").with_hour_cycle(HourCycle::H24);
    let locale = TimelineDateOptions::new(0, "UTC").with_hour_cycle(HourCycle::LocaleDefault);
    assert_eq!(h12.hour_cycle, HourCycle::H12);
    assert_eq!(h24.hour_cycle, HourCycle::H24);
    assert_eq!(locale.hour_cycle, HourCycle::LocaleDefault);
}

#[test]
fn future_policy_builder_sets_policy() {
    let policy = FuturePolicy { skew_seconds: 45 };
    let options = TimelineDateOptions::new(0, "UTC").with_future_policy(policy);
    assert_eq!(options.future_policy, policy);
}

#[test]
fn old_date_time_policy_builder_sets_every_variant() {
    let date_only =
        TimelineDateOptions::new(0, "UTC").with_old_date_time_policy(OldDateTimePolicy::DateOnly);
    let date_time =
        TimelineDateOptions::new(0, "UTC").with_old_date_time_policy(OldDateTimePolicy::DateTime);
    assert_eq!(date_only.old_date_time_policy, OldDateTimePolicy::DateOnly);
    assert_eq!(date_time.old_date_time_policy, OldDateTimePolicy::DateTime);
}

#[test]
fn styles_compare_by_value() {
    assert_eq!(TimelineDateStyle::Feed, TimelineDateStyle::Feed);
    assert_ne!(TimelineDateStyle::Feed, TimelineDateStyle::Detail);
    assert_ne!(TimelineDateStyle::Detail, TimelineDateStyle::Audit);
}

#[test]
fn default_future_policy_tolerates_thirty_seconds() {
    assert_eq!(FuturePolicy::default().skew_seconds, 30);
    assert_eq!(DEFAULT_SKEW_SECONDS, 30);
}

#[test]
fn builders_keep_the_other_fields() {
    let options = TimelineDateOptions::new(5, "Asia/Tokyo")
        .with_hour_cycle(HourCycle::H12)
        .with_locale_preferences(&["es"])
        .with_future_policy(FuturePolicy { skew_seconds: -3 })
        .with_old_date_time_policy(OldDateTimePolicy::DateTime);
    assert_eq!(options.now_unix_ms, 5);
    assert_eq!(options.timezone, "Asia/Tokyo");
    assert_eq!(options.locale_preferences, ["es"]);
    assert_eq!(options.hour_cycle, HourCycle::H12);
    assert_eq!(options.future_policy, FuturePolicy { skew_seconds: -3 });
    assert_eq!(options.old_date_time_policy, OldDateTimePolicy::DateTime);
}

#[test]
fn cleaning_twice_changes_nothing() {
    let once = trimmed_nonblank_values(&["\u{3000}fr\t", " ", "es-MX\u{a0}", ""]);
    assert_eq!(once, ["fr", "es-MX"]);
    let borrowed: Vec<&str> = once.iter().map(|value| value.as_str()).collect();
    assert_eq!(trimmed_nonblank_values(&borrowed), once);
}

#[test]
fn unicode_white_space_is_trimmed() {
    let options = TimelineDateOptions::new(0, "UTC")
        .with_locale_preferences(&["\u{2003}de\u{2029}", "\u{85}\u{1680}"]);
    assert_eq!(options.locale_preferences, ["de"]);
}
