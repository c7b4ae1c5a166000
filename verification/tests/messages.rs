use timeline_date::backend::TimelineDateBackend;
use timeline_date::mf2::{message_args, message_key, message_uses_event, prepare_selected, MessageArgs};
use timeline_date::{
    HourCycle, TimelineDateBucket, TimelineDateError, TimelineDateFormatter, TimelineDateOptions,
    TimelineDateStyle,
};

#[test]
fn message_key_maps_every_feed_bucket() {
    let cases = [
        (TimelineDateBucket::JustNow, "timeline_date.just_now"),
        (TimelineDateBucket::MinutesAgo { minutes: 1 }, "timeline_date.minutes_ago"),
        (TimelineDateBucket::Today, "timeline_date.today_at_time"),
        (TimelineDateBucket::Yesterday, "timeline_date.yesterday_at_time"),
        (TimelineDateBucket::Weekday, "timeline_date.weekday_at_time"),
        (TimelineDateBucket::SameYear, "timeline_date.same_year_at_time"),
        (TimelineDateBucket::Older, "timeline_date.older_date"),
        (TimelineDateBucket::Future, "timeline_date.future_at_datetime"),
    ];

    for (bucket, key) in cases {
        assert_eq!(message_key(TimelineDateStyle::Feed, bucket), Ok(key));
    }
}

#[test]
fn message_key_maps_fixed_styles_without_feed_bucket_dependence() {
    assert_eq!(
        message_key(TimelineDateStyle::Detail, TimelineDateBucket::JustNow),
        Ok("timeline_date.detail_datetime")
    );
    assert_eq!(
        message_key(TimelineDateStyle::Detail, TimelineDateBucket::MinutesAgo { minutes: 3 }),
        Ok("timeline_date.detail_datetime")
    );
    assert_eq!(
        message_key(TimelineDateStyle::Audit, TimelineDateBucket::Older),
        Ok("timeline_date.audit_datetime")
    );
}

#[test]
fn message_key_rejects_invalid_feed_buckets() {
    assert_eq!(
        message_key(TimelineDateStyle::Feed, TimelineDateBucket::Detail),
        Err(TimelineDateError::Internal("invalid feed bucket: Detail".to_owned()))
    );
    assert_eq!(
        message_key(TimelineDateStyle::Feed, TimelineDateBucket::Audit),
        Err(TimelineDateError::Internal("invalid feed bucket: Audit".to_owned()))
    );
}

#[test]
fn message_args_include_only_needed_values() {
    let just_now = message_args(42, TimelineDateStyle::Feed, TimelineDateBucket::JustNow, "UTC");
    assert_eq!(just_now, MessageArgs { event: None, minutes: None, timezone: None });

    let minutes = message_args(
        42,
        TimelineDateStyle::Feed,
        TimelineDateBucket::MinutesAgo { minutes: 8 },
        "UTC",
    );
    assert_eq!(minutes, MessageArgs { event: None, minutes: Some(8), timezone: None });

    for bucket in [
        TimelineDateBucket::Today,
        TimelineDateBucket::Yesterday,
        TimelineDateBucket::Weekday,
        TimelineDateBucket::SameYear,
        TimelineDateBucket::Older,
        TimelineDateBucket::Future,
    ] {
        let args = message_args(42, TimelineDateStyle::Feed, bucket, "UTC");
        assert_eq!(args, MessageArgs { event: Some(42), minutes: None, timezone: None });
    }

    let detail = message_args(42, TimelineDateStyle::Detail, TimelineDateBucket::Detail, "UTC");
    assert_eq!(detail, MessageArgs { event: Some(42), minutes: None, timezone: None });

    let audit = message_args(
        42,
        TimelineDateStyle::Audit,
        TimelineDateBucket::Audit,
        "America/Vancouver",
    );
    assert_eq!(
        audit,
        MessageArgs {
            event: Some(42),
            minutes: None,
            timezone: Some("America/Vancouver".to_owned())
        }
    );
}

#[test]
fn only_dated_messages_use_the_event() {
    assert!(!message_uses_event(TimelineDateStyle::Feed, TimelineDateBucket::JustNow));
    assert!(!message_uses_event(
        TimelineDateStyle::Feed,
        TimelineDateBucket::MinutesAgo { minutes: 2 }
    ));
    assert!(message_uses_event(TimelineDateStyle::Feed, TimelineDateBucket::Older));
    assert!(message_uses_event(TimelineDateStyle::Audit, TimelineDateBucket::JustNow));
}

#[test]
fn backend_creation_failures_are_typed() {
    let error = prepare_selected(
        "not locale",
        "UTC",
        HourCycle::LocaleDefault,
        42,
        TimelineDateStyle::Feed,
        TimelineDateBucket::MinutesAgo { minutes: 1 },
    )
    .err()
    .expect("backend");
    assert!(matches!(
        error,
        TimelineDateError::InvalidLocale(message)
            if message.contains("invalid locale tag")
    ));
}

#[test]
fn key_errors_come_before_backend_errors() {
    let error = prepare_selected(
        "not locale",
        "Mars/Base",
        HourCycle::H12,
        42,
        TimelineDateStyle::Feed,
        TimelineDateBucket::Audit,
    )
    .err()
    .expect("key");
    assert_eq!(error, TimelineDateError::Internal("invalid feed bucket: Audit".to_owned()));
}

#[test]
fn new_stores_boundary_state() {
    let backend =
        TimelineDateBackend::new("en", "America/Vancouver", HourCycle::H24).expect("backend");
    assert_eq!(backend.locale(), "en");
    assert_eq!(backend.hour_cycle(), HourCycle::H24);
}

#[test]
fn new_maps_std_backend_locale_errors() {
    assert!(matches!(
        TimelineDateBackend::new("not locale", "UTC", HourCycle::LocaleDefault).err(),
        Some(TimelineDateError::InvalidLocale(message))
            if message.contains("invalid locale tag")
    ));
}

#[test]
fn new_rejects_invalid_timezone() {
    assert!(matches!(
        TimelineDateBackend::new("en", "Mars/Base", HourCycle::LocaleDefault).err(),
        Some(TimelineDateError::InvalidTimezone(timezone)) if timezone == "Mars/Base"
    ));
}

#[test]
fn formatter_prepares_minutes_message() {
    let formatter = TimelineDateFormatter::new(
        TimelineDateOptions::new(600_000, "UTC").with_locale_preferences(&["es-MX"]),
    )
    .expect("formatter");
    let prepared = formatter
        .prepare_millis(120_000, TimelineDateStyle::Feed)
        .expect("prepared");
    assert_eq!(prepared.locale, "es");
    assert_eq!(prepared.key, "timeline_date.minutes_ago");
    assert_eq!(prepared.args, MessageArgs { event: None, minutes: Some(8), timezone: None });

    let audit = formatter
        .prepare_millis(120_250, TimelineDateStyle::Audit)
        .expect("audit");
    assert_eq!(audit.key, "timeline_date.audit_datetime");
    assert_eq!(
        audit.args,
        MessageArgs { event: Some(120_250), minutes: None, timezone: Some("UTC".to_owned()) }
    );
}

#[test]
fn one_and_two_minutes_ago_prepare_minute_counts() {
    for locale in ["en", "es", "fr"] {
        let formatter = TimelineDateFormatter::new(
            TimelineDateOptions::new(120_000, "UTC").with_locale_preferences(&[locale]),
        )
        .expect("formatter");
        let singular = formatter
            .prepare_millis(60_000, TimelineDateStyle::Feed)
            .expect("singular");
        let plural = formatter
            .prepare_millis(0, TimelineDateStyle::Feed)
            .expect("plural");
        for (prepared, minutes) in [(singular, 1), (plural, 2)] {
            assert_eq!(prepared.locale, locale);
            assert_eq!(prepared.key, "timeline_date.minutes_ago");
            assert_eq!(
                prepared.args,
                MessageArgs {
                    event: None,
                    minutes: Some(minutes),
                    timezone: None
                }
            );
        }
        assert_eq!(
            formatter.classify_millis(60_000, TimelineDateStyle::Feed),
            Ok(TimelineDateBucket::MinutesAgo { minutes: 1 })
        );
        assert_eq!(
            formatter.classify_millis(0, TimelineDateStyle::Feed),
            Ok(TimelineDateBucket::MinutesAgo { minutes: 2 })
        );
    }
}
