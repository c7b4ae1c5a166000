use timeline_date::{TimelineDateBucket, TimelineDateError, TimelineDateResult};

#[test]
fn result_alias_accepts_timeline_error() {
    let result: TimelineDateResult<()> = Err(TimelineDateError::InvalidTimestamp(7));
    assert_eq!(result, Err(TimelineDateError::InvalidTimestamp(7)));
}

#[test]
fn errors_render_stable_messages() {
    let cases = [
        (TimelineDateError::InvalidTimestamp(1), "invalid timestamp: 1"),
        (
            TimelineDateError::InvalidTimezone("Mars/Base".to_owned()),
            "invalid timezone: Mars/Base",
        ),
        (
            TimelineDateError::InvalidLocale("not locale".to_owned()),
            "invalid locale: not locale",
        ),
        (
            TimelineDateError::I18nInit("missing catalog".to_owned()),
            "i18n runtime initialization failed: missing catalog",
        ),
        (
            TimelineDateError::I18nFormat("missing key".to_owned()),
            "i18n formatting failed: missing key",
        ),
        (
            TimelineDateError::FormattingUnsupported("date option".to_owned()),
            "formatting unsupported: date option",
        ),
        (
            TimelineDateError::LocaleDataUnavailable("fr-CA".to_owned()),
            "locale data unavailable: fr-CA",
        ),
        (
            TimelineDateError::Internal("catalog invariant".to_owned()),
            "internal error: catalog invariant",
        ),
    ];

    for (error, message) in cases {
        assert_eq!(error.message(), message);
    }
}

#[test]
fn negative_and_extreme_timestamps_render_in_decimal() {
    assert_eq!(
        TimelineDateError::InvalidTimestamp(-42).message(),
        "invalid timestamp: -42"
    );
    assert_eq!(
        TimelineDateError::InvalidTimestamp(i64::MIN).message(),
        "invalid timestamp: -9223372036854775808"
    );
    assert_eq!(
        TimelineDateError::InvalidTimestamp(0).message(),
        "invalid timestamp: 0"
    );
}

#[test]
fn bucket_variants_compare_by_value() {
    assert_eq!(TimelineDateBucket::JustNow, TimelineDateBucket::JustNow);
    assert_eq!(
        TimelineDateBucket::MinutesAgo { minutes: 8 },
        TimelineDateBucket::MinutesAgo { minutes: 8 }
    );
    assert_ne!(
        TimelineDateBucket::MinutesAgo { minutes: 8 },
        TimelineDateBucket::MinutesAgo { minutes: 9 }
    );
    assert_ne!(TimelineDateBucket::Today, TimelineDateBucket::Yesterday);
    assert_ne!(TimelineDateBucket::Weekday, TimelineDateBucket::SameYear);
    assert_ne!(TimelineDateBucket::Older, TimelineDateBucket::Future);
}

#[test]
fn timestamp_messages_write_every_i64_in_decimal() {
    for value in [0, 9, 10, -1, 1_780_958_400_000, i64::MAX, i64::MIN] {
        assert_eq!(
            TimelineDateError::InvalidTimestamp(value).message(),
            format!("invalid timestamp: {value}")
        );
    }
}
