use timeline_date::classify::{classify_feed_dates, classify_feed_millis, classify_fixed_millis};
use timeline_date::time::{
    timestamp_from_millis, timezone_from_id, timezone_lookup_result, CivilDate, ValidatedClock,
    MAX_UNIX_MS, MIN_UNIX_MS,
};
use timeline_date::{
    FuturePolicy, TimelineDateBucket, TimelineDateError, TimelineDateFormatter,
    TimelineDateOptions, TimelineDateStyle,
};

fn ms(value: &str) -> i64 {
    value
        .parse::<jiff::Timestamp>()
        .expect("timestamp")
        .as_millisecond()
}

fn formatter(now: i64, timezone: &str) -> TimelineDateFormatter {
    TimelineDateFormatter::new(TimelineDateOptions::new(now, timezone)).expect("formatter")
}

fn date(year: i16, month: i8, day: i8) -> CivilDate {
    CivilDate { year, month, day }
}

#[test]
fn classifies_feed_matrix() {
    let now = ms("2026-06-08T19:00:00Z");
    let formatter = formatter(now, "America/Vancouver");
    let cases = [
        (now - 10_000, TimelineDateBucket::JustNow),
        (now - 8 * 60_000, TimelineDateBucket::MinutesAgo { minutes: 8 }),
        (ms("2026-06-08T17:00:00Z"), TimelineDateBucket::Today),
        (ms("2026-06-08T06:30:00Z"), TimelineDateBucket::Yesterday),
        (ms("2026-06-02T19:00:00Z"), TimelineDateBucket::Weekday),
        (ms("2026-06-01T19:00:00Z"), TimelineDateBucket::SameYear),
        (ms("2025-12-31T20:00:00Z"), TimelineDateBucket::Older),
        (now + 15_000, TimelineDateBucket::JustNow),
        (now + 2 * 60 * 60_000, TimelineDateBucket::Future),
    ];

    for (event, expected) in cases {
        assert_eq!(
            formatter
                .classify_millis(event, TimelineDateStyle::Feed)
                .expect("bucket"),
            expected
        );
    }
}

#[test]
fn same_vancouver_local_date_wins_when_utc_date_differs() {
    let formatter = formatter(ms("2026-06-08T01:00:00Z"), "America/Vancouver");
    assert_eq!(
        formatter
            .classify_millis(ms("2026-06-07T23:30:00Z"), TimelineDateStyle::Feed)
            .expect("bucket"),
        TimelineDateBucket::Today
    );
}

#[test]
fn previous_tokyo_local_date_wins_when_utc_date_matches() {
    let formatter = formatter(ms("2026-06-08T16:30:00Z"), "Asia/Tokyo");
    assert_eq!(
        formatter
            .classify_millis(ms("2026-06-08T14:30:00Z"), TimelineDateStyle::Feed)
            .expect("bucket"),
        TimelineDateBucket::Yesterday
    );
}

#[test]
fn local_midnight_boundary_uses_civil_dates() {
    let formatter = formatter(ms("2026-06-08T08:30:00Z"), "America/Vancouver");
    assert_eq!(
        formatter
            .classify_millis(ms("2026-06-08T06:55:00Z"), TimelineDateStyle::Feed)
            .expect("bucket"),
        TimelineDateBucket::Yesterday
    );
}

#[test]
fn vancouver_spring_forward_uses_local_civil_dates() {
    let formatter = formatter(ms("2026-03-09T08:30:00Z"), "America/Vancouver");
    assert_eq!(
        formatter
            .classify_millis(ms("2026-03-08T09:45:00Z"), TimelineDateStyle::Feed)
            .expect("bucket"),
        TimelineDateBucket::Yesterday
    );
}

#[test]
fn vancouver_fall_back_uses_local_civil_dates() {
    let formatter = formatter(ms("2026-11-02T08:30:00Z"), "America/Vancouver");
    assert_eq!(
        formatter
            .classify_millis(ms("2026-11-01T08:30:00Z"), TimelineDateStyle::Feed)
            .expect("bucket"),
        TimelineDateBucket::Yesterday
    );
}

#[test]
fn future_policy_controls_skew() {
    let now = ms("2026-06-08T19:00:00Z");
    let clock = ValidatedClock::new(now, "America/Vancouver").expect("clock");
    assert_eq!(
        classify_feed_millis(now + 5_000, &clock, FuturePolicy { skew_seconds: 0 }),
        Ok(TimelineDateBucket::Future)
    );
    assert_eq!(
        classify_feed_millis(now + 5_000, &clock, FuturePolicy { skew_seconds: 5 }),
        Ok(TimelineDateBucket::JustNow)
    );
}

#[test]
fn invalid_event_timestamp_is_typed() {
    let formatter = formatter(0, "UTC");
    let error = formatter
        .classify_millis(i64::MAX, TimelineDateStyle::Feed)
        .expect_err("invalid event");
    assert_eq!(error, TimelineDateError::InvalidTimestamp(i64::MAX));
}

#[test]
fn detail_and_audit_have_explicit_buckets() {
    let formatter = formatter(0, "UTC");
    assert_eq!(
        formatter
            .classify_millis(0, TimelineDateStyle::Detail)
            .expect("detail bucket"),
        TimelineDateBucket::Detail
    );
    assert_eq!(
        formatter
            .classify_millis(0, TimelineDateStyle::Audit)
            .expect("audit bucket"),
        TimelineDateBucket::Audit
    );
}

#[test]
fn detail_and_audit_validate_event_timestamp() {
    let formatter = formatter(0, "UTC");
    assert_eq!(
        formatter.classify_millis(i64::MAX, TimelineDateStyle::Detail),
        Err(TimelineDateError::InvalidTimestamp(i64::MAX))
    );
    assert_eq!(
        formatter.classify_millis(i64::MAX, TimelineDateStyle::Audit),
        Err(TimelineDateError::InvalidTimestamp(i64::MAX))
    );
}

#[test]
fn valid_timezone_is_accepted() {
    let timezone = timezone_from_id("America/Vancouver").expect("timezone");
    let clock = ValidatedClock::new(1_780_958_400_000, "America/Vancouver").expect("clock");
    assert_eq!(timezone.id(), "America/Vancouver");
    assert_eq!(clock.timezone_id(), "America/Vancouver");
    assert_eq!(
        jiff::Timestamp::from_millisecond(0)
            .expect("timestamp")
            .to_zoned(timezone.zone().clone())
            .year(),
        1969
    );
}

#[test]
fn invalid_timezone_is_typed() {
    let error = timezone_from_id("Mars/Base").err().expect("invalid timezone");
    assert_eq!(
        error,
        TimelineDateError::InvalidTimezone("Mars/Base".to_owned())
    );
}

#[test]
fn representable_timestamp_edges_are_valid() {
    let min = jiff::Timestamp::MIN.as_millisecond();
    let max = jiff::Timestamp::MAX.as_second() * 1_000;
    assert_eq!(min, MIN_UNIX_MS);
    assert_eq!(max, MAX_UNIX_MS);
    assert_eq!(timestamp_from_millis(min), Ok(()));
    assert_eq!(timestamp_from_millis(max), Ok(()));
    assert_eq!(
        timestamp_from_millis(max + 1),
        Err(TimelineDateError::InvalidTimestamp(max + 1))
    );
    assert_eq!(
        timestamp_from_millis(min - 1),
        Err(TimelineDateError::InvalidTimestamp(min - 1))
    );
}

#[test]
fn out_of_range_timestamps_are_typed() {
    assert_eq!(
        timestamp_from_millis(i64::MIN),
        Err(TimelineDateError::InvalidTimestamp(i64::MIN))
    );
    assert_eq!(
        timestamp_from_millis(i64::MAX),
        Err(TimelineDateError::InvalidTimestamp(i64::MAX))
    );
}

#[test]
fn clock_rejects_unknown_zone_and_out_of_range_now() {
    assert_eq!(
        ValidatedClock::new(0, "Mars/Base").err(),
        Some(TimelineDateError::InvalidTimezone("Mars/Base".to_owned()))
    );
    assert_eq!(
        ValidatedClock::new(i64::MIN, "UTC").err(),
        Some(TimelineDateError::InvalidTimestamp(i64::MIN))
    );
    let clock = ValidatedClock::new(1_000, "UTC").expect("clock");
    assert_eq!(clock.now_millis(), 1_000);
    assert_eq!(clock.local_date(0), date(1970, 1, 1));
}

#[test]
fn feed_out_of_range_now_is_typed() {
    let formatter = formatter(i64::MAX, "UTC");
    assert_eq!(
        formatter.classify_millis(0, TimelineDateStyle::Feed),
        Err(TimelineDateError::InvalidTimestamp(i64::MAX))
    );
    assert_eq!(
        formatter.classify_millis(0, TimelineDateStyle::Detail),
        Ok(TimelineDateBucket::Detail)
    );
}

#[test]
fn fixed_buckets_only_check_the_event() {
    assert_eq!(
        classify_fixed_millis(MAX_UNIX_MS, TimelineDateBucket::Audit),
        Ok(TimelineDateBucket::Audit)
    );
    assert_eq!(
        classify_fixed_millis(MAX_UNIX_MS + 1, TimelineDateBucket::Audit),
        Err(TimelineDateError::InvalidTimestamp(MAX_UNIX_MS + 1))
    );
}

#[test]
fn recent_events_are_classified_by_elapsed_time() {
    let policy = FuturePolicy { skew_seconds: 30 };
    let d = date(2026, 6, 8);
    let now = 1_000_000_000;
    assert_eq!(classify_feed_dates(now - 59_999, now, policy, d, d), TimelineDateBucket::JustNow);
    assert_eq!(
        classify_feed_dates(now - 60_000, now, policy, d, d),
        TimelineDateBucket::MinutesAgo { minutes: 1 }
    );
    assert_eq!(
        classify_feed_dates(now - 3_599_999, now, policy, d, d),
        TimelineDateBucket::MinutesAgo { minutes: 59 }
    );
    assert_eq!(classify_feed_dates(now - 3_600_000, now, policy, d, d), TimelineDateBucket::Today);
    assert_eq!(classify_feed_dates(now + 30_000, now, policy, d, d), TimelineDateBucket::JustNow);
    assert_eq!(classify_feed_dates(now + 30_001, now, policy, d, d), TimelineDateBucket::Future);
}

#[test]
fn negative_skew_counts_as_none() {
    let d = date(2026, 6, 8);
    let now = 0;
    assert_eq!(
        classify_feed_dates(now + 1, now, FuturePolicy { skew_seconds: -10 }, d, d),
        TimelineDateBucket::Future
    );
    assert_eq!(
        classify_feed_dates(now, now, FuturePolicy { skew_seconds: -10 }, d, d),
        TimelineDateBucket::JustNow
    );
}

#[test]
fn old_events_are_classified_by_civil_dates() {
    let policy = FuturePolicy::default();
    let now_ms = 10_000_000_000;
    let event_ms = now_ms - 10 * 3_600_000;
    let now = date(2024, 3, 1);
    let cases = [
        (date(2024, 3, 1), TimelineDateBucket::Today),
        (date(2024, 2, 29), TimelineDateBucket::Yesterday),
        (date(2024, 2, 28), TimelineDateBucket::Weekday),
        (date(2024, 2, 24), TimelineDateBucket::Weekday),
        (date(2024, 2, 23), TimelineDateBucket::SameYear),
        (date(2023, 12, 31), TimelineDateBucket::Older),
    ];
    for (event, expected) in cases {
        assert_eq!(classify_feed_dates(event_ms, now_ms, policy, event, now), expected);
    }
    assert_eq!(
        classify_feed_dates(event_ms, now_ms, policy, date(2023, 12, 31), date(2024, 1, 1)),
        TimelineDateBucket::Yesterday
    );
}

#[test]
fn instants_on_the_same_local_date_share_a_bucket() {
    let policy = FuturePolicy::default();
    let now_ms = 50_000_000_000;
    let event_date = date(2026, 6, 5);
    let now_date = date(2026, 6, 8);
    let early = classify_feed_dates(now_ms - 3_600_000, now_ms, policy, event_date, now_date);
    let late = classify_feed_dates(now_ms - 90_000_000, now_ms, policy, event_date, now_date);
    assert_eq!(early, late);
    assert_eq!(early, TimelineDateBucket::Weekday);
}

#[test]
fn cloned_clock_keeps_validated_state() {
    let clock = ValidatedClock::new(0, "UTC").expect("clock");
    let cloned = clock.clone();
    assert_eq!(cloned.now_millis(), 0);
    assert_eq!(cloned.local_date(0).year, 1970);
}

#[test]
fn timezone_lookup_result_reports_unknown_identifier() {
    assert_eq!(
        timezone_lookup_result("Mars/Base", Err(jiff::tz::TimeZone::get("Mars/Base").unwrap_err()))
            .err(),
        Some(TimelineDateError::InvalidTimezone("Mars/Base".to_owned()))
    );
    let found = timezone_from_id("UTC").expect("utc");
    assert_eq!(found.id(), "UTC");
    assert_eq!(found.clone().id(), "UTC");
}

#[test]
fn older_utc_events_never_read_more_recent() {
    let now = ms("2026-06-08T12:00:00Z");
    let clock = ValidatedClock::new(now, "UTC").expect("clock");
    let events = [
        ms("2025-06-08T12:00:00Z"),
        ms("2026-01-02T12:00:00Z"),
        ms("2026-06-04T12:00:00Z"),
        ms("2026-06-07T12:00:00Z"),
        ms("2026-06-08T01:00:00Z"),
        ms("2026-06-08T11:30:00Z"),
        ms("2026-06-08T11:50:00Z"),
        ms("2026-06-08T11:59:30Z"),
    ];
    let expected = [
        TimelineDateBucket::Older,
        TimelineDateBucket::SameYear,
        TimelineDateBucket::Weekday,
        TimelineDateBucket::Yesterday,
        TimelineDateBucket::Today,
        TimelineDateBucket::MinutesAgo { minutes: 30 },
        TimelineDateBucket::MinutesAgo { minutes: 10 },
        TimelineDateBucket::JustNow,
    ];
    for (event, bucket) in events.iter().zip(expected) {
        assert_eq!(
            classify_feed_millis(*event, &clock, FuturePolicy::default()),
            Ok(bucket)
        );
    }
}

#[test]
fn clock_from_lookup_checks_the_instant_after_the_zone() {
    assert_eq!(
        ValidatedClock::clock_from_lookup(
            0,
            Err(TimelineDateError::InvalidTimezone("Mars/Base".to_owned())),
        )
        .err(),
        Some(TimelineDateError::InvalidTimezone("Mars/Base".to_owned()))
    );
    assert_eq!(
        ValidatedClock::clock_from_lookup(i64::MAX, timezone_from_id("UTC")).err(),
        Some(TimelineDateError::InvalidTimestamp(i64::MAX))
    );
    let clock = ValidatedClock::clock_from_lookup(5, timezone_from_id("utc")).expect("clock");
    assert_eq!(clock.now_millis(), 5);
    assert_eq!(clock.timezone_id(), "utc");
}
