//! From a classification to the catalog message that words it: the message
//! key, the arguments it reads, and the backend it is formatted with.

use vstd::prelude::*;

use crate::backend::{std_backend_error, TimelineDateBackend};
use crate::bucket::TimelineDateBucket;
use crate::error::{TimelineDateError, TimelineDateResult};
use crate::options::{HourCycle, TimelineDateStyle};

verus! {

/// The catalog key of the message for a style and bucket; the feed style
/// has no message for the fixed detail and audit buckets.
pub open spec fn message_key_for(style: TimelineDateStyle, bucket: TimelineDateBucket) -> Option<
    Seq<char>,
> {
    match style {
        TimelineDateStyle::Detail => Some("timeline_date.detail_datetime"@),
        TimelineDateStyle::Audit => Some("timeline_date.audit_datetime"@),
        TimelineDateStyle::Feed => match bucket {
            TimelineDateBucket::JustNow => Some("timeline_date.just_now"@),
            TimelineDateBucket::MinutesAgo { .. } => Some("timeline_date.minutes_ago"@),
            TimelineDateBucket::Today => Some("timeline_date.today_at_time"@),
            TimelineDateBucket::Yesterday => Some("timeline_date.yesterday_at_time"@),
            TimelineDateBucket::Weekday => Some("timeline_date.weekday_at_time"@),
            TimelineDateBucket::SameYear => Some("timeline_date.same_year_at_time"@),
            TimelineDateBucket::Older => Some("timeline_date.older_date"@),
            TimelineDateBucket::Future => Some("timeline_date.future_at_datetime"@),
            TimelineDateBucket::Detail => None,
            TimelineDateBucket::Audit => None,
        },
    }
}

/// The internal error reported for a bucket the feed style cannot word.
pub open spec fn invalid_feed_bucket_message(bucket: TimelineDateBucket) -> Seq<char> {
    if bucket is Detail {
        "invalid feed bucket: Detail"@
    } else {
        "invalid feed bucket: Audit"@
    }
}

/// The catalog key of the message for a style and bucket.
pub fn message_key(style: TimelineDateStyle, bucket: TimelineDateBucket) -> (res:
    TimelineDateResult<&'static str>)
    ensures
        match message_key_for(style, bucket) {
            Some(key) => res matches Ok(k) && k@ == key,
            None => res matches Err(TimelineDateError::Internal(m)) && m@
                == invalid_feed_bucket_message(bucket),
        },
{
    match style {
        TimelineDateStyle::Detail => Ok("timeline_date.detail_datetime"),
        TimelineDateStyle::Audit => Ok("timeline_date.audit_datetime"),
        TimelineDateStyle::Feed => match bucket {
            TimelineDateBucket::JustNow => Ok("timeline_date.just_now"),
            TimelineDateBucket::MinutesAgo { .. } => Ok("timeline_date.minutes_ago"),
            TimelineDateBucket::Today => Ok("timeline_date.today_at_time"),
            TimelineDateBucket::Yesterday => Ok("timeline_date.yesterday_at_time"),
            TimelineDateBucket::Weekday => Ok("timeline_date.weekday_at_time"),
            TimelineDateBucket::SameYear => Ok("timeline_date.same_year_at_time"),
            TimelineDateBucket::Older => Ok("timeline_date.older_date"),
            TimelineDateBucket::Future => Ok("timeline_date.future_at_datetime"),
            TimelineDateBucket::Detail => Err(
                TimelineDateError::Internal(String::from_str("invalid feed bucket: Detail")),
            ),
            TimelineDateBucket::Audit => Err(
                TimelineDateError::Internal(String::from_str("invalid feed bucket: Audit")),
            ),
        },
    }
}

/// Whether the message for a style and bucket shows the event's date or
/// time.
pub open spec fn uses_event(style: TimelineDateStyle, bucket: TimelineDateBucket) -> bool {
    match style {
        TimelineDateStyle::Detail | TimelineDateStyle::Audit => true,
        TimelineDateStyle::Feed => match bucket {
            TimelineDateBucket::Today | TimelineDateBucket::Yesterday | TimelineDateBucket::Weekday
            | TimelineDateBucket::SameYear | TimelineDateBucket::Older
            | TimelineDateBucket::Future => true,
            _ => false,
        },
    }
}

/// Whether the message for a style and bucket shows the event's date or
/// time.
pub fn message_uses_event(style: TimelineDateStyle, bucket: TimelineDateBucket) -> (uses: bool)
    ensures
        uses == uses_event(style, bucket),
{
    match style {
        TimelineDateStyle::Detail | TimelineDateStyle::Audit => true,
        TimelineDateStyle::Feed => match bucket {
            TimelineDateBucket::Today | TimelineDateBucket::Yesterday | TimelineDateBucket::Weekday
            | TimelineDateBucket::SameYear | TimelineDateBucket::Older
            | TimelineDateBucket::Future => true,
            _ => false,
        },
    }
}

/// The arguments a message reads: the event instant (Unix milliseconds),
/// the whole minutes elapsed, and the time zone identifier.
#[derive(Debug, Clone, PartialEq, Eq)]
pub struct MessageArgs {
    pub event: Option<i64>,
    pub minutes: Option<u32>,
    pub timezone: Option<String>,
}

/// The arguments a message needs, and no others.
pub fn message_args(
    event_unix_ms: i64,
    style: TimelineDateStyle,
    bucket: TimelineDateBucket,
    timezone: &str,
) -> (args: MessageArgs)
    ensures
        args.event == (if uses_event(style, bucket) {
            Some(event_unix_ms)
        } else {
            None
        }),
        args.minutes == (match (style, bucket) {
            (TimelineDateStyle::Feed, TimelineDateBucket::MinutesAgo { minutes }) => Some(minutes),
            _ => None,
        }),
        style == TimelineDateStyle::Audit ==> (args.timezone matches Some(tz) && tz@ == timezone@),
        style != TimelineDateStyle::Audit ==> args.timezone is None,
{
    let event = if message_uses_event(style, bucket) {
        Some(event_unix_ms)
    } else {
        None
    };
    let minutes = match (style, bucket) {
        (TimelineDateStyle::Feed, TimelineDateBucket::MinutesAgo { minutes }) => Some(minutes),
        _ => None,
    };
    let timezone = match style {
        TimelineDateStyle::Audit => Some(String::from_str(timezone)),
        _ => None,
    };
    MessageArgs { event, minutes, timezone }
}

/// Everything needed to word one event: the locale, the catalog key, the
/// message's arguments and the backend that formats its dates, times,
/// numbers and plural forms.
pub struct PreparedMessage {
    pub locale: String,
    pub key: &'static str,
    pub args: MessageArgs,
    pub backend: TimelineDateBackend,
}

/// `prepared` words an event at `event_unix_ms` that fell in `bucket`, in
/// `style`, for `locale`, `timezone` and `hour_cycle`.
pub open spec fn prepared_for(
    prepared: PreparedMessage,
    locale: Seq<char>,
    timezone: Seq<char>,
    hour_cycle: HourCycle,
    event_unix_ms: i64,
    style: TimelineDateStyle,
    bucket: TimelineDateBucket,
) -> bool {
    &&& message_key_for(style, bucket) == Some(prepared.key@)
    &&& prepared.locale@ == locale
    &&& prepared.backend.locale_spec() == locale
    &&& prepared.backend.hour_cycle_spec() == hour_cycle
    &&& prepared.backend.timezone_id_spec() == timezone
    &&& prepared.args.event == (if uses_event(style, bucket) {
        Some(event_unix_ms)
    } else {
        None
    })
    &&& prepared.args.minutes == (match (style, bucket) {
        (TimelineDateStyle::Feed, TimelineDateBucket::MinutesAgo { minutes }) => Some(minutes),
        _ => None,
    })
    &&& (style == TimelineDateStyle::Audit ==> (prepared.args.timezone matches Some(tz) && tz@
        == timezone))
    &&& (style != TimelineDateStyle::Audit ==> prepared.args.timezone is None)
}

/// Prepares the message for a classified event: the key is chosen first,
/// then the backend is built for the locale, time zone and hour cycle.
pub fn prepare_selected(
    selected_locale: &str,
    timezone: &str,
    hour_cycle: HourCycle,
    event_unix_ms: i64,
    style: TimelineDateStyle,
    bucket: TimelineDateBucket,
) -> (res: TimelineDateResult<PreparedMessage>)
    ensures
        message_key_for(style, bucket) is None ==> (res matches Err(TimelineDateError::Internal(m))
            && m@ == invalid_feed_bucket_message(bucket)),
        message_key_for(style, bucket) is Some ==> match std_backend_error(selected_locale@) {
            Some(message) => res matches Err(TimelineDateError::InvalidLocale(m)) && m@ == message,
            None => res is Ok || (res matches Err(TimelineDateError::InvalidTimezone(id)) && id@
                == timezone@),
        },
        res matches Ok(prepared) ==> prepared.backend.hour_cycle_spec() == hour_cycle
            && prepared.backend.locale_spec() == selected_locale@
            && prepared.backend.timezone_id_spec() == timezone@,
        res matches Ok(prepared) ==> prepared_for(
            prepared,
            selected_locale@,
            timezone@,
            hour_cycle,
            event_unix_ms,
            style,
            bucket,
        ),
{
    let key = message_key(style, bucket)?;
    let args = message_args(event_unix_ms, style, bucket, timezone);
    let backend = TimelineDateBackend::new(selected_locale, timezone, hour_cycle)?;
    Ok(PreparedMessage { locale: String::from_str(selected_locale), key, args, backend })
}

/// A prepared message's backend formats for the locale, time zone and hour
/// cycle the message was prepared for, so the user's hour-cycle option
/// reaches every time the message shows.
pub proof fn lemma_prepared_backend_follows_request(
    prepared: PreparedMessage,
    locale: Seq<char>,
    timezone: Seq<char>,
    hour_cycle: HourCycle,
    event_unix_ms: i64,
    style: TimelineDateStyle,
    bucket: TimelineDateBucket,
)
    requires
        prepared_for(prepared, locale, timezone, hour_cycle, event_unix_ms, style, bucket),
    ensures
        prepared.backend.hour_cycle_spec() == hour_cycle,
        prepared.backend.locale_spec() == locale,
        prepared.backend.timezone_id_spec() == timezone,
        prepared.locale@ == locale,
{
}

} // verus!
