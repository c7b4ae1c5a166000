//! Classification of an event instant relative to "now".

use vstd::prelude::*;

use crate::bucket::TimelineDateBucket;
use crate::error::{TimelineDateError, TimelineDateResult};
use crate::options::FuturePolicy;
use crate::time::{
    date_at_offset, lemma_days_order_dates, MAX_OFFSET_MS, MILLIS_PER_DAY, jiff_date_duration_secs, millis_in_range, timestamp_from_millis, CivilDate, ValidatedClock,
};

verus! {

pub const MILLIS_PER_MINUTE: i128 = 60_000;

pub const MILLIS_PER_HOUR: i128 = 3_600_000;

pub const SECONDS_PER_DAY: i64 = 86_400;

/// The bucket of an event `delta_ms` before now (negative: after now) when
/// less than an hour has passed, or `None` when the calendar decides.
pub open spec fn recent_bucket(delta_ms: int, skew_seconds: int) -> Option<TimelineDateBucket> {
    if delta_ms < 0 {
        let skew_ms = if skew_seconds > 0 {
            skew_seconds * 1000
        } else {
            0
        };
        if -delta_ms <= skew_ms {
            Some(TimelineDateBucket::JustNow)
        } else {
            Some(TimelineDateBucket::Future)
        }
    } else if delta_ms < MILLIS_PER_MINUTE as int {
        Some(TimelineDateBucket::JustNow)
    } else if delta_ms < MILLIS_PER_HOUR as int {
        Some(TimelineDateBucket::MinutesAgo { minutes: (delta_ms / (MILLIS_PER_MINUTE as int)) as u32 })
    } else {
        None
    }
}

/// The bucket of an event at least an hour old, from the civil dates of the
/// event and of now in the user's time zone.
pub open spec fn calendar_bucket(event_date: CivilDate, now_date: CivilDate) -> TimelineDateBucket {
    let day_delta = now_date.days() - event_date.days();
    if event_date == now_date {
        TimelineDateBucket::Today
    } else if day_delta == 1 {
        TimelineDateBucket::Yesterday
    } else if 2 <= day_delta <= 6 {
        TimelineDateBucket::Weekday
    } else if event_date.year == now_date.year {
        TimelineDateBucket::SameYear
    } else {
        TimelineDateBucket::Older
    }
}

/// The feed bucket of an event at `event_ms` seen at `now_ms`, where the two
/// instants fall on `event_date` and `now_date` in the user's time zone.
pub open spec fn feed_bucket(
    event_ms: int,
    now_ms: int,
    skew_seconds: int,
    event_date: CivilDate,
    now_date: CivilDate,
) -> TimelineDateBucket {
    match recent_bucket(now_ms - event_ms, skew_seconds) {
        Some(bucket) => bucket,
        None => calendar_bucket(event_date, now_date),
    }
}

/// Whether `bucket` is the feed bucket of an event at `event_ms` seen at
/// `now_ms` in a time zone with the offsets `offsets`: the recent buckets
/// follow from the instants alone; otherwise the bucket is the calendar
/// bucket of the local dates of the two instants under the zone's offsets
/// at those instants.
pub open spec fn feed_bucket_fits(
    event_ms: int,
    now_ms: int,
    skew_seconds: int,
    offsets: spec_fn(int) -> int,
    bucket: TimelineDateBucket,
) -> bool {
    match recent_bucket(now_ms - event_ms, skew_seconds) {
        Some(recent) => bucket == recent,
        None => exists|event_date: CivilDate, now_date: CivilDate|
            {
                &&& event_date.is_valid()
                &&& now_date.is_valid()
                &&& #[trigger] date_at_offset(event_date, event_ms, offsets(event_ms))
                &&& #[trigger] date_at_offset(now_date, now_ms, offsets(now_ms))
                &&& bucket == calendar_bucket(event_date, now_date)
            },
    }
}

fn classify_recent(delta_ms: i128, skew_seconds: i64) -> (bucket: Option<TimelineDateBucket>)
    requires
        -(u64::MAX as int) <= delta_ms <= u64::MAX as int,
    ensures
        bucket == recent_bucket(delta_ms as int, skew_seconds as int),
{
    if delta_ms < 0 {
        let skew: i128 = if skew_seconds > 0 {
            skew_seconds as i128
        } else {
            0
        };
        let skew_ms: i128 = skew * 1000;
        return if -delta_ms <= skew_ms {
            Some(TimelineDateBucket::JustNow)
        } else {
            Some(TimelineDateBucket::Future)
        };
    }
    if delta_ms < MILLIS_PER_MINUTE {
        return Some(TimelineDateBucket::JustNow);
    }
    if delta_ms < MILLIS_PER_HOUR {
        return Some(TimelineDateBucket::MinutesAgo { minutes: (delta_ms / MILLIS_PER_MINUTE) as u32 });
    }
    None
}

fn classify_calendar(event_date: CivilDate, now_date: CivilDate) -> (bucket: TimelineDateBucket)
    requires
        event_date.is_valid(),
        now_date.is_valid(),
    ensures
        bucket == calendar_bucket(event_date, now_date),
{
    if event_date == now_date {
        return TimelineDateBucket::Today;
    }
    let secs: i64 = jiff_date_duration_secs(event_date, now_date);
    let day_delta: i64 = secs / SECONDS_PER_DAY;
    assert(day_delta == now_date.days() - event_date.days()) by (nonlinear_arith)
        requires
            secs == (now_date.days() - event_date.days()) * 86400,
            day_delta == secs / 86400,
    ;
    if day_delta == 1 {
        return TimelineDateBucket::Yesterday;
    }
    if 2 <= day_delta && day_delta <= 6 {
        return TimelineDateBucket::Weekday;
    }
    if event_date.year == now_date.year {
        return TimelineDateBucket::SameYear;
    }
    TimelineDateBucket::Older
}

/// The feed bucket of an event, given the civil dates of the event and of
/// now in the user's time zone.
pub fn classify_feed_dates(
    event_unix_ms: i64,
    now_unix_ms: i64,
    future_policy: FuturePolicy,
    event_date: CivilDate,
    now_date: CivilDate,
) -> (bucket: TimelineDateBucket)
    requires
        event_date.is_valid(),
        now_date.is_valid(),
    ensures
        bucket == feed_bucket(
            event_unix_ms as int,
            now_unix_ms as int,
            future_policy.skew_seconds as int,
            event_date,
            now_date,
        ),
{
    let delta: i128 = now_unix_ms as i128 - event_unix_ms as i128;
    match classify_recent(delta, future_policy.skew_seconds) {
        Some(bucket) => bucket,
        None => classify_calendar(event_date, now_date),
    }
}

/// Validates the event instant and classifies it for the feed style against
/// the clock. The civil dates are the local dates of the event and of now
/// under the offsets of the clock's time zone at those instants; which
/// offsets the zone uses comes from the time zone database.
pub fn classify_feed_millis(
    event_unix_ms: i64,
    clock: &ValidatedClock,
    future_policy: FuturePolicy,
) -> (res: TimelineDateResult<TimelineDateBucket>)
    requires
        clock.is_valid(),
    ensures
        res is Err <==> !millis_in_range(event_unix_ms as int),
        res is Err ==> res == Err::<TimelineDateBucket, TimelineDateError>(
            TimelineDateError::InvalidTimestamp(event_unix_ms),
        ),
        res matches Ok(bucket) ==> feed_bucket_fits(
            event_unix_ms as int,
            clock.now_spec(),
            future_policy.skew_seconds as int,
            clock.offsets_spec(),
            bucket,
        ),
{
    timestamp_from_millis(event_unix_ms)?;
    let now_unix_ms: i64 = clock.now_millis();
    let delta: i128 = now_unix_ms as i128 - event_unix_ms as i128;
    if let Some(bucket) = classify_recent(delta, future_policy.skew_seconds) {
        return Ok(bucket);
    }
    let event_date = clock.local_date(event_unix_ms);
    let now_date = clock.local_date(now_unix_ms);
    let bucket = classify_calendar(event_date, now_date);
    assert(date_at_offset(event_date, event_unix_ms as int, clock.offsets_spec()(event_unix_ms as int)));
    assert(date_at_offset(now_date, clock.now_spec(), clock.offsets_spec()(clock.now_spec())));
    Ok(bucket)
}

/// A feed bucket is never one of the fixed buckets of the detail and audit
/// styles.
pub proof fn lemma_feed_bucket_is_feed_label(
    event_ms: int,
    now_ms: int,
    skew_seconds: int,
    event_date: CivilDate,
    now_date: CivilDate,
)
    ensures
        feed_bucket(event_ms, now_ms, skew_seconds, event_date, now_date) !is Detail,
        feed_bucket(event_ms, now_ms, skew_seconds, event_date, now_date) !is Audit,
{
}

/// A fitting feed bucket is never one of the fixed buckets of the detail and
/// audit styles.
pub proof fn lemma_fitting_feed_bucket_is_feed_label(
    event_ms: int,
    now_ms: int,
    skew_seconds: int,
    offsets: spec_fn(int) -> int,
    bucket: TimelineDateBucket,
)
    requires
        feed_bucket_fits(event_ms, now_ms, skew_seconds, offsets, bucket),
    ensures
        bucket !is Detail,
        bucket !is Audit,
{
}

/// Civil-day semantics: once an event is at least an hour old, its bucket
/// depends only on its local date, not on the instant within that date.
pub proof fn lemma_bucket_depends_on_local_date(
    first_event_ms: int,
    second_event_ms: int,
    now_ms: int,
    skew_seconds: int,
    event_date: CivilDate,
    now_date: CivilDate,
)
    requires
        now_ms - first_event_ms >= MILLIS_PER_HOUR,
        now_ms - second_event_ms >= MILLIS_PER_HOUR,
    ensures
        feed_bucket(first_event_ms, now_ms, skew_seconds, event_date, now_date) == feed_bucket(
            second_event_ms,
            now_ms,
            skew_seconds,
            event_date,
            now_date,
        ),
{
}

/// An event at least an hour old is "today" exactly when it falls on the
/// same local date as now.
pub proof fn lemma_today_is_same_local_date(
    event_ms: int,
    now_ms: int,
    skew_seconds: int,
    event_date: CivilDate,
    now_date: CivilDate,
)
    requires
        now_ms - event_ms >= MILLIS_PER_HOUR,
    ensures
        (feed_bucket(event_ms, now_ms, skew_seconds, event_date, now_date)
            == TimelineDateBucket::Today) <==> event_date == now_date,
{
}

/// An event after now reads "just now" while it is within the skew
/// tolerance (a negative tolerance counting as none) and "future" beyond.
pub proof fn lemma_future_events_respect_skew(
    event_ms: int,
    now_ms: int,
    skew_seconds: int,
    event_date: CivilDate,
    now_date: CivilDate,
)
    requires
        event_ms > now_ms,
    ensures
        feed_bucket(event_ms, now_ms, skew_seconds, event_date, now_date) == if event_ms - now_ms
            <= (if skew_seconds > 0 {
            skew_seconds
        } else {
            0
        }) * 1000 {
            TimelineDateBucket::JustNow
        } else {
            TimelineDateBucket::Future
        },
{
}

/// A non-positive skew tolerance behaves as no tolerance at all.
pub proof fn lemma_nonpositive_skew_is_zero(
    event_ms: int,
    now_ms: int,
    skew_seconds: int,
    event_date: CivilDate,
    now_date: CivilDate,
)
    requires
        skew_seconds <= 0,
    ensures
        feed_bucket(event_ms, now_ms, skew_seconds, event_date, now_date) == feed_bucket(
            event_ms,
            now_ms,
            0,
            event_date,
            now_date,
        ),
{
}

/// An event between one minute and one hour old reads "n minutes ago" with
/// the whole minutes elapsed, from 1 to 59.
pub proof fn lemma_minutes_ago_counts_whole_minutes(
    event_ms: int,
    now_ms: int,
    skew_seconds: int,
    event_date: CivilDate,
    now_date: CivilDate,
)
    requires
        MILLIS_PER_MINUTE <= now_ms - event_ms < MILLIS_PER_HOUR,
    ensures
        feed_bucket(event_ms, now_ms, skew_seconds, event_date, now_date) matches
            TimelineDateBucket::MinutesAgo { minutes } && 1 <= minutes <= 59 && minutes
            * MILLIS_PER_MINUTE <= now_ms - event_ms < (minutes + 1) * MILLIS_PER_MINUTE,
{
    let delta = now_ms - event_ms;
    let m = delta / (MILLIS_PER_MINUTE as int);
    assert(m * 60000 <= delta < (m + 1) * 60000 && 1 <= m <= 59) by (nonlinear_arith)
        requires
            60000 <= delta < 3600000,
            m == delta / 60000,
    ;
}

/// Validates the event instant and returns the fixed bucket of a style that
/// does not depend on "now".
pub fn classify_fixed_millis(event_unix_ms: i64, bucket: TimelineDateBucket) -> (res:
    TimelineDateResult<TimelineDateBucket>)
    ensures
        res is Ok <==> millis_in_range(event_unix_ms as int),
        res is Ok ==> res == Ok::<TimelineDateBucket, TimelineDateError>(bucket),
        res is Err ==> res == Err::<TimelineDateBucket, TimelineDateError>(
            TimelineDateError::InvalidTimestamp(event_unix_ms),
        ),
{
    timestamp_from_millis(event_unix_ms)?;
    Ok(bucket)
}

/// How long ago a feed bucket reads, from the most recent to the oldest;
/// the other buckets come last.
pub open spec fn recency_rank(bucket: TimelineDateBucket) -> int {
    match bucket {
        TimelineDateBucket::JustNow => 0,
        TimelineDateBucket::MinutesAgo { .. } => 1,
        TimelineDateBucket::Today => 2,
        TimelineDateBucket::Yesterday => 3,
        TimelineDateBucket::Weekday => 4,
        TimelineDateBucket::SameYear => 5,
        TimelineDateBucket::Older => 6,
        _ => 7,
    }
}

/// In a zone with one fixed offset, UTC among them, an older event never
/// reads as more recent than a newer one seen at the same "now", and of two
/// "minutes ago" labels the older event's counts at least as many minutes.
pub proof fn lemma_older_events_read_older(
    older_ms: int,
    newer_ms: int,
    now_ms: int,
    skew_seconds: int,
    offset_ms: int,
    older_date: CivilDate,
    newer_date: CivilDate,
    now_date: CivilDate,
)
    requires
        older_ms <= newer_ms <= now_ms,
        older_date.is_valid(),
        newer_date.is_valid(),
        now_date.is_valid(),
        date_at_offset(older_date, older_ms, offset_ms),
        date_at_offset(newer_date, newer_ms, offset_ms),
        date_at_offset(now_date, now_ms, offset_ms),
    ensures
        recency_rank(feed_bucket(older_ms, now_ms, skew_seconds, older_date, now_date))
            >= recency_rank(feed_bucket(newer_ms, now_ms, skew_seconds, newer_date, now_date)),
        ({
            let older = feed_bucket(older_ms, now_ms, skew_seconds, older_date, now_date);
            let newer = feed_bucket(newer_ms, now_ms, skew_seconds, newer_date, now_date);
            older is MinutesAgo && newer is MinutesAgo ==> older->minutes >= newer->minutes
        }),
{
    assert(older_date.days() <= newer_date.days());
    assert(newer_date.days() <= now_date.days());
    lemma_days_order_dates(older_date, newer_date);
    lemma_days_order_dates(newer_date, now_date);
    lemma_days_order_dates(older_date, now_date);
    let older_delta = now_ms - older_ms;
    let newer_delta = now_ms - newer_ms;
    if MILLIS_PER_MINUTE <= newer_delta && older_delta < MILLIS_PER_HOUR {
        vstd::arithmetic::div_mod::lemma_div_is_ordered(newer_delta, older_delta, 60000);
        vstd::arithmetic::div_mod::lemma_div_is_ordered(older_delta, 3_599_999, 60000);
        vstd::arithmetic::div_mod::lemma_div_is_ordered(0, newer_delta, 60000);
        assert(3_599_999int / 60000 == 59);
        assert(0int / 60000 == 0);
        let older_minutes = older_delta / (MILLIS_PER_MINUTE as int);
        let newer_minutes = newer_delta / (MILLIS_PER_MINUTE as int);
        assert(0 <= newer_minutes <= older_minutes <= 59);
        assert(older_minutes as u32 == older_minutes);
        assert(newer_minutes as u32 == newer_minutes);
        assert(recent_bucket(older_delta, skew_seconds) == Some(
            TimelineDateBucket::MinutesAgo { minutes: older_minutes as u32 },
        ));
        assert(recent_bucket(newer_delta, skew_seconds) == Some(
            TimelineDateBucket::MinutesAgo { minutes: newer_minutes as u32 },
        ));
    }
}

/// With an offset of at most 25:59:59, UTC among them, the local date of an
/// instant is one that shows it.
pub proof fn lemma_offset_date_shows(date: CivilDate, unix_ms: int, offset_ms: int)
    requires
        -MAX_OFFSET_MS <= offset_ms <= MAX_OFFSET_MS,
        date_at_offset(date, unix_ms, offset_ms),
    ensures
        date.shows(unix_ms),
{
}

/// In a zone whose offsets are all zero, as the zone looked up by "UTC" is,
/// an older event never gets a more recent fitting feed bucket than a newer
/// one seen at the same "now", and of two "minutes ago" buckets the older
/// event's counts at least as many minutes.
pub proof fn lemma_utc_feed_buckets_read_older(
    older_ms: int,
    newer_ms: int,
    now_ms: int,
    skew_seconds: int,
    offsets: spec_fn(int) -> int,
    older: TimelineDateBucket,
    newer: TimelineDateBucket,
)
    requires
        older_ms <= newer_ms <= now_ms,
        forall|t: int| #[trigger] offsets(t) == 0,
        feed_bucket_fits(older_ms, now_ms, skew_seconds, offsets, older),
        feed_bucket_fits(newer_ms, now_ms, skew_seconds, offsets, newer),
    ensures
        recency_rank(older) >= recency_rank(newer),
        older is MinutesAgo && newer is MinutesAgo ==> older->minutes >= newer->minutes,
{
    let older_delta = now_ms - older_ms;
    let newer_delta = now_ms - newer_ms;
    if newer_delta >= MILLIS_PER_HOUR {
        let (older_date, older_now) = choose|event_date: CivilDate, now_date: CivilDate|
            {
                &&& event_date.is_valid()
                &&& now_date.is_valid()
                &&& #[trigger] date_at_offset(event_date, older_ms, offsets(older_ms))
                &&& #[trigger] date_at_offset(now_date, now_ms, offsets(now_ms))
                &&& older == calendar_bucket(event_date, now_date)
            };
        let (newer_date, newer_now) = choose|event_date: CivilDate, now_date: CivilDate|
            {
                &&& event_date.is_valid()
                &&& now_date.is_valid()
                &&& #[trigger] date_at_offset(event_date, newer_ms, offsets(newer_ms))
                &&& #[trigger] date_at_offset(now_date, now_ms, offsets(now_ms))
                &&& newer == calendar_bucket(event_date, now_date)
            };
        assert(offsets(older_ms) == 0 && offsets(newer_ms) == 0 && offsets(now_ms) == 0);
        lemma_days_order_dates(older_now, newer_now);
        lemma_older_events_read_older(
            older_ms,
            newer_ms,
            now_ms,
            skew_seconds,
            0,
            older_date,
            newer_date,
            older_now,
        );
    } else if MILLIS_PER_MINUTE <= newer_delta && older_delta < MILLIS_PER_HOUR {
        vstd::arithmetic::div_mod::lemma_div_is_ordered(newer_delta, older_delta, 60000);
        vstd::arithmetic::div_mod::lemma_div_is_ordered(older_delta, 3_599_999, 60000);
        vstd::arithmetic::div_mod::lemma_div_is_ordered(0, newer_delta, 60000);
        assert(3_599_999int / 60000 == 59);
        assert(0int / 60000 == 0);
        let older_minutes = older_delta / (MILLIS_PER_MINUTE as int);
        let newer_minutes = newer_delta / (MILLIS_PER_MINUTE as int);
        assert(older_minutes as u32 == older_minutes);
        assert(newer_minutes as u32 == newer_minutes);
    }
}

/// The calendar buckets by how many local days the event lies before now:
/// the same day is "today", one day "yesterday", two to six days a weekday
/// whatever the years of the two dates, and otherwise the same year or an
/// older one.
pub proof fn lemma_calendar_bucket_by_day_delta(event_date: CivilDate, now_date: CivilDate)
    requires
        event_date.is_valid(),
        now_date.is_valid(),
    ensures
        now_date.days() - event_date.days() == 0 ==> calendar_bucket(event_date, now_date)
            == TimelineDateBucket::Today,
        now_date.days() - event_date.days() == 1 ==> calendar_bucket(event_date, now_date)
            == TimelineDateBucket::Yesterday,
        2 <= now_date.days() - event_date.days() <= 6 ==> calendar_bucket(event_date, now_date)
            == TimelineDateBucket::Weekday,
        (now_date.days() - event_date.days() >= 7 || now_date.days() < event_date.days())
            && event_date.year == now_date.year ==> calendar_bucket(event_date, now_date)
            == TimelineDateBucket::SameYear,
        (now_date.days() - event_date.days() >= 7 || now_date.days() < event_date.days())
            && event_date.year != now_date.year ==> calendar_bucket(event_date, now_date)
            == TimelineDateBucket::Older,
{
    lemma_days_order_dates(event_date, now_date);
}

/// An event at least an hour old whose local date lies two to six days
/// before now's local date reads as a weekday, also across a new year.
pub proof fn lemma_feed_weekday_across_years(
    event_ms: int,
    now_ms: int,
    skew_seconds: int,
    event_date: CivilDate,
    now_date: CivilDate,
)
    requires
        event_date.is_valid(),
        now_date.is_valid(),
        now_ms - event_ms >= MILLIS_PER_HOUR,
        2 <= now_date.days() - event_date.days() <= 6,
    ensures
        feed_bucket(event_ms, now_ms, skew_seconds, event_date, now_date)
            == TimelineDateBucket::Weekday,
        forall|offsets: spec_fn(int) -> int, bucket: TimelineDateBucket|
            feed_bucket_fits(event_ms, now_ms, skew_seconds, offsets, bucket) && date_at_offset(
                event_date,
                event_ms,
                offsets(event_ms),
            ) && date_at_offset(now_date, now_ms, offsets(now_ms)) ==> bucket
                == TimelineDateBucket::Weekday,
{
    lemma_calendar_bucket_by_day_delta(event_date, now_date);
    assert forall|offsets: spec_fn(int) -> int, bucket: TimelineDateBucket|
        feed_bucket_fits(event_ms, now_ms, skew_seconds, offsets, bucket) && date_at_offset(
            event_date,
            event_ms,
            offsets(event_ms),
        ) && date_at_offset(now_date, now_ms, offsets(now_ms)) implies bucket
        == TimelineDateBucket::Weekday by {
        let (ed, nd) = choose|ed: CivilDate, nd: CivilDate|
            {
                &&& ed.is_valid()
                &&& nd.is_valid()
                &&& #[trigger] date_at_offset(ed, event_ms, offsets(event_ms))
                &&& #[trigger] date_at_offset(nd, now_ms, offsets(now_ms))
                &&& bucket == calendar_bucket(ed, nd)
            };
        lemma_days_order_dates(ed, event_date);
        lemma_days_order_dates(event_date, ed);
        lemma_days_order_dates(nd, now_date);
        lemma_days_order_dates(now_date, nd);
    }
}

/// The thresholds of the recent buckets: an event less than a minute old
/// reads "just now", and from an hour on its local dates decide.
pub proof fn lemma_recent_thresholds(
    event_ms: int,
    now_ms: int,
    skew_seconds: int,
    event_date: CivilDate,
    now_date: CivilDate,
)
    ensures
        0 <= now_ms - event_ms < MILLIS_PER_MINUTE ==> feed_bucket(
            event_ms,
            now_ms,
            skew_seconds,
            event_date,
            now_date,
        ) == TimelineDateBucket::JustNow,
        now_ms - event_ms >= MILLIS_PER_HOUR ==> feed_bucket(
            event_ms,
            now_ms,
            skew_seconds,
            event_date,
            now_date,
        ) == calendar_bucket(event_date, now_date),
{
}

} // verus!
