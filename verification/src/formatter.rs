//! The formatter: validated options plus the negotiated locale.

use vstd::prelude::*;

use crate::bucket::TimelineDateBucket;
use crate::classify::{
    classify_feed_millis, classify_fixed_millis, feed_bucket_fits,
    lemma_fitting_feed_bucket_is_feed_label, lemma_utc_feed_buckets_read_older, recency_rank,
};
use crate::error::{TimelineDateError, TimelineDateResult};
use crate::backend::std_backend_error;
use crate::locale::{select_locale, selected_locale_for, supported_locale_views};
use crate::mf2::{prepare_selected, prepared_for, PreparedMessage};
use crate::options::{same_options, string_views, TimelineDateOptions, TimelineDateStyle};
use crate::time::{millis_in_range, names_utc, offsets_fit, ValidatedClock};

verus! {

/// Formats timeline dates for one user, clock and locale.
#[derive(Debug)]
pub struct TimelineDateFormatter {
    options: TimelineDateOptions,
    selected_locale: String,
}

/// What `classify_millis` answers for an event in a given style: for the
/// feed style, the feed bucket of the event and now in the zone looked up by
/// `timezone_id`, under some offsets that fit that identifier (which ones
/// comes from the time zone database).
pub open spec fn classification_fits(
    now_unix_ms: int,
    skew_seconds: int,
    event_unix_ms: int,
    timezone_id: Seq<char>,
    style: TimelineDateStyle,
    bucket: TimelineDateBucket,
) -> bool {
    match style {
        TimelineDateStyle::Detail => bucket == TimelineDateBucket::Detail,
        TimelineDateStyle::Audit => bucket == TimelineDateBucket::Audit,
        TimelineDateStyle::Feed => exists|offsets: spec_fn(int) -> int|
            #![trigger offsets_fit(offsets, timezone_id)]
            offsets_fit(offsets, timezone_id) && feed_bucket_fits(
                event_unix_ms,
                now_unix_ms,
                skew_seconds,
                offsets,
                bucket,
            ),
    }
}

impl TimelineDateFormatter {
    /// The selected locale is always one of the bundled locales.
    #[verifier::type_invariant]
    spec fn locale_is_bundled(self) -> bool {
        supported_locale_views().contains(self.selected_locale@)
    }

    /// The options the formatter was built with.
    pub closed spec fn options_spec(&self) -> TimelineDateOptions {
        self.options
    }

    /// The locale negotiated from the options' preferences.
    pub closed spec fn selected_locale_spec(&self) -> Seq<char> {
        self.selected_locale@
    }

    /// Builds a formatter, negotiating its locale from the preferences.
    pub fn new(options: TimelineDateOptions) -> (res: TimelineDateResult<Self>)
        ensures
            match selected_locale_for(string_views(options.locale_preferences@)) {
                Err(bad) => res matches Err(TimelineDateError::InvalidLocale(value)) && value@
                    == bad,
                Ok(selected) => res matches Ok(formatter) && formatter.options_spec() == options
                    && formatter.selected_locale_spec() == selected,
            },
            res matches Ok(formatter) ==> supported_locale_views().contains(
                formatter.selected_locale_spec(),
            ),
    {
        let selected_locale = select_locale(&options.locale_preferences)?;
        Ok(TimelineDateFormatter { options, selected_locale })
    }

    /// The options the formatter was built with.
    pub fn options(&self) -> (options: &TimelineDateOptions)
        ensures
            *options == self.options_spec(),
    {
        &self.options
    }

    /// The negotiated locale, one of the bundled locales.
    pub fn selected_locale(&self) -> (locale: &str)
        ensures
            locale@ == self.selected_locale_spec(),
            supported_locale_views().contains(locale@),
    {
        proof {
            use_type_invariant(self);
        }
        self.selected_locale.as_str()
    }

    /// Classifies an event instant in a style: the feed style compares it
    /// with the options' clock in their time zone, the detail and audit
    /// styles only check that the instant is representable.
    pub fn classify_millis(&self, event_unix_ms: i64, style: TimelineDateStyle) -> (res:
        TimelineDateResult<TimelineDateBucket>)
        ensures
            res matches Ok(bucket) ==> millis_in_range(event_unix_ms as int) && classification_fits(
                self.options_spec().now_unix_ms as int,
                self.options_spec().future_policy.skew_seconds as int,
                event_unix_ms as int,
                self.options_spec().timezone@,
                style,
                bucket,
            ),
            style != TimelineDateStyle::Feed ==> (res is Ok <==> millis_in_range(
                event_unix_ms as int,
            )),
            style == TimelineDateStyle::Feed ==> (res is Ok ==> millis_in_range(
                self.options_spec().now_unix_ms as int,
            )),
            !millis_in_range(event_unix_ms as int) ==> res is Err,
            res matches Err(e) ==> {
                ||| e == TimelineDateError::InvalidTimestamp(event_unix_ms) && !millis_in_range(
                    event_unix_ms as int,
                )
                ||| style == TimelineDateStyle::Feed && e == TimelineDateError::InvalidTimestamp(
                    self.options_spec().now_unix_ms,
                ) && !millis_in_range(self.options_spec().now_unix_ms as int)
                ||| style == TimelineDateStyle::Feed && (e matches TimelineDateError::InvalidTimezone(
                    id,
                ) && id@ == self.options_spec().timezone@)
            },
    {
        match style {
            TimelineDateStyle::Feed => {
                let clock = ValidatedClock::new(
                    self.options.now_unix_ms,
                    self.options.timezone.as_str(),
                )?;
                classify_feed_millis(event_unix_ms, &clock, self.options.future_policy)
            },
            TimelineDateStyle::Detail => classify_fixed_millis(
                event_unix_ms,
                TimelineDateBucket::Detail,
            ),
            TimelineDateStyle::Audit => classify_fixed_millis(
                event_unix_ms,
                TimelineDateBucket::Audit,
            ),
        }
    }
}

impl TimelineDateFormatter {
    /// Classifies an event and prepares the message that words it in the
    /// formatter's locale, time zone and hour cycle.
    pub fn prepare_millis(&self, event_unix_ms: i64, style: TimelineDateStyle) -> (res:
        TimelineDateResult<PreparedMessage>)
        ensures
            res matches Ok(prepared) ==> prepared.backend.hour_cycle_spec()
                == self.options_spec().hour_cycle && prepared.backend.locale_spec()
                == self.selected_locale_spec() && prepared.backend.timezone_id_spec()
                == self.options_spec().timezone@,
            res matches Ok(prepared) ==> millis_in_range(event_unix_ms as int) && exists|
                bucket: TimelineDateBucket,
            |
                classification_fits(
                    self.options_spec().now_unix_ms as int,
                    self.options_spec().future_policy.skew_seconds as int,
                    event_unix_ms as int,
                    self.options_spec().timezone@,
                    style,
                    bucket,
                )
                    && prepared_for(
                    prepared,
                    self.selected_locale_spec(),
                    self.options_spec().timezone@,
                    self.options_spec().hour_cycle,
                    event_unix_ms,
                    style,
                    bucket,
                ),
            !millis_in_range(event_unix_ms as int) ==> res is Err,
            style == TimelineDateStyle::Feed ==> (res is Ok ==> millis_in_range(
                self.options_spec().now_unix_ms as int,
            )),
            res matches Err(e) ==> {
                ||| e == TimelineDateError::InvalidTimestamp(event_unix_ms) && !millis_in_range(
                    event_unix_ms as int,
                )
                ||| e == TimelineDateError::InvalidTimestamp(self.options_spec().now_unix_ms)
                    && !millis_in_range(self.options_spec().now_unix_ms as int)
                ||| (e matches TimelineDateError::InvalidTimezone(id) && id@
                    == self.options_spec().timezone@)
                ||| (e matches TimelineDateError::InvalidLocale(m) && std_backend_error(
                    self.selected_locale_spec(),
                ) == Some(m@))
            },
    {
        let bucket = self.classify_millis(event_unix_ms, style)?;
        proof {
            if style == TimelineDateStyle::Feed {
                let offsets = choose|offsets: spec_fn(int) -> int|
                    #![trigger offsets_fit(offsets, self.options.timezone@)]
                    offsets_fit(offsets, self.options.timezone@) && feed_bucket_fits(
                        event_unix_ms as int,
                        self.options.now_unix_ms as int,
                        self.options.future_policy.skew_seconds as int,
                        offsets,
                        bucket,
                    );
                lemma_fitting_feed_bucket_is_feed_label(
                    event_unix_ms as int,
                    self.options.now_unix_ms as int,
                    self.options.future_policy.skew_seconds as int,
                    offsets,
                    bucket,
                );
            }
        }
        prepare_selected(
            self.selected_locale.as_str(),
            self.options.timezone.as_str(),
            self.options.hour_cycle,
            event_unix_ms,
            style,
            bucket,
        )
    }
}

impl Clone for TimelineDateFormatter {
    fn clone(&self) -> (copy: Self)
        ensures
            same_options(copy.options_spec(), self.options_spec()),
            copy.selected_locale_spec() == self.selected_locale_spec(),
    {
        proof {
            use_type_invariant(self);
        }
        TimelineDateFormatter {
            options: self.options.clone(),
            selected_locale: self.selected_locale.clone(),
        }
    }
}

/// The law about older events reaches a formatter: with a time zone named
/// "UTC", an older event never gets a more recent feed bucket than a newer
/// one at the same "now", and of two "minutes ago" buckets the older event's
/// counts at least as many minutes.
pub proof fn lemma_utc_classifications_read_older(
    now_unix_ms: int,
    skew_seconds: int,
    older_ms: int,
    newer_ms: int,
    timezone_id: Seq<char>,
    older: TimelineDateBucket,
    newer: TimelineDateBucket,
)
    requires
        older_ms <= newer_ms <= now_unix_ms,
        names_utc(timezone_id),
        classification_fits(
            now_unix_ms,
            skew_seconds,
            older_ms,
            timezone_id,
            TimelineDateStyle::Feed,
            older,
        ),
        classification_fits(
            now_unix_ms,
            skew_seconds,
            newer_ms,
            timezone_id,
            TimelineDateStyle::Feed,
            newer,
        ),
    ensures
        recency_rank(older) >= recency_rank(newer),
        older is MinutesAgo && newer is MinutesAgo ==> older->minutes >= newer->minutes,
{
    let older_offsets = choose|offsets: spec_fn(int) -> int|
        #![trigger offsets_fit(offsets, timezone_id)]
        offsets_fit(offsets, timezone_id) && feed_bucket_fits(
            older_ms,
            now_unix_ms,
            skew_seconds,
            offsets,
            older,
        );
    let newer_offsets = choose|offsets: spec_fn(int) -> int|
        #![trigger offsets_fit(offsets, timezone_id)]
        offsets_fit(offsets, timezone_id) && feed_bucket_fits(
            newer_ms,
            now_unix_ms,
            skew_seconds,
            offsets,
            newer,
        );
    assert(older_offsets =~= newer_offsets);
    lemma_utc_feed_buckets_read_older(
        older_ms,
        newer_ms,
        now_unix_ms,
        skew_seconds,
        older_offsets,
        older,
        newer,
    );
}

} // verus!
