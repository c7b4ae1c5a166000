//! Formatting options and their builders.

use vstd::prelude::*;

use crate::text::{lemma_trim_idempotent, trim, trim_text};

verus! {

/// Which label family an event is rendered in.
#[derive(Debug, Clone, Copy, PartialEq, Eq, Hash, Structural)]
pub enum TimelineDateStyle {
    Feed,
    Detail,
    Audit,
}

/// Clock convention for rendered times.
#[derive(Debug, Clone, Copy, PartialEq, Eq, Hash, Structural)]
pub enum HourCycle {
    LocaleDefault,
    H12,
    H24,
}

/// How far in the future an event may lie and still read as "just now".
#[derive(Debug, Clone, Copy, PartialEq, Eq, Hash, Structural)]
pub struct FuturePolicy {
    pub skew_seconds: i64,
}

/// Whether old feed entries show a time next to their date.
#[derive(Debug, Clone, Copy, PartialEq, Eq, Hash, Structural)]
pub enum OldDateTimePolicy {
    DateOnly,
    DateTime,
}

/// The default tolerance for clock skew, in seconds.
pub const DEFAULT_SKEW_SECONDS: i64 = 30;

impl Default for FuturePolicy {
    fn default() -> (policy: Self)
        ensures
            policy.skew_seconds == DEFAULT_SKEW_SECONDS,
    {
        FuturePolicy { skew_seconds: DEFAULT_SKEW_SECONDS }
    }
}

/// Everything a formatter needs to know about its user and clock.
#[derive(Debug, PartialEq, Eq)]
pub struct TimelineDateOptions {
    pub now_unix_ms: i64,
    pub timezone: String,
    pub locale_preferences: Vec<String>,
    pub hour_cycle: HourCycle,
    pub future_policy: FuturePolicy,
    pub old_date_time_policy: OldDateTimePolicy,
}

/// The views of a list of strings.
pub open spec fn string_views(values: Seq<String>) -> Seq<Seq<char>> {
    values.map_values(|value: String| value@)
}

/// The views of a list of string slices.
pub open spec fn str_views(values: Seq<&str>) -> Seq<Seq<char>> {
    values.map_values(|value: &str| value@)
}

/// The trimmed values of `values`, in order, without those that are blank.
pub open spec fn trimmed_nonblank(values: Seq<Seq<char>>) -> Seq<Seq<char>>
    decreases values.len(),
{
    if values.len() == 0 {
        seq![]
    } else {
        let rest = trimmed_nonblank(values.drop_last());
        let value = trim(values.last());
        if value.len() == 0 {
            rest
        } else {
            rest.push(value)
        }
    }
}

/// Cleaning a cleaned list changes nothing: every kept value is trimmed and
/// non-blank.
pub proof fn lemma_cleaning_is_idempotent(values: Seq<Seq<char>>)
    ensures
        trimmed_nonblank(trimmed_nonblank(values)) == trimmed_nonblank(values),
        forall|i: int|
            0 <= i < trimmed_nonblank(values).len() ==> #[trigger] trimmed_nonblank(values)[i].len()
                > 0 && trim(trimmed_nonblank(values)[i]) == trimmed_nonblank(values)[i],
    decreases values.len(),
{
    if values.len() > 0 {
        let rest = trimmed_nonblank(values.drop_last());
        lemma_cleaning_is_idempotent(values.drop_last());
        let value = trim(values.last());
        lemma_trim_idempotent(values.last());
        if value.len() > 0 {
            let longer = rest.push(value);
            assert(longer.drop_last() =~= rest);
            assert forall|i: int| 0 <= i < longer.len() implies #[trigger] longer[i].len() > 0 && trim(
                longer[i],
            ) == longer[i] by {
                if i < rest.len() {
                    assert(longer[i] == rest[i]);
                }
            }
        }
    }
}

/// The locale preference list a formatter starts with.
pub open spec fn default_locale_preferences() -> Seq<Seq<char>> {
    seq!["en"@]
}

/// The trimmed values of `values`, in order, without those that are blank.
pub fn trimmed_nonblank_values(values: &[&str]) -> (cleaned: Vec<String>)
    ensures
    string_views(cleaned@) == trimmed_nonblank(str_views(values@)),
{
    let mut cleaned: Vec<String> = Vec::new();
    let n: usize = values.len();
    let mut i: usize = 0;
    while i < n
        invariant
            n == values@.len(),
            i <= n,
            string_views(cleaned@) == trimmed_nonblank(str_views(values@).take(i as int)),
        decreases n - i,
    {
        let value: String = trim_text(values[i]);
        let ghost before = cleaned@;
        proof {
            assert(str_views(values@).take(i + 1).drop_last() =~= str_views(values@).take(
                i as int,
            ));
            assert(str_views(values@).take(i + 1).last() == values@[i as int]@);
        }
        if value.unicode_len() > 0 {
            cleaned.push(value);
            proof {
                assert(string_views(cleaned@) =~= string_views(before).push(value@));
            }
        }
        i = i + 1;
    }
    proof {
        assert(str_views(values@).take(n as int) =~= str_views(values@));
    }
    cleaned
}

/// Borrows each string of a list.
pub fn str_list(values: &Vec<String>) -> (list: Vec<&str>)
    ensures
        str_views(list@) == string_views(values@),
{
    let mut list: Vec<&str> = Vec::new();
    let n: usize = values.len();
    let mut i: usize = 0;
    while i < n
        invariant
            n == values@.len(),
            i <= n,
            str_views(list@) == string_views(values@).take(i as int),
        decreases n - i,
    {
        let ghost before = list@;
        list.push(values[i].as_str());
        proof {
            assert(str_views(list@) =~= str_views(before).push(values@[i as int]@));
            assert(string_views(values@).take(i + 1) =~= string_views(values@).take(i as int).push(
                values@[i as int]@,
            ));
        }
        i = i + 1;
    }
    proof {
        assert(string_views(values@).take(n as int) =~= string_views(values@));
    }
    list
}

/// Two options hold the same values.
pub open spec fn same_options(a: TimelineDateOptions, b: TimelineDateOptions) -> bool {
    &&& a.now_unix_ms == b.now_unix_ms
    &&& a.timezone@ == b.timezone@
    &&& a.locale_preferences@ == b.locale_preferences@
    &&& a.hour_cycle == b.hour_cycle
    &&& a.future_policy == b.future_policy
    &&& a.old_date_time_policy == b.old_date_time_policy
}

impl Clone for TimelineDateOptions {
    /// A copy with the same values.
    fn clone(&self) -> (copy: Self)
        ensures
            same_options(copy, *self),
    {
        let locale_preferences = self.locale_preferences.clone();
        proof {
            assert forall|i: int| 0 <= i < locale_preferences@.len() implies locale_preferences@[i]
                == self.locale_preferences@[i] by {
                assert(vstd::pervasive::cloned::<String>(
                    self.locale_preferences[i],
                    locale_preferences[i],
                ));
            }
            assert(locale_preferences@ =~= self.locale_preferences@);
        }
        TimelineDateOptions {
            now_unix_ms: self.now_unix_ms,
            timezone: self.timezone.clone(),
            locale_preferences,
            hour_cycle: self.hour_cycle,
            future_policy: self.future_policy,
            old_date_time_policy: self.old_date_time_policy,
        }
    }
}

impl TimelineDateOptions {
    /// Options for `now_unix_ms` in `timezone`, preferring English, with the
    /// locale's hour cycle, the default skew tolerance and date-only old
    /// entries.
    pub fn new(now_unix_ms: i64, timezone: &str) -> (options: Self)
        ensures
            options.now_unix_ms == now_unix_ms,
            options.timezone@ == timezone@,
            string_views(options.locale_preferences@) == default_locale_preferences(),
            options.hour_cycle == HourCycle::LocaleDefault,
            options.future_policy.skew_seconds == DEFAULT_SKEW_SECONDS,
            options.old_date_time_policy == OldDateTimePolicy::DateOnly,
    {
        let mut locale_preferences: Vec<String> = Vec::new();
        locale_preferences.push(String::from_str("en"));
        proof {
            assert(string_views(locale_preferences@) =~= default_locale_preferences());
        }
        TimelineDateOptions {
            now_unix_ms,
            timezone: String::from_str(timezone),
            locale_preferences,
            hour_cycle: HourCycle::LocaleDefault,
            future_policy: FuturePolicy::default(),
            old_date_time_policy: OldDateTimePolicy::DateOnly,
        }
    }

    /// Replaces the locale preferences by the trimmed, non-blank `values`;
    /// when none is left, the current preferences stay.
    pub fn with_locale_preferences(self, values: &[&str]) -> (options: Self)
        ensures
            ({
                let cleaned = trimmed_nonblank(str_views(values@));
                string_views(options.locale_preferences@) == if cleaned.len() > 0 {
                    cleaned
                } else {
                    string_views(self.locale_preferences@)
                }
            }),
            options.now_unix_ms == self.now_unix_ms,
            options.timezone == self.timezone,
            options.hour_cycle == self.hour_cycle,
            options.future_policy == self.future_policy,
            options.old_date_time_policy == self.old_date_time_policy,
    {
        let cleaned: Vec<String> = trimmed_nonblank_values(values);
        let mut options = self;
        if cleaned.len() > 0 {
            options.locale_preferences = cleaned;
        }
        options
    }

    /// Sets the hour cycle.
    pub fn with_hour_cycle(self, hour_cycle: HourCycle) -> (options: Self)
        ensures
            options == (TimelineDateOptions { hour_cycle, ..self }),
    {
        let mut options = self;
        options.hour_cycle = hour_cycle;
        options
    }

    /// Sets the future-skew policy.
    pub fn with_future_policy(self, policy: FuturePolicy) -> (options: Self)
        ensures
            options == (TimelineDateOptions { future_policy: policy, ..self }),
    {
        let mut options = self;
        options.future_policy = policy;
        options
    }

    /// Sets the policy for old entries.
    pub fn with_old_date_time_policy(self, policy: OldDateTimePolicy) -> (options: Self)
        ensures
            options == (TimelineDateOptions { old_date_time_policy: policy, ..self }),
    {
        let mut options = self;
        options.old_date_time_policy = policy;
        options
    }
}

} // verus!
