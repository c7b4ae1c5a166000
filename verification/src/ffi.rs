//! The flat, string-based entry points for foreign callers, and the
//! parsing of their loosely written arguments.

use vstd::prelude::*;

use crate::backend::std_backend_error;
use crate::bucket::TimelineDateBucket;
use crate::error::TimelineDateError;
use crate::formatter::{classification_fits, TimelineDateFormatter};
use crate::locale::selected_locale_for;
use crate::mf2::{prepared_for, PreparedMessage};
use crate::options::{
    default_locale_preferences, lemma_cleaning_is_idempotent, str_list, string_views,
    trimmed_nonblank, trimmed_nonblank_values, HourCycle, TimelineDateOptions, TimelineDateStyle, DEFAULT_SKEW_SECONDS,
};
use crate::time::millis_in_range;
use crate::text::{ascii_lower, equals_ascii_lowercased, trim, trim_text};

verus! {

/// The error kinds reported to foreign callers, without payloads.
#[derive(Debug, Clone, Copy, PartialEq, Eq, Structural)]
pub enum TimelineDateFfiError {
    InvalidTimestamp,
    InvalidTimezone,
    InvalidLocale,
    InvalidHourCycle,
    I18nInit,
    I18nFormat,
    FormattingUnsupported,
    LocaleDataUnavailable,
    Internal,
}

/// The foreign error kind of a library error.
pub open spec fn ffi_error_kind(error: TimelineDateError) -> TimelineDateFfiError {
    match error {
        TimelineDateError::InvalidTimestamp(_) => TimelineDateFfiError::InvalidTimestamp,
        TimelineDateError::InvalidTimezone(_) => TimelineDateFfiError::InvalidTimezone,
        TimelineDateError::InvalidLocale(_) => TimelineDateFfiError::InvalidLocale,
        TimelineDateError::I18nInit(_) => TimelineDateFfiError::I18nInit,
        TimelineDateError::I18nFormat(_) => TimelineDateFfiError::I18nFormat,
        TimelineDateError::FormattingUnsupported(_) => TimelineDateFfiError::FormattingUnsupported,
        TimelineDateError::LocaleDataUnavailable(_) => TimelineDateFfiError::LocaleDataUnavailable,
        TimelineDateError::Internal(_) => TimelineDateFfiError::Internal,
    }
}

impl From<TimelineDateError> for TimelineDateFfiError {
    fn from(error: TimelineDateError) -> (kind: Self) {
        match error {
            TimelineDateError::InvalidTimestamp(_) => TimelineDateFfiError::InvalidTimestamp,
            TimelineDateError::InvalidTimezone(_) => TimelineDateFfiError::InvalidTimezone,
            TimelineDateError::InvalidLocale(_) => TimelineDateFfiError::InvalidLocale,
            TimelineDateError::I18nInit(_) => TimelineDateFfiError::I18nInit,
            TimelineDateError::I18nFormat(_) => TimelineDateFfiError::I18nFormat,
            TimelineDateError::FormattingUnsupported(_) => {
                TimelineDateFfiError::FormattingUnsupported
            },
            TimelineDateError::LocaleDataUnavailable(_) => {
                TimelineDateFfiError::LocaleDataUnavailable
            },
            TimelineDateError::Internal(_) => TimelineDateFfiError::Internal,
        }
    }
}

impl vstd::std_specs::convert::FromSpecImpl<TimelineDateError> for TimelineDateFfiError {
    open spec fn obeys_from_spec() -> bool {
        true
    }

    open spec fn from_spec(v: TimelineDateError) -> Self {
        ffi_error_kind(v)
    }
}

/// The pieces of `s` between commas, as `str::split(',')` yields them: one
/// more piece than there are commas.
pub open spec fn split_on_commas(s: Seq<char>) -> Seq<Seq<char>>
    decreases s.len(),
{
    if s.len() == 0 {
        seq![seq![]]
    } else {
        let pieces = split_on_commas(s.drop_last());
        if s.last() == ',' {
            pieces.push(seq![])
        } else {
            pieces.update(pieces.len() - 1, pieces.last().push(s.last()))
        }
    }
}

proof fn lemma_split_nonempty(s: Seq<char>)
    ensures
        split_on_commas(s).len() >= 1,
    decreases s.len(),
{
    if s.len() > 0 {
        lemma_split_nonempty(s.drop_last());
    }
}

/// Splits `value` at every comma.
fn split_commas(value: &str) -> (pieces: Vec<&str>)
    ensures
        pieces@.map_values(|piece: &str| piece@) == split_on_commas(value@),
{
    let n: usize = value.unicode_len();
    let mut pieces: Vec<&str> = Vec::new();
    let mut start: usize = 0;
    let mut j: usize = 0;
    proof {
        assert(value@.take(0) =~= Seq::<char>::empty());
        assert(pieces@.map_values(|piece: &str| piece@).push(value@.subrange(0, 0))
            =~= split_on_commas(value@.take(0)));
    }
    while j < n
        invariant
            n == value@.len(),
            start <= j <= n,
            split_on_commas(value@.take(j as int)) == pieces@.map_values(|piece: &str| piece@).push(
                value@.subrange(start as int, j as int),
            ),
        decreases n - j,
    {
        let ghost before = pieces@.map_values(|piece: &str| piece@);
        proof {
            assert(value@.take(j + 1).drop_last() =~= value@.take(j as int));
            assert(value@.take(j + 1).last() == value@[j as int]);
            lemma_split_nonempty(value@.take(j as int));
        }
        if value.get_char(j) == ',' {
            let piece: &str = value.substring_char(start, j);
            pieces.push(piece);
            start = j + 1;
            proof {
                assert(pieces@.map_values(|piece: &str| piece@) =~= before.push(piece@));
                assert(value@.subrange(start as int, j + 1) =~= Seq::<char>::empty());
            }
        } else {
            proof {
                assert(value@.subrange(start as int, j + 1) =~= value@.subrange(
                    start as int,
                    j as int,
                ).push(value@[j as int]));
                assert(before.push(value@.subrange(start as int, j as int)).update(
                    before.len() as int,
                    value@.subrange(start as int, j + 1),
                ) =~= before.push(value@.subrange(start as int, j + 1)));
            }
        }
        j = j + 1;
    }
    let last: &str = value.substring_char(start, n);
    let ghost before = pieces@.map_values(|piece: &str| piece@);
    pieces.push(last);
    proof {
        assert(value@.take(n as int) =~= value@);
        assert(pieces@.map_values(|piece: &str| piece@) =~= before.push(last@));
    }
    pieces
}

/// Reads a comma-separated preference list: entries are trimmed and blank
/// ones dropped.
pub fn parse_locale_preferences_csv(value: &str) -> (preferences: Vec<String>)
    ensures
        string_views(preferences@) == trimmed_nonblank(split_on_commas(value@)),
{
    let pieces: Vec<&str> = split_commas(value);
    trimmed_nonblank_values(pieces.as_slice())
}

/// The hour cycle a foreign caller names, in any ASCII case and with
/// surrounding white space, or `None` for an unknown name.
pub open spec fn hour_cycle_named(value: Seq<char>) -> Option<HourCycle> {
    let name = ascii_lower(trim(value));
    if name == ""@ || name == "locale"@ || name == "default"@ || name == "locale-default"@ || name
        == "locale_default"@ {
        Some(HourCycle::LocaleDefault)
    } else if name == "h12"@ || name == "12"@ {
        Some(HourCycle::H12)
    } else if name == "h24"@ || name == "24"@ {
        Some(HourCycle::H24)
    } else {
        None
    }
}

/// Reads an hour cycle name.
pub fn parse_hour_cycle(value: &str) -> (res: Result<HourCycle, TimelineDateFfiError>)
    ensures
        match hour_cycle_named(value@) {
            Some(hour_cycle) => res == Ok::<HourCycle, TimelineDateFfiError>(hour_cycle),
            None => res == Err::<HourCycle, TimelineDateFfiError>(
                TimelineDateFfiError::InvalidHourCycle,
            ),
        },
{
    let trimmed: String = trim_text(value);
    let name: &str = trimmed.as_str();
    if equals_ascii_lowercased(name, "") || equals_ascii_lowercased(name, "locale")
        || equals_ascii_lowercased(name, "default") || equals_ascii_lowercased(
        name,
        "locale-default",
    ) || equals_ascii_lowercased(name, "locale_default") {
        Ok(HourCycle::LocaleDefault)
    } else if equals_ascii_lowercased(name, "h12") || equals_ascii_lowercased(name, "12") {
        Ok(HourCycle::H12)
    } else if equals_ascii_lowercased(name, "h24") || equals_ascii_lowercased(name, "24") {
        Ok(HourCycle::H24)
    } else {
        Err(TimelineDateFfiError::InvalidHourCycle)
    }
}

/// The locale preferences a comma-separated list yields: its trimmed,
/// non-blank entries, or English when none is left.
pub open spec fn csv_locale_preferences(csv: Seq<char>) -> Seq<Seq<char>> {
    let cleaned = trimmed_nonblank(split_on_commas(csv));
    if cleaned.len() > 0 {
        cleaned
    } else {
        default_locale_preferences()
    }
}

/// What the feed entry point answers for an event at `event_unix_ms` seen
/// at `now_unix_ms` in `timezone`, for the comma-separated preferences
/// `csv` and the hour cycle named `hour_cycle`.
pub open spec fn feed_request_fits(
    res: Result<PreparedMessage, TimelineDateFfiError>,
    event_unix_ms: i64,
    now_unix_ms: i64,
    timezone: Seq<char>,
    csv: Seq<char>,
    hour_cycle: Seq<char>,
) -> bool {
    match hour_cycle_named(hour_cycle) {
        None => res == Err::<PreparedMessage, TimelineDateFfiError>(
            TimelineDateFfiError::InvalidHourCycle,
        ),
        Some(cycle) => match selected_locale_for(csv_locale_preferences(csv)) {
            Err(_) => res == Err::<PreparedMessage, TimelineDateFfiError>(
                TimelineDateFfiError::InvalidLocale,
            ),
            Ok(locale) => {
                &&& (!millis_in_range(event_unix_ms as int) || !millis_in_range(now_unix_ms as int))
                    ==> res is Err
                &&& res matches Ok(prepared) ==> exists|bucket: TimelineDateBucket|
                    classification_fits(
                        now_unix_ms as int,
                        DEFAULT_SKEW_SECONDS as int,
                        event_unix_ms as int,
                        timezone,
                        TimelineDateStyle::Feed,
                        bucket,
                    ) && prepared_for(
                        prepared,
                        locale,
                        timezone,
                        cycle,
                        event_unix_ms,
                        TimelineDateStyle::Feed,
                        bucket,
                    )
                &&& res matches Err(kind) ==> {
                    ||| kind == TimelineDateFfiError::InvalidTimestamp && (!millis_in_range(
                        event_unix_ms as int,
                    ) || !millis_in_range(now_unix_ms as int))
                    ||| kind == TimelineDateFfiError::InvalidTimezone
                    ||| kind == TimelineDateFfiError::InvalidLocale && std_backend_error(locale)
                        is Some
                }
            },
        },
    }
}

/// Prepares the feed label of an event for a foreign caller: the
/// preferences come as a comma-separated list and the hour cycle by name.
pub fn prepare_timeline_date_for_feed(
    event_unix_ms: i64,
    now_unix_ms: i64,
    timezone: String,
    locale_preferences_csv: String,
    hour_cycle: String,
) -> (res: Result<PreparedMessage, TimelineDateFfiError>)
    ensures
        feed_request_fits(
            res,
            event_unix_ms,
            now_unix_ms,
            timezone@,
            locale_preferences_csv@,
            hour_cycle@,
        ),
{
    let preferences = parse_locale_preferences_csv(locale_preferences_csv.as_str());
    let preference_list = str_list(&preferences);
    let cycle = parse_hour_cycle(hour_cycle.as_str())?;
    let options = TimelineDateOptions::new(now_unix_ms, timezone.as_str()).with_locale_preferences(
        preference_list.as_slice(),
    ).with_hour_cycle(cycle);
    proof {
        lemma_cleaning_is_idempotent(split_on_commas(locale_preferences_csv@));
        assert(string_views(options.locale_preferences@) == csv_locale_preferences(
            locale_preferences_csv@,
        ));
    }
    let formatter = match TimelineDateFormatter::new(options) {
        Ok(formatter) => formatter,
        Err(error) => return Err(TimelineDateFfiError::from(error)),
    };
    match formatter.prepare_millis(event_unix_ms, TimelineDateStyle::Feed) {
        Ok(prepared) => Ok(prepared),
        Err(error) => Err(TimelineDateFfiError::from(error)),
    }
}

/// The same entry point with the instants in the order of the older
/// interface: now first, then the event.
pub fn prepare_feed_label(
    now_unix_ms: i64,
    event_unix_ms: i64,
    timezone: String,
    locale_preferences_csv: String,
    hour_cycle: String,
) -> (res: Result<PreparedMessage, TimelineDateFfiError>)
    ensures
        feed_request_fits(
            res,
            event_unix_ms,
            now_unix_ms,
            timezone@,
            locale_preferences_csv@,
            hour_cycle@,
        ),
{
    prepare_timeline_date_for_feed(
        event_unix_ms,
        now_unix_ms,
        timezone,
        locale_preferences_csv,
        hour_cycle,
    )
}

/// The hour-cycle names read as a fixed table, whatever their ASCII case and
/// surrounding white space: "", "locale", "default", "locale-default" and
/// "locale_default" name the locale's own cycle, "h12" and "12" the 12-hour
/// clock, "h24" and "24" the 24-hour clock, and nothing else is a name.
pub proof fn lemma_hour_cycle_name_table(value: Seq<char>)
    ensures
        ({
            let name = ascii_lower(trim(value));
            &&& (name.len() == 0 || name == seq!['l', 'o', 'c', 'a', 'l', 'e'] || name == seq![
                'd',
                'e',
                'f',
                'a',
                'u',
                'l',
                't',
            ] || name == seq!['l', 'o', 'c', 'a', 'l', 'e', '-', 'd', 'e', 'f', 'a', 'u', 'l', 't']
                || name == seq!['l', 'o', 'c', 'a', 'l', 'e', '_', 'd', 'e', 'f', 'a', 'u', 'l', 't'])
                <==> hour_cycle_named(value) == Some(HourCycle::LocaleDefault)
            &&& (name == seq!['h', '1', '2'] || name == seq!['1', '2']) <==> hour_cycle_named(value)
                == Some(HourCycle::H12)
            &&& (name == seq!['h', '2', '4'] || name == seq!['2', '4']) <==> hour_cycle_named(value)
                == Some(HourCycle::H24)
        }),
{
    reveal_strlit("");
    reveal_strlit("locale");
    reveal_strlit("default");
    reveal_strlit("locale-default");
    reveal_strlit("locale_default");
    reveal_strlit("h12");
    reveal_strlit("12");
    reveal_strlit("h24");
    reveal_strlit("24");
    assert(""@ =~= Seq::<char>::empty());
    assert("locale"@ =~= seq!['l', 'o', 'c', 'a', 'l', 'e']);
    assert("default"@ =~= seq!['d', 'e', 'f', 'a', 'u', 'l', 't']);
    assert("locale-default"@ =~= seq![
        'l', 'o', 'c', 'a', 'l', 'e', '-', 'd', 'e', 'f', 'a', 'u', 'l', 't',
    ]);
    assert("locale_default"@ =~= seq![
        'l', 'o', 'c', 'a', 'l', 'e', '_', 'd', 'e', 'f', 'a', 'u', 'l', 't',
    ]);
    assert("h12"@ =~= seq!['h', '1', '2']);
    assert("12"@ =~= seq!['1', '2']);
    assert("h24"@ =~= seq!['h', '2', '4']);
    assert("24"@ =~= seq!['2', '4']);
    let name = ascii_lower(trim(value));
    if name.len() == 0 {
        assert(name =~= ""@);
    }
}

} // verus!
