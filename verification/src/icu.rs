//! The calls into ICU4X: locale parsing, date and time validation, and the
//! six localized layouts the bundled catalogs use.
//!
//! Each layout call builds its formatter from ICU's compiled data and
//! panics if that data cannot build it, which the compiled data rules out
//! for every locale (ICU falls back to the root locale).

use vstd::prelude::*;

use icu_datetime::fieldsets::{E, MD, T, YMD, YMDE};
use icu_datetime::input::{Date, DateTime, Time};
use icu_datetime::preferences::HourCycle;
use icu_datetime::{DateTimeFormatter, DateTimeFormatterPreferences, NoCalendarFormatter};
use icu_locale::Locale;

use crate::datetime::{IcuHourCycle, IsoDate, IsoDateTime, IsoTime};

verus! {

/// Whether `icu_locale::Locale::try_from_str` accepts `locale`.
pub uninterp spec fn icu_locale_parses(locale: Seq<char>) -> bool;

/// Calls `icu_locale::Locale::try_from_str` and reports whether it parsed.
#[verifier::external_body]
pub(crate) fn icu_locale_valid(locale: &str) -> (ok: bool)
    ensures
        ok == icu_locale_parses(locale@),
{
    Locale::try_from_str(locale).is_ok()
}

/// Calls `icu_calendar::Date::try_new_iso`, which accepts exactly the years
/// -9999..=9999 with a real month and day of the proleptic Gregorian
/// calendar.
#[verifier::external_body]
pub(crate) fn icu_iso_date_valid(year: i32, month: u8, day: u8) -> (ok: bool)
    ensures
        ok == (IsoDate { year, month, day }).is_valid(),
{
    icu_calendar::Date::try_new_iso(year, month, day).is_ok()
}

/// Calls `icu_datetime::input::Time::try_new`, which accepts exactly hours up
/// to 23, minutes up to 59, seconds up to 60 and nanoseconds up to
/// 999 999 999.
#[verifier::external_body]
pub(crate) fn icu_time_valid(hour: u8, minute: u8, second: u8, nanosecond: u32) -> (ok: bool)
    ensures
        ok == (IsoTime { hour, minute, second, nanosecond }).is_valid(),
{
    Time::try_new(hour, minute, second, nanosecond).is_ok()
}

/// The text ICU's `NoCalendarFormatter` with the `T::hm()` field set gives
/// for `time` in `locale` under `hour_cycle`.
pub uninterp spec fn icu_short_time_text(
    locale: Seq<char>,
    hour_cycle: IcuHourCycle,
    time: IsoTime,
) -> Seq<char>;

/// The text ICU's `DateTimeFormatter` with `YMD::medium()` gives for `date`.
pub uninterp spec fn icu_medium_date_text(
    locale: Seq<char>,
    hour_cycle: IcuHourCycle,
    date: IsoDate,
) -> Seq<char>;

/// The text ICU's `DateTimeFormatter` with `E::long()` gives for `date`.
pub uninterp spec fn icu_long_weekday_text(
    locale: Seq<char>,
    hour_cycle: IcuHourCycle,
    date: IsoDate,
) -> Seq<char>;

/// The text ICU's `DateTimeFormatter` with `MD::medium()` gives for `date`.
pub uninterp spec fn icu_medium_month_day_text(
    locale: Seq<char>,
    hour_cycle: IcuHourCycle,
    date: IsoDate,
) -> Seq<char>;

/// The text ICU's `DateTimeFormatter` with `YMDE::long()` gives for `date`.
pub uninterp spec fn icu_long_weekday_date_text(
    locale: Seq<char>,
    hour_cycle: IcuHourCycle,
    date: IsoDate,
) -> Seq<char>;

/// The text ICU's `DateTimeFormatter` with `YMD::medium().with_time_hm()`
/// gives for `datetime`.
pub uninterp spec fn icu_medium_date_short_time_text(
    locale: Seq<char>,
    hour_cycle: IcuHourCycle,
    datetime: IsoDateTime,
) -> Seq<char>;

/// Formats `time` with ICU's `NoCalendarFormatter` and `T::hm()`; the
/// preferences come from `locale`, with the hour cycle replaced unless the
/// locale's own is asked for.
#[verifier::external_body]
pub(crate) fn icu_format_short_time(locale: &str, hour_cycle: IcuHourCycle, time: IsoTime) -> (text:
    String)
    requires
        icu_locale_parses(locale@),
        time.is_valid(),
    ensures
        text@ == icu_short_time_text(locale@, hour_cycle, time),
{
    let mut preferences = DateTimeFormatterPreferences::from(&Locale::try_from_str(locale).unwrap());
    match hour_cycle {
        IcuHourCycle::LocalePreference => {},
        IcuHourCycle::H12 => preferences.hour_cycle = Some(HourCycle::H12),
        IcuHourCycle::H23 => preferences.hour_cycle = Some(HourCycle::H23),
    }
    let time = Time::try_new(time.hour, time.minute, time.second, time.nanosecond).unwrap();
    let formatter = NoCalendarFormatter::try_new(preferences, T::hm()).expect("ICU compiled data");
    formatter.format(&time).to_string()
}

/// Formats `date` with ICU's `DateTimeFormatter` and `YMD::medium()`.
#[verifier::external_body]
pub(crate) fn icu_format_medium_date(locale: &str, hour_cycle: IcuHourCycle, date: IsoDate) -> (text:
    String)
    requires
        icu_locale_parses(locale@),
        date.is_valid(),
    ensures
        text@ == icu_medium_date_text(locale@, hour_cycle, date),
{
    let mut preferences = DateTimeFormatterPreferences::from(&Locale::try_from_str(locale).unwrap());
    match hour_cycle {
        IcuHourCycle::LocalePreference => {},
        IcuHourCycle::H12 => preferences.hour_cycle = Some(HourCycle::H12),
        IcuHourCycle::H23 => preferences.hour_cycle = Some(HourCycle::H23),
    }
    let date = Date::try_new_iso(date.year, date.month, date.day).unwrap();
    let formatter = DateTimeFormatter::try_new(preferences, YMD::medium()).expect("ICU compiled data");
    formatter.format(&date).to_string()
}

/// Formats `date` with ICU's `DateTimeFormatter` and `E::long()`.
#[verifier::external_body]
pub(crate) fn icu_format_long_weekday(locale: &str, hour_cycle: IcuHourCycle, date: IsoDate) -> (text:
    String)
    requires
        icu_locale_parses(locale@),
        date.is_valid(),
    ensures
        text@ == icu_long_weekday_text(locale@, hour_cycle, date),
{
    let mut preferences = DateTimeFormatterPreferences::from(&Locale::try_from_str(locale).unwrap());
    match hour_cycle {
        IcuHourCycle::LocalePreference => {},
        IcuHourCycle::H12 => preferences.hour_cycle = Some(HourCycle::H12),
        IcuHourCycle::H23 => preferences.hour_cycle = Some(HourCycle::H23),
    }
    let date = Date::try_new_iso(date.year, date.month, date.day).unwrap();
    let formatter = DateTimeFormatter::try_new(preferences, E::long()).expect("ICU compiled data");
    formatter.format(&date).to_string()
}

/// Formats `date` with ICU's `DateTimeFormatter` and `MD::medium()`.
#[verifier::external_body]
pub(crate) fn icu_format_medium_month_day(
    locale: &str,
    hour_cycle: IcuHourCycle,
    date: IsoDate,
) -> (text: String)
    requires
        icu_locale_parses(locale@),
        date.is_valid(),
    ensures
        text@ == icu_medium_month_day_text(locale@, hour_cycle, date),
{
    let mut preferences = DateTimeFormatterPreferences::from(&Locale::try_from_str(locale).unwrap());
    match hour_cycle {
        IcuHourCycle::LocalePreference => {},
        IcuHourCycle::H12 => preferences.hour_cycle = Some(HourCycle::H12),
        IcuHourCycle::H23 => preferences.hour_cycle = Some(HourCycle::H23),
    }
    let date = Date::try_new_iso(date.year, date.month, date.day).unwrap();
    let formatter = DateTimeFormatter::try_new(preferences, MD::medium()).expect("ICU compiled data");
    formatter.format(&date).to_string()
}

/// Formats `date` with ICU's `DateTimeFormatter` and `YMDE::long()`.
#[verifier::external_body]
pub(crate) fn icu_format_long_weekday_date(
    locale: &str,
    hour_cycle: IcuHourCycle,
    date: IsoDate,
) -> (text: String)
    requires
        icu_locale_parses(locale@),
        date.is_valid(),
    ensures
        text@ == icu_long_weekday_date_text(locale@, hour_cycle, date),
{
    let mut preferences = DateTimeFormatterPreferences::from(&Locale::try_from_str(locale).unwrap());
    match hour_cycle {
        IcuHourCycle::LocalePreference => {},
        IcuHourCycle::H12 => preferences.hour_cycle = Some(HourCycle::H12),
        IcuHourCycle::H23 => preferences.hour_cycle = Some(HourCycle::H23),
    }
    let date = Date::try_new_iso(date.year, date.month, date.day).unwrap();
    let formatter = DateTimeFormatter::try_new(preferences, YMDE::long()).expect("ICU compiled data");
    formatter.format(&date).to_string()
}

/// Formats `datetime` with ICU's `DateTimeFormatter` and
/// `YMD::medium().with_time_hm()`.
#[verifier::external_body]
pub(crate) fn icu_format_medium_date_short_time(
    locale: &str,
    hour_cycle: IcuHourCycle,
    datetime: IsoDateTime,
) -> (text: String)
    requires
        icu_locale_parses(locale@),
        datetime.date.is_valid(),
        datetime.time.is_valid(),
    ensures
        text@ == icu_medium_date_short_time_text(locale@, hour_cycle, datetime),
{
    let mut preferences = DateTimeFormatterPreferences::from(&Locale::try_from_str(locale).unwrap());
    match hour_cycle {
        IcuHourCycle::LocalePreference => {},
        IcuHourCycle::H12 => preferences.hour_cycle = Some(HourCycle::H12),
        IcuHourCycle::H23 => preferences.hour_cycle = Some(HourCycle::H23),
    }
    let (date, time) = (datetime.date, datetime.time);
    let date = Date::try_new_iso(date.year, date.month, date.day).unwrap();
    let time = Time::try_new(time.hour, time.minute, time.second, time.nanosecond).unwrap();
    let formatter = DateTimeFormatter::try_new(preferences, YMD::medium().with_time_hm())
        .expect("ICU compiled data");
    formatter.format(&DateTime { date, time }).to_string()
}

} // verus!
