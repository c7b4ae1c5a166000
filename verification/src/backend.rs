//! The formatting backend state: the locale's standard number and plural
//! rules, the hour cycle and the time zone used for dates and times.

use vstd::prelude::*;

use crate::datetime::{
    icu_date, icu_date_result, icu_datetime, icu_datetime_result, icu_format_for, icu_hour_cycle,
    icu_hour_cycle_for, icu_time, icu_time_result, input_millis,
    lemma_option_errors_are_option_errors, lemma_valid_local_parts_convert,
    parse_datetime_options, parsed_options, select_icu_format, timestamp_from_datetime_value,
    DateTimeFormatError, DateTimeInput, DateTimeOptionInput, DateTimeOptions, DateTimeRequest,
    IcuDateTimeFormat, IcuHourCycle, IsoDate, IsoDateTime, IsoTime, MonthWidth, NumericField,
};
use crate::error::{TimelineDateError, TimelineDateResult};
use crate::icu::{
    icu_format_long_weekday, icu_format_long_weekday_date, icu_format_medium_date,
    icu_format_medium_date_short_time, icu_format_medium_month_day, icu_format_short_time,
    icu_locale_parses, icu_locale_valid, icu_long_weekday_date_text, icu_long_weekday_text,
    icu_medium_date_short_time_text, icu_medium_date_text, icu_medium_month_day_text,
    icu_short_time_text,
};
use crate::options::HourCycle;
use crate::time::{jiff_local_parts, offsets_fit, timezone_from_id, LocalDateTimeParts, NamedTimeZone};

verus! {

#[verifier::external_type_specification]
#[verifier::external_body]
pub struct ExStdFormatBackend(mf2_i18n::StdFormatBackend);

/// The message of the error `mf2_i18n::StdFormatBackend::new` reports for
/// `locale`, or `None` when it builds a backend.
pub uninterp spec fn std_backend_error(locale: Seq<char>) -> Option<Seq<char>>;

/// Calls `mf2_i18n::StdFormatBackend::new`; a failure is reported by the
/// error's `Display` text.
#[verifier::external_body]
fn mf2_std_backend_new(locale: &str) -> (res: Result<mf2_i18n::StdFormatBackend, String>)
    ensures
        res is Ok <==> std_backend_error(locale@) is None,
        res matches Err(message) ==> std_backend_error(locale@) == Some(message@),
{
    mf2_i18n::StdFormatBackend::new(locale).map_err(|error| error.to_string())
}

/// The ICU hour cycle for a backend, once its locale is known to parse as an
/// ICU locale.
pub open spec fn icu_preferences_result(locale: Seq<char>, hour_cycle: HourCycle) -> Result<
    IcuHourCycle,
    DateTimeFormatError,
> {
    if icu_locale_parses(locale) {
        Ok(icu_hour_cycle_for(hour_cycle))
    } else {
        Err(DateTimeFormatError::InvalidIcuLocale)
    }
}

/// Checks that `locale` is an ICU locale and picks the hour cycle to ask
/// ICU for.
pub fn icu_preferences_for(locale: &str, hour_cycle: HourCycle) -> (res: Result<
    IcuHourCycle,
    DateTimeFormatError,
>)
    ensures
        res == icu_preferences_result(locale@, hour_cycle),
{
    if icu_locale_valid(locale) {
        Ok(icu_hour_cycle(hour_cycle))
    } else {
        Err(DateTimeFormatError::InvalidIcuLocale)
    }
}

/// `text` applied to a converted value, errors passed on.
pub open spec fn mapped_text<T>(converted: Result<T, DateTimeFormatError>, text: spec_fn(T) -> Seq<
    char,
>) -> Result<Seq<char>, DateTimeFormatError> {
    match converted {
        Ok(value) => Ok(text(value)),
        Err(e) => Err(e),
    }
}

/// What formatting `local` in one of the catalogs' layouts gives: the
/// locale must be an ICU locale, then the local date and time values ICU
/// accepts.
pub open spec fn icu_layout_result(
    locale: Seq<char>,
    hour_cycle: HourCycle,
    format: IcuDateTimeFormat,
    local: LocalDateTimeParts,
) -> Result<Seq<char>, DateTimeFormatError> {
    match icu_preferences_result(locale, hour_cycle) {
        Err(e) => Err(e),
        Ok(hc) => match format {
            IcuDateTimeFormat::ShortTime => mapped_text(
                icu_time_result(local),
                |t| icu_short_time_text(locale, hc, t),
            ),
            IcuDateTimeFormat::MediumDate => mapped_text(
                icu_date_result(local),
                |d| icu_medium_date_text(locale, hc, d),
            ),
            IcuDateTimeFormat::LongWeekday => mapped_text(
                icu_date_result(local),
                |d| icu_long_weekday_text(locale, hc, d),
            ),
            IcuDateTimeFormat::MediumMonthDay => mapped_text(
                icu_date_result(local),
                |d| icu_medium_month_day_text(locale, hc, d),
            ),
            IcuDateTimeFormat::LongWeekdayDate => mapped_text(
                icu_date_result(local),
                |d| icu_long_weekday_date_text(locale, hc, d),
            ),
            IcuDateTimeFormat::MediumDateShortTime => mapped_text(
                icu_datetime_result(local),
                |dt| icu_medium_date_short_time_text(locale, hc, dt),
            ),
        },
    }
}

/// What formatting `local` for `request` with `options` gives: the options
/// must name a layout the catalogs use, then the layout is formatted.
pub open spec fn icu_format_result(
    locale: Seq<char>,
    hour_cycle: HourCycle,
    request: DateTimeRequest,
    options: DateTimeOptions,
    local: LocalDateTimeParts,
) -> Result<Seq<char>, DateTimeFormatError> {
    match icu_format_for(request, options) {
        None => Err(DateTimeFormatError::CombinationNotSupported),
        Some(format) => icu_layout_result(locale, hour_cycle, format, local),
    }
}

/// Whether an executable text result is the expected one.
pub open spec fn text_result_is(
    res: Result<String, DateTimeFormatError>,
    expected: Result<Seq<char>, DateTimeFormatError>,
) -> bool {
    match expected {
        Ok(text) => res matches Ok(s) && s@ == text,
        Err(e) => res == Err::<String, DateTimeFormatError>(e),
    }
}

/// Backend state for one locale, hour cycle and time zone.
pub struct TimelineDateBackend {
    locale: String,
    hour_cycle: HourCycle,
    std_backend: mf2_i18n::StdFormatBackend,
    timezone: NamedTimeZone,
}

impl TimelineDateBackend {
    pub closed spec fn locale_spec(&self) -> Seq<char> {
        self.locale@
    }

    pub closed spec fn hour_cycle_spec(&self) -> HourCycle {
        self.hour_cycle
    }

    /// The identifier of the time zone dates and times are shown in.
    pub closed spec fn timezone_id_spec(&self) -> Seq<char> {
        self.timezone.id_spec()
    }

    /// The offsets of that time zone, in milliseconds at each instant.
    pub closed spec fn offsets_spec(&self) -> spec_fn(int) -> int {
        self.timezone.offsets_spec()
    }

    /// The standard backend built for the backend's locale.
    pub closed spec fn std_backend_spec(&self) -> mf2_i18n::StdFormatBackend {
        self.std_backend
    }

    /// Builds the backend: the locale must be one the standard backend
    /// accepts, then the time zone must be known.
    pub fn new(locale: &str, timezone: &str, hour_cycle: HourCycle) -> (res: TimelineDateResult<
        Self,
    >)
        ensures
            res matches Ok(backend) ==> backend.locale_spec() == locale@ && backend.hour_cycle_spec()
                == hour_cycle && backend.timezone_id_spec() == timezone@ && offsets_fit(
                backend.offsets_spec(),
                timezone@,
            ) && std_backend_error(locale@) is None,
            std_backend_error(locale@) matches Some(message) ==> (res matches Err(
                TimelineDateError::InvalidLocale(m),
            ) && m@ == message),
            res matches Err(e) ==> {
                ||| (e matches TimelineDateError::InvalidLocale(m) && std_backend_error(locale@)
                    == Some(m@))
                ||| (e matches TimelineDateError::InvalidTimezone(id) && id@ == timezone@
                    && std_backend_error(locale@) is None)
            },
    {
        let std_backend = match mf2_std_backend_new(locale) {
            Ok(backend) => backend,
            Err(message) => return Err(TimelineDateError::InvalidLocale(message)),
        };
        let timezone = timezone_from_id(timezone)?;
        Ok(TimelineDateBackend {
            locale: String::from_str(locale),
            hour_cycle,
            std_backend,
            timezone,
        })
    }

    /// What formatting a placeholder's instant may give: an option error,
    /// then an instant outside the supported range, and otherwise the
    /// formatting of the valid local date and time of the instant under the
    /// offset of the backend's zone at that instant (which offset that is
    /// comes from the time zone database).
    pub open spec fn request_outcome(
        &self,
        value: DateTimeInput,
        request: DateTimeRequest,
        options: Seq<DateTimeOptionInput>,
        res: Result<String, DateTimeFormatError>,
    ) -> bool {
        match parsed_options(options) {
            Err(e) => res == Err::<String, DateTimeFormatError>(e),
            Ok(parsed) => match input_millis(value) {
                None => res == Err::<String, DateTimeFormatError>(
                    DateTimeFormatError::InvalidDatetimeValue,
                ),
                Some(millis) => exists|local: LocalDateTimeParts|
                    #![trigger local.is_valid()]
                    local.is_valid() && local.local_millis() == millis + self.offsets_spec()(millis)
                        && local.shows(millis) && local.millisecond == millis % 1000
                        && text_result_is(
                        res,
                        icu_format_result(
                            self.locale_spec(),
                            self.hour_cycle_spec(),
                            request,
                            parsed,
                            local,
                        ),
                    ),
            },
        }
    }

    /// The ICU hour cycle for this backend's locale and hour cycle option.
    pub fn icu_preferences(&self) -> (res: Result<IcuHourCycle, DateTimeFormatError>)
        ensures
            res == icu_preferences_result(self.locale_spec(), self.hour_cycle_spec()),
    {
        icu_preferences_for(self.locale.as_str(), self.hour_cycle)
    }

    /// The local date and time of a placeholder's instant in the backend's
    /// time zone.
    pub fn local_datetime_parts(&self, value: DateTimeInput) -> (res: Result<
        LocalDateTimeParts,
        DateTimeFormatError,
    >)
        ensures
            match input_millis(value) {
                Some(millis) => res matches Ok(parts) && parts.is_valid() && parts.local_millis()
                    == millis + self.offsets_spec()(millis) && parts.shows(millis)
                    && parts.millisecond == millis % 1000,
                None => res == Err::<LocalDateTimeParts, DateTimeFormatError>(
                    DateTimeFormatError::InvalidDatetimeValue,
                ),
            },
    {
        let millis = timestamp_from_datetime_value(value)?;
        Ok(jiff_local_parts(millis, &self.timezone))
    }

    fn format_icu_short_time(
        &self,
        local: LocalDateTimeParts,
    ) -> (res: Result<String, DateTimeFormatError>)
        ensures
            text_result_is(
                res,
                icu_layout_result(
                    self.locale_spec(),
                    self.hour_cycle_spec(),
                    IcuDateTimeFormat::ShortTime,
                    local,
                ),
            ),
    {
        let hour_cycle = self.icu_preferences()?;
        let value = icu_time(local)?;
        Ok(icu_format_short_time(self.locale.as_str(), hour_cycle, value))
    }

    fn format_icu_medium_date(
        &self,
        local: LocalDateTimeParts,
    ) -> (res: Result<String, DateTimeFormatError>)
        ensures
            text_result_is(
                res,
                icu_layout_result(
                    self.locale_spec(),
                    self.hour_cycle_spec(),
                    IcuDateTimeFormat::MediumDate,
                    local,
                ),
            ),
    {
        let hour_cycle = self.icu_preferences()?;
        let value = icu_date(local)?;
        Ok(icu_format_medium_date(self.locale.as_str(), hour_cycle, value))
    }

    fn format_icu_long_weekday(
        &self,
        local: LocalDateTimeParts,
    ) -> (res: Result<String, DateTimeFormatError>)
        ensures
            text_result_is(
                res,
                icu_layout_result(
                    self.locale_spec(),
                    self.hour_cycle_spec(),
                    IcuDateTimeFormat::LongWeekday,
                    local,
                ),
            ),
    {
        let hour_cycle = self.icu_preferences()?;
        let value = icu_date(local)?;
        Ok(icu_format_long_weekday(self.locale.as_str(), hour_cycle, value))
    }

    fn format_icu_medium_month_day(
        &self,
        local: LocalDateTimeParts,
    ) -> (res: Result<String, DateTimeFormatError>)
        ensures
            text_result_is(
                res,
                icu_layout_result(
                    self.locale_spec(),
                    self.hour_cycle_spec(),
                    IcuDateTimeFormat::MediumMonthDay,
                    local,
                ),
            ),
    {
        let hour_cycle = self.icu_preferences()?;
        let value = icu_date(local)?;
        Ok(icu_format_medium_month_day(self.locale.as_str(), hour_cycle, value))
    }

    fn format_icu_long_weekday_date(
        &self,
        local: LocalDateTimeParts,
    ) -> (res: Result<String, DateTimeFormatError>)
        ensures
            text_result_is(
                res,
                icu_layout_result(
                    self.locale_spec(),
                    self.hour_cycle_spec(),
                    IcuDateTimeFormat::LongWeekdayDate,
                    local,
                ),
            ),
    {
        let hour_cycle = self.icu_preferences()?;
        let value = icu_date(local)?;
        Ok(icu_format_long_weekday_date(self.locale.as_str(), hour_cycle, value))
    }

    fn format_icu_medium_date_short_time(
        &self,
        local: LocalDateTimeParts,
    ) -> (res: Result<String, DateTimeFormatError>)
        ensures
            text_result_is(
                res,
                icu_layout_result(
                    self.locale_spec(),
                    self.hour_cycle_spec(),
                    IcuDateTimeFormat::MediumDateShortTime,
                    local,
                ),
            ),
    {
        let hour_cycle = self.icu_preferences()?;
        let value = icu_datetime(local)?;
        Ok(icu_format_medium_date_short_time(self.locale.as_str(), hour_cycle, value))
    }

    /// Formats `local` in the layout `request` and `options` pick.
    pub fn format_datetime_with_icu(
        &self,
        local: LocalDateTimeParts,
        request: DateTimeRequest,
        options: DateTimeOptions,
    ) -> (res: Result<String, DateTimeFormatError>)
        ensures
            text_result_is(
                res,
                icu_format_result(
                    self.locale_spec(),
                    self.hour_cycle_spec(),
                    request,
                    options,
                    local,
                ),
            ),
    {
        match select_icu_format(request, &options)? {
            IcuDateTimeFormat::ShortTime => self.format_icu_short_time(local),
            IcuDateTimeFormat::MediumDate => self.format_icu_medium_date(local),
            IcuDateTimeFormat::LongWeekday => self.format_icu_long_weekday(local),
            IcuDateTimeFormat::MediumMonthDay => self.format_icu_medium_month_day(local),
            IcuDateTimeFormat::LongWeekdayDate => self.format_icu_long_weekday_date(local),
            IcuDateTimeFormat::MediumDateShortTime => self.format_icu_medium_date_short_time(local),
        }
    }

    /// Formats a placeholder's instant: its options are read first, then the
    /// instant is checked and shown in the backend's time zone, then the
    /// layout is formatted. The local date and time depend on the time zone
    /// database; any valid local time with the instant's milliseconds is
    /// what the result is stated over.
    pub fn format_datetime_request(
        &self,
        value: DateTimeInput,
        request: DateTimeRequest,
        options: &[DateTimeOptionInput],
    ) -> (res: Result<String, DateTimeFormatError>)
        ensures
            self.request_outcome(value, request, options@, res),
    {
        let parsed = parse_datetime_options(options)?;
        let local = self.local_datetime_parts(value)?;
        self.format_datetime_with_icu(local, request, parsed)
    }

    /// Formats a date placeholder.
    pub fn format_date(&self, value: DateTimeInput, options: &[DateTimeOptionInput]) -> (res: Result<
        String,
        DateTimeFormatError,
    >)
        ensures
            self.request_outcome(value, DateTimeRequest::Date, options@, res),
    {
        self.format_datetime_request(value, DateTimeRequest::Date, options)
    }

    /// Formats a time placeholder.
    pub fn format_time(&self, value: DateTimeInput, options: &[DateTimeOptionInput]) -> (res: Result<
        String,
        DateTimeFormatError,
    >)
        ensures
            self.request_outcome(value, DateTimeRequest::Time, options@, res),
    {
        self.format_datetime_request(value, DateTimeRequest::Time, options)
    }

    /// Formats a date and time placeholder.
    pub fn format_datetime(&self, value: DateTimeInput, options: &[DateTimeOptionInput]) -> (res: Result<
        String,
        DateTimeFormatError,
    >)
        ensures
            self.request_outcome(value, DateTimeRequest::DateTime, options@, res),
    {
        self.format_datetime_request(value, DateTimeRequest::DateTime, options)
    }

    /// The locale the backend formats for.
    pub fn locale(&self) -> (locale: &str)
        ensures
            locale@ == self.locale_spec(),
    {
        self.locale.as_str()
    }

    /// The identifier of the time zone dates and times are shown in.
    pub fn timezone_id(&self) -> (id: &str)
        ensures
            id@ == self.timezone_id_spec(),
    {
        self.timezone.id()
    }

    /// The hour cycle the backend formats times with.
    pub fn hour_cycle(&self) -> (hour_cycle: HourCycle)
        ensures
            hour_cycle == self.hour_cycle_spec(),
    {
        self.hour_cycle
    }

    /// The standard backend that formats numbers and picks plural forms.
    pub fn std_backend(&self) -> (backend: &mf2_i18n::StdFormatBackend)
        ensures
            *backend == self.std_backend_spec(),
    {
        &self.std_backend
    }
}

/// Formatting a placeholder's instant never fails on the local date or time:
/// the time zone conversion always gives values ICU accepts, so the only
/// errors are those of the options, the instant, the layout and the locale.
pub proof fn lemma_request_errors_exclude_local_parts(
    backend: &TimelineDateBackend,
    value: DateTimeInput,
    request: DateTimeRequest,
    options: Seq<DateTimeOptionInput>,
    res: Result<String, DateTimeFormatError>,
)
    requires
        backend.request_outcome(value, request, options, res),
    ensures
        res matches Err(e) ==> e != DateTimeFormatError::InvalidLocalDate && e
            != DateTimeFormatError::InvalidLocalTime,
{
    if let Ok(parsed) = parsed_options(options) {
        if let Some(millis) = input_millis(value) {
            let local = choose|local: LocalDateTimeParts|
                #![trigger local.is_valid()]
                local.is_valid() && local.local_millis() == millis + backend.offsets_spec()(millis)
                    && local.shows(millis) && local.millisecond == millis % 1000
                        && text_result_is(
                    res,
                    icu_format_result(
                        backend.locale_spec(),
                        backend.hour_cycle_spec(),
                        request,
                        parsed,
                        local,
                    ),
                );
            lemma_valid_local_parts_convert(local);
        }
    }
    lemma_option_errors_are_option_errors(options);
}

/// Each layout shows a valid local date and time with its own ICU field
/// set: the short time with `T::hm()`, the medium date with
/// `YMD::medium()`, the weekday with `E::long()`, the month and day with
/// `MD::medium()`, the full date with `YMDE::long()` and the date and time
/// with `YMD::medium().with_time_hm()`; and the option shapes of the
/// catalogs pick them, the month-and-day options of a date-and-time
/// placeholder picking the month-and-day field set.
pub proof fn lemma_layouts_use_their_field_sets(
    locale: Seq<char>,
    hour_cycle: HourCycle,
    local: LocalDateTimeParts,
)
    requires
        icu_locale_parses(locale),
        local.is_valid(),
    ensures
        ({
            let hc = icu_hour_cycle_for(hour_cycle);
            let date = IsoDate {
                year: local.year as i32,
                month: local.month as u8,
                day: local.day as u8,
            };
            let time = IsoTime {
                hour: local.hour as u8,
                minute: local.minute as u8,
                second: local.second as u8,
                nanosecond: (local.millisecond * 1_000_000) as u32,
            };
            &&& icu_layout_result(locale, hour_cycle, IcuDateTimeFormat::ShortTime, local) == Ok::<
                Seq<char>,
                DateTimeFormatError,
            >(icu_short_time_text(locale, hc, time))
            &&& icu_layout_result(locale, hour_cycle, IcuDateTimeFormat::MediumDate, local) == Ok::<
                Seq<char>,
                DateTimeFormatError,
            >(icu_medium_date_text(locale, hc, date))
            &&& icu_layout_result(locale, hour_cycle, IcuDateTimeFormat::LongWeekday, local)
                == Ok::<Seq<char>, DateTimeFormatError>(icu_long_weekday_text(locale, hc, date))
            &&& icu_layout_result(locale, hour_cycle, IcuDateTimeFormat::MediumMonthDay, local)
                == Ok::<Seq<char>, DateTimeFormatError>(
                icu_medium_month_day_text(locale, hc, date),
            )
            &&& icu_layout_result(locale, hour_cycle, IcuDateTimeFormat::LongWeekdayDate, local)
                == Ok::<Seq<char>, DateTimeFormatError>(
                icu_long_weekday_date_text(locale, hc, date),
            )
            &&& icu_layout_result(
                locale,
                hour_cycle,
                IcuDateTimeFormat::MediumDateShortTime,
                local,
            ) == Ok::<Seq<char>, DateTimeFormatError>(
                icu_medium_date_short_time_text(locale, hc, IsoDateTime { date, time }),
            )
            &&& icu_format_result(
                locale,
                hour_cycle,
                DateTimeRequest::DateTime,
                DateTimeOptions {
                    style: None,
                    weekday: None,
                    month: Some(MonthWidth::Short),
                    day: Some(NumericField::Numeric),
                    year: None,
                    date_style: None,
                    time_style: None,
                },
                local,
            ) == Ok::<Seq<char>, DateTimeFormatError>(
                icu_medium_month_day_text(locale, hc, date),
            )
        }),
{
    lemma_valid_local_parts_convert(local);
}

} // verus!
