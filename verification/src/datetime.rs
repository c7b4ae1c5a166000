//! The date and time formatter options the bundled catalogs use, how they
//! are read, and which localized layout each combination asks for.

use vstd::prelude::*;

use crate::icu::{icu_iso_date_valid, icu_time_valid};
use crate::options::HourCycle;
use crate::text::text_equals;
use crate::time::{
    jiff_timestamp_from_millisecond, jiff_timestamp_from_second, millis_in_range,
    seconds_in_range, LocalDateTimeParts, days_in_month,
};

verus! {

/// What a message asks the backend to format.
#[derive(Debug, Clone, Copy, PartialEq, Eq, Structural)]
pub enum DateTimeRequest {
    Date,
    Time,
    DateTime,
}

#[derive(Debug, Clone, Copy, PartialEq, Eq, Structural)]
pub enum DateTimeStyle {
    Short,
    Medium,
}

#[derive(Debug, Clone, Copy, PartialEq, Eq, Structural)]
pub enum TextWidth {
    Long,
}

#[derive(Debug, Clone, Copy, PartialEq, Eq, Structural)]
pub enum MonthWidth {
    Short,
    Long,
}

#[derive(Debug, Clone, Copy, PartialEq, Eq, Structural)]
pub enum NumericField {
    Numeric,
}

/// The formatter options of one placeholder, each at most once.
#[derive(Debug, Clone, Copy, PartialEq, Eq, Structural)]
pub struct DateTimeOptions {
    pub style: Option<DateTimeStyle>,
    pub weekday: Option<TextWidth>,
    pub month: Option<MonthWidth>,
    pub day: Option<NumericField>,
    pub year: Option<NumericField>,
    pub date_style: Option<DateTimeStyle>,
    pub time_style: Option<DateTimeStyle>,
}

/// The value of a formatter option: only text values are meaningful here.
#[derive(Debug, Clone, PartialEq, Eq)]
pub enum DateTimeOptionValue {
    Text(String),
    Other,
}

/// One `key=value` formatter option of a message placeholder.
#[derive(Debug, Clone, PartialEq, Eq)]
pub struct DateTimeOptionInput {
    pub key: String,
    pub value: DateTimeOptionValue,
}

/// Why a date or time could not be formatted.
#[derive(Debug, Clone, Copy, PartialEq, Eq, Structural)]
pub enum DateTimeFormatError {
    OptionMustBeString,
    OptionNotSupported,
    OptionValueNotSupported,
    CombinationNotSupported,
    InvalidDatetimeValue,
    InvalidLocalDate,
    InvalidLocalTime,
    InvalidIcuLocale,
}

/// The fixed message of each error.
pub open spec fn datetime_error_message(error: DateTimeFormatError) -> Seq<char> {
    match error {
        DateTimeFormatError::OptionMustBeString => "datetime formatter option must be a string"@,
        DateTimeFormatError::OptionNotSupported => "datetime formatter option not supported"@,
        DateTimeFormatError::OptionValueNotSupported => {
            "datetime formatter option value not supported"@
        },
        DateTimeFormatError::CombinationNotSupported => {
            "datetime formatter option combination not supported"@
        },
        DateTimeFormatError::InvalidDatetimeValue => "invalid datetime value"@,
        DateTimeFormatError::InvalidLocalDate => "invalid local date"@,
        DateTimeFormatError::InvalidLocalTime => "invalid local time"@,
        DateTimeFormatError::InvalidIcuLocale => "invalid ICU locale"@,
    }
}

impl DateTimeFormatError {
    /// Whether the error reports something unsupported, rather than an
    /// invalid input.
    pub fn is_unsupported(&self) -> (unsupported: bool)
        ensures
            unsupported == (*self is OptionNotSupported || *self is OptionValueNotSupported
                || *self is CombinationNotSupported),
    {
        match self {
            DateTimeFormatError::OptionNotSupported
            | DateTimeFormatError::OptionValueNotSupported
            | DateTimeFormatError::CombinationNotSupported => true,
            _ => false,
        }
    }

    /// The fixed message of the error.
    pub fn message(&self) -> (text: &'static str)
        ensures
            text@ == datetime_error_message(*self),
    {
        match self {
            DateTimeFormatError::OptionMustBeString => "datetime formatter option must be a string",
            DateTimeFormatError::OptionNotSupported => "datetime formatter option not supported",
            DateTimeFormatError::OptionValueNotSupported => {
                "datetime formatter option value not supported"
            },
            DateTimeFormatError::CombinationNotSupported => {
                "datetime formatter option combination not supported"
            },
            DateTimeFormatError::InvalidDatetimeValue => "invalid datetime value",
            DateTimeFormatError::InvalidLocalDate => "invalid local date",
            DateTimeFormatError::InvalidLocalTime => "invalid local time",
            DateTimeFormatError::InvalidIcuLocale => "invalid ICU locale",
        }
    }
}

/// No option set.
pub open spec fn no_options() -> DateTimeOptions {
    DateTimeOptions {
        style: None,
        weekday: None,
        month: None,
        day: None,
        year: None,
        date_style: None,
        time_style: None,
    }
}

pub open spec fn style_named(value: Seq<char>) -> Option<DateTimeStyle> {
    if value == "short"@ {
        Some(DateTimeStyle::Short)
    } else if value == "medium"@ {
        Some(DateTimeStyle::Medium)
    } else {
        None
    }
}

pub open spec fn text_width_named(value: Seq<char>) -> Option<TextWidth> {
    if value == "long"@ {
        Some(TextWidth::Long)
    } else {
        None
    }
}

pub open spec fn month_width_named(value: Seq<char>) -> Option<MonthWidth> {
    if value == "short"@ {
        Some(MonthWidth::Short)
    } else if value == "long"@ {
        Some(MonthWidth::Long)
    } else {
        None
    }
}

pub open spec fn numeric_field_named(value: Seq<char>) -> Option<NumericField> {
    if value == "numeric"@ {
        Some(NumericField::Numeric)
    } else {
        None
    }
}

/// `parsed` with one more option applied; a later option of the same key
/// replaces an earlier one.
pub open spec fn apply_option(parsed: DateTimeOptions, option: DateTimeOptionInput) -> Result<
    DateTimeOptions,
    DateTimeFormatError,
> {
    match option.value {
        DateTimeOptionValue::Other => Err(DateTimeFormatError::OptionMustBeString),
        DateTimeOptionValue::Text(text) => {
            let key = option.key@;
            let value = text@;
            if key == "style"@ {
                match style_named(value) {
                    Some(v) => Ok(DateTimeOptions { style: Some(v), ..parsed }),
                    None => Err(DateTimeFormatError::OptionValueNotSupported),
                }
            } else if key == "weekday"@ {
                match text_width_named(value) {
                    Some(v) => Ok(DateTimeOptions { weekday: Some(v), ..parsed }),
                    None => Err(DateTimeFormatError::OptionValueNotSupported),
                }
            } else if key == "month"@ {
                match month_width_named(value) {
                    Some(v) => Ok(DateTimeOptions { month: Some(v), ..parsed }),
                    None => Err(DateTimeFormatError::OptionValueNotSupported),
                }
            } else if key == "day"@ {
                match numeric_field_named(value) {
                    Some(v) => Ok(DateTimeOptions { day: Some(v), ..parsed }),
                    None => Err(DateTimeFormatError::OptionValueNotSupported),
                }
            } else if key == "year"@ {
                match numeric_field_named(value) {
                    Some(v) => Ok(DateTimeOptions { year: Some(v), ..parsed }),
                    None => Err(DateTimeFormatError::OptionValueNotSupported),
                }
            } else if key == "dateStyle"@ {
                match style_named(value) {
                    Some(v) => Ok(DateTimeOptions { date_style: Some(v), ..parsed }),
                    None => Err(DateTimeFormatError::OptionValueNotSupported),
                }
            } else if key == "timeStyle"@ {
                match style_named(value) {
                    Some(v) => Ok(DateTimeOptions { time_style: Some(v), ..parsed }),
                    None => Err(DateTimeFormatError::OptionValueNotSupported),
                }
            } else {
                Err(DateTimeFormatError::OptionNotSupported)
            }
        },
    }
}

/// The options of a placeholder read left to right; the first bad option
/// decides the error.
pub open spec fn parsed_options(options: Seq<DateTimeOptionInput>) -> Result<
    DateTimeOptions,
    DateTimeFormatError,
>
    decreases options.len(),
{
    if options.len() == 0 {
        Ok(no_options())
    } else {
        match parsed_options(options.drop_last()) {
            Err(e) => Err(e),
            Ok(parsed) => apply_option(parsed, options.last()),
        }
    }
}

/// The value of the first entry of `supported` named `value`.
pub open spec fn first_named<T>(value: Seq<char>, supported: Seq<(&'static str, T)>) -> Option<T>
    decreases supported.len(),
{
    if supported.len() == 0 {
        None
    } else if supported[0].0@ == value {
        Some(supported[0].1)
    } else {
        first_named(value, supported.drop_first())
    }
}

/// Looks `value` up among the supported names of one option.
pub fn parse_one_of<T: Copy>(value: &str, supported: &[(&'static str, T)]) -> (res: Result<
    T,
    DateTimeFormatError,
>)
    ensures
        match first_named(value@, supported@) {
            Some(v) => res == Ok::<T, DateTimeFormatError>(v),
            None => res == Err::<T, DateTimeFormatError>(
                DateTimeFormatError::OptionValueNotSupported,
            ),
        },
{
    let n: usize = supported.len();
    let mut i: usize = 0;
    proof {
        assert(supported@.subrange(0, n as int) =~= supported@);
    }
    while i < n
        invariant
            n == supported@.len(),
            i <= n,
            first_named(value@, supported@.subrange(i as int, n as int)) == first_named(
                value@,
                supported@,
            ),
        decreases n - i,
    {
        proof {
            assert(supported@.subrange(i as int, n as int).drop_first() =~= supported@.subrange(
                i + 1,
                n as int,
            ));
        }
        let (candidate, parsed) = supported[i];
        if text_equals(value, candidate) {
            return Ok(parsed);
        }
        i = i + 1;
    }
    Err(DateTimeFormatError::OptionValueNotSupported)
}

/// The names of the two styles.
pub fn date_time_styles() -> (table: [(&'static str, DateTimeStyle); 2])
    ensures
        forall|value: Seq<char>| first_named(value, table@) == style_named(value),
{
    let table = [("short", DateTimeStyle::Short), ("medium", DateTimeStyle::Medium)];
    proof {
        reveal_strlit("short");
        reveal_strlit("medium");
        reveal_with_fuel(first_named, 3);
        assert(table@.drop_first().drop_first() =~= Seq::<(&'static str, DateTimeStyle)>::empty());
    }
    table
}

/// The name of the one text width.
pub fn text_widths() -> (table: [(&'static str, TextWidth); 1])
    ensures
        forall|value: Seq<char>| first_named(value, table@) == text_width_named(value),
{
    let table = [("long", TextWidth::Long)];
    proof {
        reveal_strlit("long");
        reveal_with_fuel(first_named, 2);
        assert(table@.drop_first() =~= Seq::<(&'static str, TextWidth)>::empty());
    }
    table
}

/// The names of the two month widths.
pub fn month_widths() -> (table: [(&'static str, MonthWidth); 2])
    ensures
        forall|value: Seq<char>| first_named(value, table@) == month_width_named(value),
{
    let table = [("short", MonthWidth::Short), ("long", MonthWidth::Long)];
    proof {
        reveal_strlit("short");
        reveal_strlit("long");
        reveal_with_fuel(first_named, 3);
        assert(table@.drop_first().drop_first() =~= Seq::<(&'static str, MonthWidth)>::empty());
    }
    table
}

/// The name of the one numeric field form.
pub fn numeric_fields() -> (table: [(&'static str, NumericField); 1])
    ensures
        forall|value: Seq<char>| first_named(value, table@) == numeric_field_named(value),
{
    let table = [("numeric", NumericField::Numeric)];
    proof {
        reveal_strlit("numeric");
        reveal_with_fuel(first_named, 2);
        assert(table@.drop_first() =~= Seq::<(&'static str, NumericField)>::empty());
    }
    table
}

/// The text value of an option; any other value is refused.
fn string_option(option: &DateTimeOptionInput) -> (res: Result<&str, DateTimeFormatError>)
    ensures
        match option.value {
            DateTimeOptionValue::Text(text) => res matches Ok(v) && v@ == text@,
            DateTimeOptionValue::Other => res == Err::<&str, DateTimeFormatError>(
                DateTimeFormatError::OptionMustBeString,
            ),
        },
{
    match &option.value {
        DateTimeOptionValue::Text(text) => Ok(text.as_str()),
        DateTimeOptionValue::Other => Err(DateTimeFormatError::OptionMustBeString),
    }
}

fn apply_one_option(parsed: DateTimeOptions, option: &DateTimeOptionInput) -> (res: Result<
    DateTimeOptions,
    DateTimeFormatError,
>)
    ensures
        res == apply_option(parsed, *option),
{
    let value: &str = string_option(option)?;
    let key: &str = option.key.as_str();
    if text_equals(key, "style") {
        Ok(DateTimeOptions { style: Some(parse_one_of(value, &date_time_styles())?), ..parsed })
    } else if text_equals(key, "weekday") {
        Ok(DateTimeOptions { weekday: Some(parse_one_of(value, &text_widths())?), ..parsed })
    } else if text_equals(key, "month") {
        Ok(DateTimeOptions { month: Some(parse_one_of(value, &month_widths())?), ..parsed })
    } else if text_equals(key, "day") {
        Ok(DateTimeOptions { day: Some(parse_one_of(value, &numeric_fields())?), ..parsed })
    } else if text_equals(key, "year") {
        Ok(DateTimeOptions { year: Some(parse_one_of(value, &numeric_fields())?), ..parsed })
    } else if text_equals(key, "dateStyle") {
        Ok(DateTimeOptions { date_style: Some(parse_one_of(value, &date_time_styles())?), ..parsed })
    } else if text_equals(key, "timeStyle") {
        Ok(DateTimeOptions { time_style: Some(parse_one_of(value, &date_time_styles())?), ..parsed })
    } else {
        Err(DateTimeFormatError::OptionNotSupported)
    }
}

/// Reads the options of a placeholder.
pub fn parse_datetime_options(options: &[DateTimeOptionInput]) -> (res: Result<
    DateTimeOptions,
    DateTimeFormatError,
>)
    ensures
        res == parsed_options(options@),
{
    let mut parsed = DateTimeOptions {
        style: None,
        weekday: None,
        month: None,
        day: None,
        year: None,
        date_style: None,
        time_style: None,
    };
    let n: usize = options.len();
    let mut i: usize = 0;
    proof {
        assert(options@.take(0) =~= Seq::<DateTimeOptionInput>::empty());
    }
    while i < n
        invariant
            n == options@.len(),
            i <= n,
            parsed_options(options@.take(i as int)) == Ok::<
                DateTimeOptions,
                DateTimeFormatError,
            >(parsed),
        decreases n - i,
    {
        proof {
            assert(options@.take(i + 1).drop_last() =~= options@.take(i as int));
            assert(options@.take(i + 1).last() == options@[i as int]);
        }
        match apply_one_option(parsed, &options[i]) {
            Ok(next) => parsed = next,
            Err(e) => {
                proof {
                    lemma_parse_error_persists(options@, i + 1);
                }
                return Err(e);
            },
        }
        i = i + 1;
    }
    proof {
        assert(options@.take(n as int) =~= options@);
    }
    Ok(parsed)
}

proof fn lemma_parse_error_persists(options: Seq<DateTimeOptionInput>, i: int)
    requires
        0 <= i <= options.len(),
        parsed_options(options.take(i)) is Err,
    ensures
        parsed_options(options) == parsed_options(options.take(i)),
    decreases options.len() - i,
{
    if i < options.len() {
        assert(options.take(i + 1).drop_last() =~= options.take(i));
        lemma_parse_error_persists(options, i + 1);
    } else {
        assert(options.take(i) =~= options);
    }
}

/// Reading options fails only on the options themselves: a value that is not
/// text, an unknown key or an unknown value.
pub proof fn lemma_option_errors_are_option_errors(options: Seq<DateTimeOptionInput>)
    ensures
        parsed_options(options) matches Err(e) ==> (e is OptionMustBeString || e is OptionNotSupported
            || e is OptionValueNotSupported),
    decreases options.len(),
{
    if options.len() > 0 {
        lemma_option_errors_are_option_errors(options.drop_last());
    }
}

/// The localized layouts the bundled catalogs use.
#[derive(Debug, Clone, Copy, PartialEq, Eq, Structural)]
pub enum IcuDateTimeFormat {
    ShortTime,
    MediumDate,
    LongWeekday,
    MediumMonthDay,
    LongWeekdayDate,
    MediumDateShortTime,
}

/// The layout a request with exactly these options asks for, or `None` for
/// a combination no catalog uses.
pub open spec fn icu_format_for(request: DateTimeRequest, options: DateTimeOptions) -> Option<
    IcuDateTimeFormat,
> {
    if request == DateTimeRequest::Time && options == (DateTimeOptions {
        style: Some(DateTimeStyle::Short),
        ..no_options()
    }) {
        Some(IcuDateTimeFormat::ShortTime)
    } else if request == DateTimeRequest::Date && options == (DateTimeOptions {
        style: Some(DateTimeStyle::Medium),
        ..no_options()
    }) {
        Some(IcuDateTimeFormat::MediumDate)
    } else if request == DateTimeRequest::DateTime && options == (DateTimeOptions {
        weekday: Some(TextWidth::Long),
        ..no_options()
    }) {
        Some(IcuDateTimeFormat::LongWeekday)
    } else if request == DateTimeRequest::DateTime && options == (DateTimeOptions {
        month: Some(MonthWidth::Short),
        day: Some(NumericField::Numeric),
        ..no_options()
    }) {
        Some(IcuDateTimeFormat::MediumMonthDay)
    } else if request == DateTimeRequest::DateTime && options == (DateTimeOptions {
        weekday: Some(TextWidth::Long),
        month: Some(MonthWidth::Long),
        day: Some(NumericField::Numeric),
        year: Some(NumericField::Numeric),
        ..no_options()
    }) {
        Some(IcuDateTimeFormat::LongWeekdayDate)
    } else if request == DateTimeRequest::DateTime && options == (DateTimeOptions {
        date_style: Some(DateTimeStyle::Medium),
        time_style: Some(DateTimeStyle::Short),
        ..no_options()
    }) {
        Some(IcuDateTimeFormat::MediumDateShortTime)
    } else {
        None
    }
}

/// Picks the layout for a request and its options.
pub fn select_icu_format(request: DateTimeRequest, options: &DateTimeOptions) -> (res: Result<
    IcuDateTimeFormat,
    DateTimeFormatError,
>)
    ensures
        match icu_format_for(request, *options) {
            Some(format) => res == Ok::<IcuDateTimeFormat, DateTimeFormatError>(format),
            None => res == Err::<IcuDateTimeFormat, DateTimeFormatError>(
                DateTimeFormatError::CombinationNotSupported,
            ),
        },
{
    let none = DateTimeOptions {
        style: None,
        weekday: None,
        month: None,
        day: None,
        year: None,
        date_style: None,
        time_style: None,
    };
    let o = *options;
    match request {
        DateTimeRequest::Time => {
            if o == (DateTimeOptions { style: Some(DateTimeStyle::Short), ..none }) {
                return Ok(IcuDateTimeFormat::ShortTime);
            }
        },
        DateTimeRequest::Date => {
            if o == (DateTimeOptions { style: Some(DateTimeStyle::Medium), ..none }) {
                return Ok(IcuDateTimeFormat::MediumDate);
            }
        },
        DateTimeRequest::DateTime => {
            if o == (DateTimeOptions { weekday: Some(TextWidth::Long), ..none }) {
                return Ok(IcuDateTimeFormat::LongWeekday);
            }
            if o == (DateTimeOptions {
                month: Some(MonthWidth::Short),
                day: Some(NumericField::Numeric),
                ..none
            }) {
                return Ok(IcuDateTimeFormat::MediumMonthDay);
            }
            if o == (DateTimeOptions {
                weekday: Some(TextWidth::Long),
                month: Some(MonthWidth::Long),
                day: Some(NumericField::Numeric),
                year: Some(NumericField::Numeric),
                ..none
            }) {
                return Ok(IcuDateTimeFormat::LongWeekdayDate);
            }
            if o == (DateTimeOptions {
                date_style: Some(DateTimeStyle::Medium),
                time_style: Some(DateTimeStyle::Short),
                ..none
            }) {
                return Ok(IcuDateTimeFormat::MediumDateShortTime);
            }
        },
    }
    Err(DateTimeFormatError::CombinationNotSupported)
}

/// An instant handed to a date or time placeholder.
#[derive(Debug, Clone, Copy, PartialEq, Eq, Structural)]
pub enum DateTimeInput {
    UnixSeconds(i64),
    UnixMilliseconds(i64),
}

/// The instant in Unix milliseconds, or `None` outside the supported range.
pub open spec fn input_millis(value: DateTimeInput) -> Option<int> {
    match value {
        DateTimeInput::UnixSeconds(seconds) => if seconds_in_range(seconds as int) {
            Some(seconds * 1000)
        } else {
            None
        },
        DateTimeInput::UnixMilliseconds(millis) => if millis_in_range(millis as int) {
            Some(millis as int)
        } else {
            None
        },
    }
}

/// Checks a placeholder's instant and gives it in Unix milliseconds.
pub fn timestamp_from_datetime_value(value: DateTimeInput) -> (res: Result<
    i64,
    DateTimeFormatError,
>)
    ensures
        match input_millis(value) {
            Some(millis) => res matches Ok(m) && m == millis,
            None => res == Err::<i64, DateTimeFormatError>(
                DateTimeFormatError::InvalidDatetimeValue,
            ),
        },
{
    match value {
        DateTimeInput::UnixSeconds(seconds) => match jiff_timestamp_from_second(seconds) {
            Ok(_) => Ok(seconds * 1000),
            Err(_) => Err(DateTimeFormatError::InvalidDatetimeValue),
        },
        DateTimeInput::UnixMilliseconds(millis) => match jiff_timestamp_from_millisecond(millis) {
            Ok(_) => Ok(millis),
            Err(_) => Err(DateTimeFormatError::InvalidDatetimeValue),
        },
    }
}

/// An ISO calendar date in the form ICU takes it.
#[derive(Debug, Clone, Copy, PartialEq, Eq, Structural)]
pub struct IsoDate {
    pub year: i32,
    pub month: u8,
    pub day: u8,
}

impl IsoDate {
    /// A date ICU accepts: years -9999..=9999 and a real month and day.
    pub open spec fn is_valid(self) -> bool {
        &&& -9999 <= self.year <= 9999
        &&& 1 <= self.month <= 12
        &&& 1 <= self.day <= days_in_month(self.year as int, self.month as int)
    }
}

/// A time of day in the form ICU takes it.
#[derive(Debug, Clone, Copy, PartialEq, Eq, Structural)]
pub struct IsoTime {
    pub hour: u8,
    pub minute: u8,
    pub second: u8,
    pub nanosecond: u32,
}

impl IsoTime {
    /// A time ICU accepts; the second may be a leap second.
    pub open spec fn is_valid(self) -> bool {
        &&& self.hour <= 23
        &&& self.minute <= 59
        &&& self.second <= 60
        &&& self.nanosecond <= 999_999_999
    }
}

/// A date together with a time of day.
#[derive(Debug, Clone, Copy, PartialEq, Eq, Structural)]
pub struct IsoDateTime {
    pub date: IsoDate,
    pub time: IsoTime,
}

/// The fields of `local` as ICU takes a date; each narrow field is
/// reinterpreted as unsigned.
pub open spec fn iso_date_of(local: LocalDateTimeParts) -> IsoDate {
    IsoDate { year: local.year as i32, month: local.month as u8, day: local.day as u8 }
}

/// The date of `local`, if ICU accepts it.
pub open spec fn icu_date_result(local: LocalDateTimeParts) -> Result<IsoDate, DateTimeFormatError> {
    if iso_date_of(local).is_valid() {
        Ok(iso_date_of(local))
    } else {
        Err(DateTimeFormatError::InvalidLocalDate)
    }
}

/// The time of `local`, if its milliseconds are a nanosecond count that fits
/// in `u32` and ICU accepts the time.
pub open spec fn icu_time_result(local: LocalDateTimeParts) -> Result<IsoTime, DateTimeFormatError> {
    if 0 <= local.millisecond && local.millisecond * 1_000_000 <= u32::MAX {
        let time = IsoTime {
            hour: local.hour as u8,
            minute: local.minute as u8,
            second: local.second as u8,
            nanosecond: (local.millisecond * 1_000_000) as u32,
        };
        if time.is_valid() {
            Ok(time)
        } else {
            Err(DateTimeFormatError::InvalidLocalTime)
        }
    } else {
        Err(DateTimeFormatError::InvalidLocalTime)
    }
}

/// The date and time of `local`; a bad date is reported before a bad time.
pub open spec fn icu_datetime_result(local: LocalDateTimeParts) -> Result<
    IsoDateTime,
    DateTimeFormatError,
> {
    match icu_date_result(local) {
        Err(e) => Err(e),
        Ok(date) => match icu_time_result(local) {
            Err(e) => Err(e),
            Ok(time) => Ok(IsoDateTime { date, time }),
        },
    }
}

/// Converts the date of `local` for ICU.
pub fn icu_date(local: LocalDateTimeParts) -> (res: Result<IsoDate, DateTimeFormatError>)
    ensures
        res == icu_date_result(local),
{
    let date = IsoDate { year: local.year as i32, month: local.month as u8, day: local.day as u8 };
    if icu_iso_date_valid(date.year, date.month, date.day) {
        Ok(date)
    } else {
        Err(DateTimeFormatError::InvalidLocalDate)
    }
}

/// Converts the time of `local` for ICU.
pub fn icu_time(local: LocalDateTimeParts) -> (res: Result<IsoTime, DateTimeFormatError>)
    ensures
        res == icu_time_result(local),
{
    if local.millisecond < 0 {
        return Err(DateTimeFormatError::InvalidLocalTime);
    }
    let millisecond: u32 = local.millisecond as u32;
    let nanosecond: u32 = match millisecond.checked_mul(1_000_000) {
        Some(nanosecond) => nanosecond,
        None => return Err(DateTimeFormatError::InvalidLocalTime),
    };
    let time = IsoTime {
        hour: local.hour as u8,
        minute: local.minute as u8,
        second: local.second as u8,
        nanosecond,
    };
    if icu_time_valid(time.hour, time.minute, time.second, time.nanosecond) {
        Ok(time)
    } else {
        Err(DateTimeFormatError::InvalidLocalTime)
    }
}

/// Converts the date and time of `local` for ICU.
pub fn icu_datetime(local: LocalDateTimeParts) -> (res: Result<IsoDateTime, DateTimeFormatError>)
    ensures
        res == icu_datetime_result(local),
{
    let date = icu_date(local)?;
    let time = icu_time(local)?;
    Ok(IsoDateTime { date, time })
}

/// A valid local date and time always converts for ICU: the date, the time
/// and the two together.
pub proof fn lemma_valid_local_parts_convert(local: LocalDateTimeParts)
    requires
        local.is_valid(),
    ensures
        icu_date_result(local) is Ok,
        icu_time_result(local) is Ok,
        icu_datetime_result(local) is Ok,
        icu_date_result(local) matches Ok(date) && date.year == local.year && date.month
            == local.month && date.day == local.day,
        icu_time_result(local) matches Ok(time) && time.hour == local.hour && time.minute
            == local.minute && time.second == local.second && time.nanosecond
            == local.millisecond * 1_000_000,
{
}

/// The hour cycle ICU is asked for: the locale's own, or an explicit one.
#[derive(Debug, Clone, Copy, PartialEq, Eq, Structural)]
pub enum IcuHourCycle {
    LocalePreference,
    H12,
    H23,
}

/// A 24-hour clock is ICU's `h23`, hours numbered 0 to 23.
pub open spec fn icu_hour_cycle_for(hour_cycle: HourCycle) -> IcuHourCycle {
    match hour_cycle {
        HourCycle::LocaleDefault => IcuHourCycle::LocalePreference,
        HourCycle::H12 => IcuHourCycle::H12,
        HourCycle::H24 => IcuHourCycle::H23,
    }
}

/// The ICU hour cycle for the library's hour cycle option.
pub fn icu_hour_cycle(hour_cycle: HourCycle) -> (res: IcuHourCycle)
    ensures
        res == icu_hour_cycle_for(hour_cycle),
{
    match hour_cycle {
        HourCycle::LocaleDefault => IcuHourCycle::LocalePreference,
        HourCycle::H12 => IcuHourCycle::H12,
        HourCycle::H24 => IcuHourCycle::H23,
    }
}

} // verus!
