//! Instants, civil dates and time zones, with the calls into `jiff` that
//! validate and convert them.

use vstd::prelude::*;

use crate::error::{TimelineDateError, TimelineDateResult};
use crate::text::ascii_lower_char;

verus! {

#[verifier::external_type_specification]
#[verifier::external_body]
pub struct ExJiffTimeZone(jiff::tz::TimeZone);

#[verifier::external_type_specification]
#[verifier::external_body]
pub struct ExJiffTimestamp(jiff::Timestamp);

#[verifier::external_type_specification]
#[verifier::external_body]
pub struct ExJiffError(jiff::Error);

/// The earliest instant `jiff::Timestamp` represents, in Unix milliseconds.
pub const MIN_UNIX_MS: i64 = -377_705_023_201_000;

/// The latest whole-second instant `jiff::Timestamp` represents, in Unix
/// milliseconds.
pub const MAX_UNIX_MS: i64 = 253_402_207_200_000;

/// The earliest instant `jiff::Timestamp` represents, in whole Unix seconds.
pub const MIN_UNIX_SECONDS: i64 = -377_705_023_201;

/// The latest whole-second instant `jiff::Timestamp` represents, in Unix
/// seconds.
pub const MAX_UNIX_SECONDS: i64 = 253_402_207_200;

/// Whether `unix_seconds` is an instant the library can work with.
pub open spec fn seconds_in_range(unix_seconds: int) -> bool {
    MIN_UNIX_SECONDS <= unix_seconds <= MAX_UNIX_SECONDS
}

/// The largest distance between an instant and its local wall-clock time in
/// any time zone: `jiff` bounds every offset by 25:59:59.
pub const MAX_OFFSET_MS: i64 = 93_599_000;

/// The length of a civil day.
pub const MILLIS_PER_DAY: i64 = 86_400_000;

/// Whether a local wall-clock time `local_ms` (milliseconds since the local
/// epoch 1970-01-01T00:00) can show the instant `unix_ms` in some time zone.
pub open spec fn within_offset(local_ms: int, unix_ms: int) -> bool {
    unix_ms - MAX_OFFSET_MS <= local_ms <= unix_ms + MAX_OFFSET_MS
}

/// Whether `unix_ms` is an instant the library can work with.
pub open spec fn millis_in_range(unix_ms: int) -> bool {
    MIN_UNIX_MS <= unix_ms <= MAX_UNIX_MS
}

/// A proleptic Gregorian calendar date.
#[derive(Debug, Clone, Copy, PartialEq, Eq, Structural)]
pub struct CivilDate {
    pub year: i16,
    pub month: i8,
    pub day: i8,
}

pub open spec fn is_leap_year(year: int) -> bool {
    (year % 4 == 0 && year % 100 != 0) || year % 400 == 0
}

pub open spec fn days_in_month(year: int, month: int) -> int {
    if month == 2 {
        if is_leap_year(year) {
            29
        } else {
            28
        }
    } else if month == 4 || month == 6 || month == 9 || month == 11 {
        30
    } else {
        31
    }
}

/// Days from 1970-01-01 to `year-month-day`, negative before it.
pub open spec fn day_number(year: int, month: int, day: int) -> int {
    let shifted_year = if month <= 2 {
        year - 1
    } else {
        year
    };
    let era = shifted_year / 400;
    let year_of_era = shifted_year - era * 400;
    let shifted_month = if month > 2 {
        month - 3
    } else {
        month + 9
    };
    let day_of_year = (153 * shifted_month + 2) / 5 + day - 1;
    let day_of_era = year_of_era * 365 + year_of_era / 4 - year_of_era / 100 + day_of_year;
    era * 146097 + day_of_era - 719468
}

impl CivilDate {
    /// A real calendar date within the years `jiff` and ICU both support.
    pub open spec fn is_valid(self) -> bool {
        &&& -9999 <= self.year <= 9999
        &&& 1 <= self.month <= 12
        &&& 1 <= self.day <= days_in_month(self.year as int, self.month as int)
    }

    /// Days since the Unix epoch.
    pub open spec fn days(self) -> int {
        day_number(self.year as int, self.month as int, self.day as int)
    }

    /// Whether some time zone shows the instant `unix_ms` on this date: the
    /// instant lies within the date's day, widened by the largest offset.
    pub open spec fn shows(self, unix_ms: int) -> bool {
        self.days() * MILLIS_PER_DAY - MAX_OFFSET_MS <= unix_ms < (self.days() + 1)
            * MILLIS_PER_DAY + MAX_OFFSET_MS
    }
}

/// Days from the start of the era-aligned calendar to March 1 of the
/// March-based year `shifted_year`, the part of `day_number` that depends
/// on the year.
pub open spec fn shifted_year_start(shifted_year: int) -> int {
    let era = shifted_year / 400;
    let year_of_era = shifted_year - era * 400;
    era * 146097 + year_of_era * 365 + year_of_era / 4 - year_of_era / 100
}

/// One more year of an era adds a day exactly on the years divisible by 4
/// but not by 100.
proof fn lemma_year_of_era_step(n: int)
    requires
        1 <= n < 400,
    ensures
        n / 4 - (n - 1) / 4 == (if n % 4 == 0 { 1int } else { 0int }),
        n / 100 - (n - 1) / 100 == (if n % 100 == 0 { 1int } else { 0int }),
{
}

/// Leap years repeat every 400 years.
proof fn lemma_leap_year_period(year: int, era: int, n: int)
    requires
        year == era * 400 + n,
    ensures
        is_leap_year(year) == is_leap_year(n),
{
    vstd::arithmetic::div_mod::lemma_mod_multiples_vanish(era * 100, n, 4);
    vstd::arithmetic::div_mod::lemma_mod_multiples_vanish(era * 4, n, 100);
    vstd::arithmetic::div_mod::lemma_mod_multiples_vanish(era, n, 400);
    assert(4 * (era * 100) == era * 400) by (nonlinear_arith);
    assert(100 * (era * 4) == era * 400) by (nonlinear_arith);
    assert(400 * era == era * 400) by (nonlinear_arith);
}

/// A March-based year is 366 days long exactly when the February it ends
/// with is a leap February.
pub proof fn lemma_shifted_year_length(shifted_year: int)
    ensures
        shifted_year_start(shifted_year + 1) - shifted_year_start(shifted_year) == 365 + (if is_leap_year(
            shifted_year + 1,
        ) {
            1int
        } else {
            0int
        }),
{
    let era = shifted_year / 400;
    let year_of_era = shifted_year - era * 400;
    vstd::arithmetic::div_mod::lemma_fundamental_div_mod(shifted_year, 400);
    assert(0 <= year_of_era < 400);
    let n = year_of_era + 1;
    if n < 400 {
        vstd::arithmetic::div_mod::lemma_fundamental_div_mod_converse(shifted_year + 1, 400, era, n);
        lemma_year_of_era_step(n);
        lemma_leap_year_period(shifted_year + 1, era, n);
    } else {
        vstd::arithmetic::div_mod::lemma_fundamental_div_mod_converse(
            shifted_year + 1,
            400,
            era + 1,
            0,
        );
        lemma_leap_year_period(shifted_year + 1, era + 1, 0);
    }
}

/// A date is its month's first day plus the days after it.
pub proof fn lemma_day_in_month(year: int, month: int, day: int)
    ensures
        day_number(year, month, day) == day_number(year, month, 1) + day - 1,
{
}

/// The next month starts right after the last day of this one.
pub proof fn lemma_month_length(year: int, month: int)
    requires
        1 <= month <= 11,
    ensures
        day_number(year, month + 1, 1) == day_number(year, month, 1) + days_in_month(year, month),
{
    if month == 2 {
        lemma_shifted_year_length(year - 1);
        assert(day_number(year, 3, 1) == shifted_year_start(year) - 719468);
        assert(day_number(year, 2, 1) == shifted_year_start(year - 1) + 337 - 719468);
    } else if month == 1 {
        assert(day_number(year, 1, 1) == shifted_year_start(year - 1) + 306 - 719468);
        assert(day_number(year, 2, 1) == shifted_year_start(year - 1) + 337 - 719468);
    } else {
        assert(day_number(year, month, 1) == shifted_year_start(year) + (153 * (month - 3) + 2) / 5
            - 719468);
        assert(day_number(year, month + 1, 1) == shifted_year_start(year) + (153 * (month - 2) + 2)
            / 5 - 719468);
    }
}

/// The next year starts right after December 31.
pub proof fn lemma_year_length(year: int)
    ensures
        day_number(year + 1, 1, 1) == day_number(year, 12, 1) + 31,
{
    assert(day_number(year + 1, 1, 1) == shifted_year_start(year) + 306 - 719468);
    assert(day_number(year, 12, 1) == shifted_year_start(year) + 275 - 719468);
}

/// Later months of a year start later.
pub proof fn lemma_month_starts_ordered(year: int, first: int, second: int)
    requires
        1 <= first < second <= 12,
    ensures
        day_number(year, second, 1) >= day_number(year, first, 1) + days_in_month(year, first),
    decreases second - first,
{
    lemma_month_length(year, second - 1);
    if first < second - 1 {
        lemma_month_starts_ordered(year, first, second - 1);
    }
}

/// A valid date lies within its year: on or after January 1 and before
/// the next January 1.
pub proof fn lemma_date_within_year(date: CivilDate)
    requires
        date.is_valid(),
    ensures
        day_number(date.year as int, 1, 1) <= date.days() < day_number(date.year + 1, 1, 1),
{
    let y = date.year as int;
    let m = date.month as int;
    lemma_day_in_month(y, m, date.day as int);
    lemma_year_length(y);
    if m > 1 {
        lemma_month_starts_ordered(y, 1, m);
    }
    if m < 12 {
        lemma_month_starts_ordered(y, m, 12);
    }
}

/// Later years start later.
pub proof fn lemma_year_starts_ordered(first: int, second: int)
    requires
        first <= second,
    ensures
        day_number(first, 1, 1) <= day_number(second, 1, 1),
    decreases second - first,
{
    if first < second {
        lemma_year_starts_ordered(first, second - 1);
        lemma_year_length(second - 1);
        lemma_month_starts_ordered(second - 1, 1, 12);
    }
}

/// The day count orders valid dates as the calendar does: a date on an
/// earlier or the same day is in an earlier or the same year, and two
/// dates on the same day are the same date.
pub proof fn lemma_days_order_dates(first: CivilDate, second: CivilDate)
    requires
        first.is_valid(),
        second.is_valid(),
    ensures
        first.days() <= second.days() ==> first.year <= second.year,
        first.days() == second.days() ==> first == second,
{
    lemma_date_within_year(first);
    lemma_date_within_year(second);
    if first.year > second.year {
        lemma_year_starts_ordered(second.year + 1, first.year as int);
    }
    if second.year > first.year {
        lemma_year_starts_ordered(first.year + 1, second.year as int);
    }
    if first.year == second.year {
        let y = first.year as int;
        lemma_day_in_month(y, first.month as int, first.day as int);
        lemma_day_in_month(y, second.month as int, second.day as int);
        if first.month < second.month {
            lemma_month_starts_ordered(y, first.month as int, second.month as int);
        }
        if second.month < first.month {
            lemma_month_starts_ordered(y, second.month as int, first.month as int);
        }
    }
}

/// Calls `jiff::Timestamp::from_millisecond`, which fails exactly when the
/// value lies outside `Timestamp::MIN ..= Timestamp::MAX`.
#[verifier::external_body]
pub(crate) fn jiff_timestamp_from_millisecond(unix_ms: i64) -> (res: Result<jiff::Timestamp, jiff::Error>)
    ensures
        res is Ok <==> millis_in_range(unix_ms as int),
{
    jiff::Timestamp::from_millisecond(unix_ms)
}

/// Calls `jiff::Timestamp::from_second`, which fails exactly when the value
/// lies outside `Timestamp::MIN ..= Timestamp::MAX`.
#[verifier::external_body]
pub(crate) fn jiff_timestamp_from_second(unix_seconds: i64) -> (res: Result<
    jiff::Timestamp,
    jiff::Error,
>)
    ensures
        res is Ok <==> seconds_in_range(unix_seconds as int),
{
    jiff::Timestamp::from_second(unix_seconds)
}

/// Whether `id` is "UTC" up to ASCII case.
pub open spec fn names_utc(id: Seq<char>) -> bool {
    &&& id.len() == 3
    &&& ascii_lower_char(id[0]) == 'u'
    &&& ascii_lower_char(id[1]) == 't'
    &&& ascii_lower_char(id[2]) == 'c'
}

/// Whether `offsets` can be the offsets, in milliseconds at each instant,
/// of a zone looked up by `id`: each is a whole number of seconds of at most
/// 25:59:59, and a zone named "UTC" up to ASCII case has none.
pub open spec fn offsets_fit(offsets: spec_fn(int) -> int, id: Seq<char>) -> bool {
    &&& forall|t: int| -MAX_OFFSET_MS <= #[trigger] offsets(t) <= MAX_OFFSET_MS
    &&& forall|t: int| #[trigger] offsets(t) % 1000 == 0
    &&& names_utc(id) ==> forall|t: int| #[trigger] offsets(t) == 0
}

/// `date` is the local date of `unix_ms` under the offset `offset_ms` (zero
/// for UTC).
pub open spec fn date_at_offset(date: CivilDate, unix_ms: int, offset_ms: int) -> bool {
    date.days() * MILLIS_PER_DAY <= unix_ms + offset_ms < (date.days() + 1) * MILLIS_PER_DAY
}

/// A time zone of the database together with the identifier it was looked
/// up by and, as a model, the offset it uses at each instant.
pub struct NamedTimeZone {
    zone: jiff::tz::TimeZone,
    id: String,
    offsets: Ghost<spec_fn(int) -> int>,
}

impl NamedTimeZone {
    /// The offset model fits the identifier.
    #[verifier::type_invariant]
    spec fn offsets_fit_id(self) -> bool {
        offsets_fit(self.offsets@, self.id@)
    }

    /// The identifier the zone was looked up by.
    pub closed spec fn id_spec(&self) -> Seq<char> {
        self.id@
    }

    /// The zone found.
    pub closed spec fn zone_spec(&self) -> jiff::tz::TimeZone {
        self.zone
    }

    /// The zone's offsets, in milliseconds at each instant in Unix
    /// milliseconds.
    pub closed spec fn offsets_spec(&self) -> spec_fn(int) -> int {
        self.offsets@
    }

    /// The identifier the zone was looked up by.
    pub fn id(&self) -> (id: &str)
        ensures
            id@ == self.id_spec(),
    {
        self.id.as_str()
    }

    /// The zone found.
    pub fn zone(&self) -> (zone: &jiff::tz::TimeZone)
        ensures
            *zone == self.zone_spec(),
    {
        &self.zone
    }
}

impl Clone for NamedTimeZone {
    /// The same zone under the same identifier.
    fn clone(&self) -> (copy: Self)
        ensures
            copy.id_spec() == self.id_spec(),
            copy.offsets_spec() == self.offsets_spec(),
    {
        proof {
            use_type_invariant(self);
        }
        NamedTimeZone {
            zone: jiff_time_zone_clone(&self.zone),
            id: self.id.clone(),
            offsets: self.offsets,
        }
    }
}

/// Calls `jiff::tz::TimeZone::get`, which looks the identifier up in the
/// time zone database of the system it runs on, and keeps the zone found
/// with the identifier it was asked for. Whether the identifier is found,
/// and which offsets the zone found uses, is not stated: the offsets are
/// kept as a model that is only known to fit `jiff`'s bounds, and to be zero
/// for an identifier equal to "UTC" up to ASCII case, for which `jiff`
/// documents that the zone found is `TimeZone::UTC`.
#[verifier::external_body]
fn jiff_time_zone_get(timezone_id: &str) -> (res: Result<NamedTimeZone, jiff::Error>)
    ensures
        res matches Ok(zone) ==> zone.id_spec() == timezone_id@ && offsets_fit(
            zone.offsets_spec(),
            timezone_id@,
        ),
{
    jiff::tz::TimeZone::get(timezone_id).map(
        |zone| NamedTimeZone { zone, id: timezone_id.to_owned(), offsets: Ghost(vstd::pervasive::arbitrary()) },
    )
}

/// A local date and wall-clock time, as a time zone shows an instant.
#[derive(Debug, Clone, Copy, PartialEq, Eq, Structural)]
pub struct LocalDateTimeParts {
    pub year: i16,
    pub month: i8,
    pub day: i8,
    pub hour: i8,
    pub minute: i8,
    pub second: i8,
    pub millisecond: i16,
}

impl LocalDateTimeParts {
    /// The civil date part.
    pub open spec fn date(self) -> CivilDate {
        CivilDate { year: self.year, month: self.month, day: self.day }
    }

    /// The wall-clock time in milliseconds since the local epoch
    /// 1970-01-01T00:00.
    pub open spec fn local_millis(self) -> int {
        self.date().days() * MILLIS_PER_DAY + self.hour * 3_600_000 + self.minute * 60_000
            + self.second * 1000 + self.millisecond
    }

    /// Whether these parts can be how some time zone shows `unix_ms`.
    pub open spec fn shows(self, unix_ms: int) -> bool {
        within_offset(self.local_millis(), unix_ms)
    }

    /// A real date and a wall-clock time without leap seconds.
    pub open spec fn is_valid(self) -> bool {
        &&& self.date().is_valid()
        &&& 0 <= self.hour <= 23
        &&& 0 <= self.minute <= 59
        &&& 0 <= self.second <= 59
        &&& 0 <= self.millisecond <= 999
    }
}

/// The date of parts that show an instant shows the instant: the wall-clock
/// time lies within its own day.
pub proof fn lemma_parts_date_shows(parts: LocalDateTimeParts, unix_ms: int)
    requires
        parts.is_valid(),
        parts.shows(unix_ms),
    ensures
        parts.date().shows(unix_ms),
{
}

/// Calls `jiff::Timestamp::from_millisecond` and `Timestamp::to_zoned`:
/// the local date and time of the instant in the zone. `jiff` shows an
/// instant as the instant plus the zone's offset at that instant, an offset
/// of at most 25:59:59 and a whole number of seconds, on the proleptic
/// Gregorian calendar without leap seconds, and keeps every instant of its
/// range within the years -9999..=9999 under any offset. The offset is the
/// one the zone's offset model gives at that instant; which offset that is
/// comes from the time zone database and is not stated.
#[verifier::external_body]
pub(crate) fn jiff_local_parts(unix_ms: i64, timezone: &NamedTimeZone) -> (parts:
    LocalDateTimeParts)
    requires
        millis_in_range(unix_ms as int),
    ensures
        parts.is_valid(),
        parts.local_millis() == unix_ms + timezone.offsets_spec()(unix_ms as int),
        parts.shows(unix_ms as int),
        parts.millisecond == (unix_ms as int) % 1000,
{
    let zoned = jiff::Timestamp::from_millisecond(unix_ms).unwrap().to_zoned(
        timezone.zone.clone(),
    );
    LocalDateTimeParts {
        year: zoned.year(),
        month: zoned.month(),
        day: zoned.day(),
        hour: zoned.hour(),
        minute: zoned.minute(),
        second: zoned.second(),
        millisecond: zoned.millisecond(),
    }
}

/// Calls `jiff::civil::Date::duration_until` and `SignedDuration::as_secs`:
/// the elapsed seconds from the start of `from` to the start of `to`, that
/// is a whole number of 86 400-second civil days.
#[verifier::external_body]
pub(crate) fn jiff_date_duration_secs(from: CivilDate, to: CivilDate) -> (secs: i64)
    requires
        from.is_valid(),
        to.is_valid(),
    ensures
        secs == (to.days() - from.days()) * 86400,
{
    let from = jiff::civil::date(from.year, from.month, from.day);
    let to = jiff::civil::date(to.year, to.month, to.day);
    from.duration_until(to).as_secs()
}

/// Calls `jiff::tz::TimeZone::clone`; a time zone is opaque here, so nothing
/// is stated of the copy.
#[verifier::external_body]
fn jiff_time_zone_clone(timezone: &jiff::tz::TimeZone) -> jiff::tz::TimeZone {
    timezone.clone()
}

/// Checks that `unix_ms` is an instant the library represents.
pub fn timestamp_from_millis(unix_ms: i64) -> (res: TimelineDateResult<()>)
    ensures
        res is Ok <==> millis_in_range(unix_ms as int),
        res is Err ==> res == Err::<(), TimelineDateError>(
            TimelineDateError::InvalidTimestamp(unix_ms),
        ),
{
    match jiff_timestamp_from_millisecond(unix_ms) {
        Ok(_) => Ok(()),
        Err(_) => Err(TimelineDateError::InvalidTimestamp(unix_ms)),
    }
}

/// The outcome of looking `timezone_id` up: the time zone found, or the
/// identifier itself reported as unknown.
pub fn timezone_lookup_result(
    timezone_id: &str,
    lookup: Result<NamedTimeZone, jiff::Error>,
) -> (res: TimelineDateResult<NamedTimeZone>)
    ensures
        match lookup {
            Ok(timezone) => res matches Ok(found) && found == timezone,
            Err(_) => res matches Err(TimelineDateError::InvalidTimezone(id)) && id@
                == timezone_id@,
        },
{
    match lookup {
        Ok(timezone) => Ok(timezone),
        Err(_) => Err(TimelineDateError::InvalidTimezone(String::from_str(timezone_id))),
    }
}

/// Looks up a time zone by its identifier in the system's time zone
/// database; an unknown identifier is reported with the identifier itself.
/// Which identifiers are known depends on that database, so success is not
/// stated; a zone found is the one named by `timezone_id`.
pub fn timezone_from_id(timezone_id: &str) -> (res: TimelineDateResult<NamedTimeZone>)
    ensures
        res matches Ok(zone) ==> zone.id_spec() == timezone_id@ && offsets_fit(
            zone.offsets_spec(),
            timezone_id@,
        ),
        res matches Err(e) ==> (e matches TimelineDateError::InvalidTimezone(id) && id@
            == timezone_id@),
{
    timezone_lookup_result(timezone_id, jiff_time_zone_get(timezone_id))
}

} // verus!

verus! {

/// A validated "now" together with the user's time zone.
pub struct ValidatedClock {
    pub(crate) timezone: NamedTimeZone,
    pub(crate) now_unix_ms: i64,
}

impl Clone for ValidatedClock {
    /// A clock with the same instant and time zone.
    fn clone(&self) -> (clock: Self)
        ensures
            clock.now_spec() == self.now_spec(),
            clock.is_valid() == self.is_valid(),
            clock.timezone_id_spec() == self.timezone_id_spec(),
            clock.offsets_spec() == self.offsets_spec(),
    {
        ValidatedClock {
            timezone: self.timezone.clone(),
            now_unix_ms: self.now_unix_ms,
        }
    }
}

impl ValidatedClock {
    /// The clock's instant lies in the supported range, and its zone's
    /// offset model fits the zone's identifier.
    pub closed spec fn is_valid(&self) -> bool {
        &&& millis_in_range(self.now_unix_ms as int)
        &&& offsets_fit(self.timezone.offsets_spec(), self.timezone.id_spec())
    }

    /// The offsets of the clock's time zone, in milliseconds at each instant.
    pub closed spec fn offsets_spec(&self) -> spec_fn(int) -> int {
        self.timezone.offsets_spec()
    }

    /// The clock's instant, in Unix milliseconds.
    pub closed spec fn now_spec(&self) -> int {
        self.now_unix_ms as int
    }

    /// The identifier of the clock's time zone.
    pub closed spec fn timezone_id_spec(&self) -> Seq<char> {
        self.timezone.id_spec()
    }

    /// Validates the time zone identifier, then the instant.
    pub fn new(now_unix_ms: i64, timezone_id: &str) -> (res: TimelineDateResult<Self>)
        ensures
            res matches Ok(clock) ==> clock.is_valid() && clock.now_spec() == now_unix_ms
                && clock.timezone_id_spec() == timezone_id@ && offsets_fit(
                clock.offsets_spec(),
                timezone_id@,
            ),
            !millis_in_range(now_unix_ms as int) ==> res is Err,
            res matches Err(e) ==> {
                ||| (e matches TimelineDateError::InvalidTimezone(id) && id@ == timezone_id@)
                ||| (e == TimelineDateError::InvalidTimestamp(now_unix_ms) && !millis_in_range(
                    now_unix_ms as int,
                ))
            },
    {
        Self::clock_from_lookup(now_unix_ms, timezone_from_id(timezone_id))
    }

    /// The clock for `now_unix_ms` once its time zone has been looked up: a
    /// failed lookup is passed on, a found zone with an instant out of range
    /// is an invalid timestamp, and otherwise the clock has both.
    pub fn clock_from_lookup(now_unix_ms: i64, zone: TimelineDateResult<NamedTimeZone>) -> (res:
        TimelineDateResult<Self>)
        ensures
            match zone {
                Err(e) => res == Err::<Self, TimelineDateError>(e),
                Ok(z) => if millis_in_range(now_unix_ms as int) {
                    res matches Ok(clock) && clock.is_valid() && clock.now_spec() == now_unix_ms
                        && clock.timezone_id_spec() == z.id_spec() && clock.offsets_spec()
                        == z.offsets_spec()
                } else {
                    res == Err::<Self, TimelineDateError>(
                        TimelineDateError::InvalidTimestamp(now_unix_ms),
                    )
                },
            },
    {
        let timezone = zone?;
        proof {
            use_type_invariant(&timezone);
        }
        timestamp_from_millis(now_unix_ms)?;
        Ok(ValidatedClock { timezone, now_unix_ms })
    }

    /// The clock's instant, in Unix milliseconds.
    pub fn now_millis(&self) -> (now: i64)
        ensures
            now == self.now_spec(),
            self.is_valid() ==> millis_in_range(now as int),
    {
        self.now_unix_ms
    }

    /// The identifier of the clock's time zone.
    pub fn timezone_id(&self) -> (id: &str)
        ensures
            id@ == self.timezone_id_spec(),
    {
        self.timezone.id()
    }

    /// The civil date of `unix_ms` in the clock's time zone.
    pub fn local_date(&self, unix_ms: i64) -> (date: CivilDate)
        requires
            millis_in_range(unix_ms as int),
        ensures
            date.is_valid(),
            date_at_offset(date, unix_ms as int, self.offsets_spec()(unix_ms as int)),
            date.shows(unix_ms as int),
    {
        let parts = jiff_local_parts(unix_ms, &self.timezone);
        proof {
            lemma_parts_date_shows(parts, unix_ms as int);
        }
        CivilDate { year: parts.year, month: parts.month, day: parts.day }
    }
}

} // verus!
