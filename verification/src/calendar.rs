//! The calendar: what `chrono` and `chrono-tz` compute, behind functions that
//! take and give plain numbers and texts.
//!
//! An instant goes in as whole seconds since the epoch, the nanoseconds since
//! the last whole second, and the offset in seconds; it comes back as seconds
//! and nanoseconds. Nothing in this module is proved: each function states
//! what it claims of the call it makes.

use chrono::{DateTime, Datelike, Days, FixedOffset, Local, Locale, Months, NaiveDateTime, Timelike, Utc};
use chrono_tz::Tz;
use vstd::prelude::*;
use crate::instant::{MAX_SECONDS, MIN_SECONDS};

verus! {

/// What a calendar function needs of the instant that it is given: the seconds
/// in range, the nanoseconds short of a second, the offset short of a day.
pub open spec fn reading_ready(secs: i64, nanos: u32, offset: i32) -> bool {
    &&& MIN_SECONDS <= secs <= MAX_SECONDS
    &&& nanos < 1_000_000_000
    &&& -86_400 < offset < 86_400
}

/// The seconds since local midnight at an instant.
pub open spec fn time_of_day(seconds: int, offset: int) -> int {
    (seconds + offset) % 86_400
}

/// Whether a count of seconds lies in the range of instants.
pub open spec fn seconds_in_range(seconds: int) -> bool {
    MIN_SECONDS <= seconds <= MAX_SECONDS
}

/// The instant whose local time of day is `time` on the local day of the
/// instant given, where `fits` says that the value set is one of its field and
/// where the instant reached lies in range.
pub open spec fn clock_set(fits: bool, seconds: int, subsec: int, offset: int, time: int) -> Option<
    (int, int),
> {
    let target = seconds - time_of_day(seconds, offset) + time;
    if fits && seconds_in_range(target) {
        Some((target, subsec))
    } else {
        None
    }
}

/// The instant a number of days later, or earlier where `back` is set: the
/// local date moves and the local time stays. There is a result where nothing
/// moves, and where the instant reached and its local date and time both lie
/// in range.
pub open spec fn days_moved(seconds: int, subsec: int, offset: int, days: int, back: bool) -> Option<
    (int, int),
> {
    let target = if back {
        seconds - 86_400 * days
    } else {
        seconds + 86_400 * days
    };
    if days == 0 || (seconds_in_range(target) && seconds_in_range(target + offset)) {
        Some((target, subsec))
    } else {
        None
    }
}

/// The instant that shows a given local day and, on it, the time of day of
/// the instant given.
pub open spec fn landed(day: Option<int>, seconds: int, subsec: int, offset: int) -> Option<
    (int, int),
> {
    match day {
        Some(d) => Some((d * 86_400 + time_of_day(seconds, offset) - offset, subsec)),
        None => None,
    }
}

/// A reading as numbers without bounds.
pub open spec fn reading_of(r: Option<(i64, u32)>) -> Option<(int, int)> {
    match r {
        Some((secs, nanos)) => Some((secs as int, nanos as int)),
        None => None,
    }
}

/// The characters of a text that may be absent.
pub open spec fn text_of(r: Option<String>) -> Option<Seq<char>> {
    match r {
        Some(text) => Some(text@),
        None => None,
    }
}

/// An offset as a number without bounds.
pub open spec fn offset_of(r: Option<i32>) -> Option<int> {
    match r {
        Some(offset) => Some(offset as int),
        None => None,
    }
}

/// A count as a number without bounds.
pub open spec fn count_of(r: Option<u32>) -> Option<int> {
    match r {
        Some(count) => Some(count as int),
        None => None,
    }
}

/// The local day of the instant's local date with its day of the year set to `ordinal`, counted from 1: a
/// count of days since 1970-01-01, where the calendar holds that date.
pub uninterp spec fn day_with_ordinal(seconds: int, subsec: int, offset: int, ordinal: int) -> Option<int>;

/// The local day of the instant's local date with its day of the year set to `ordinal0`, counted from 0: a
/// count of days since 1970-01-01, where the calendar holds that date.
pub uninterp spec fn day_with_ordinal0(seconds: int, subsec: int, offset: int, ordinal0: int) -> Option<int>;

/// The local day of the instant's local date with its year set to `year`: a
/// count of days since 1970-01-01, where the calendar holds that date.
pub uninterp spec fn day_with_year(seconds: int, subsec: int, offset: int, year: int) -> Option<int>;

/// The local day of the instant's local date with its month set to `month`, counted from 1: a
/// count of days since 1970-01-01, where the calendar holds that date.
pub uninterp spec fn day_with_month(seconds: int, subsec: int, offset: int, month: int) -> Option<int>;

/// The local day of the instant's local date with its month set to `month0`, counted from 0: a
/// count of days since 1970-01-01, where the calendar holds that date.
pub uninterp spec fn day_with_month0(seconds: int, subsec: int, offset: int, month0: int) -> Option<int>;

/// The local day of the instant's local date with its day of the month set to `day`, counted from 1: a
/// count of days since 1970-01-01, where the calendar holds that date.
pub uninterp spec fn day_with_day(seconds: int, subsec: int, offset: int, day: int) -> Option<int>;

/// The local day of the instant's local date with its day of the month set to `day0`, counted from 0: a
/// count of days since 1970-01-01, where the calendar holds that date.
pub uninterp spec fn day_with_day0(seconds: int, subsec: int, offset: int, day0: int) -> Option<int>;

/// The local day of the instant's local date a number of calendar months
/// later: a count of days since 1970-01-01, where the calendar holds that date.
pub uninterp spec fn day_months_later(seconds: int, subsec: int, offset: int, months: int) -> Option<int>;

/// The local day of the instant's local date a number of calendar months
/// earlier: a count of days since 1970-01-01, where the calendar holds that date.
pub uninterp spec fn day_months_earlier(seconds: int, subsec: int, offset: int, months: int) -> Option<int>;

/// The instant that an RFC 2822 text writes.
pub uninterp spec fn rfc2822_reading(text: Seq<char>) -> Option<(int, int)>;

/// The instant that an RFC 3339 text writes.
pub uninterp spec fn rfc3339_reading(text: Seq<char>) -> Option<(int, int)>;

/// The instant that a text writes under a pattern, taken as UTC.
pub uninterp spec fn pattern_reading(text: Seq<char>, pattern: Seq<char>) -> Option<(int, int)>;

/// The offset in seconds that a text such as `+02:00` writes.
pub uninterp spec fn fixed_offset_reading(text: Seq<char>) -> Option<int>;

/// The offset in seconds that a named zone has at an instant.
pub uninterp spec fn zone_offset_reading(name: Seq<char>, seconds: int, subsec: int) -> Option<int>;

/// Whether a text names a locale.
pub uninterp spec fn locale_known(text: Seq<char>) -> bool;

/// The instant written under a pattern.
pub uninterp spec fn pattern_text(seconds: int, subsec: int, offset: int, pattern: Seq<char>) -> Option<Seq<char>>;

/// The instant written under a pattern with the names of a locale.
pub uninterp spec fn localized_text(seconds: int, subsec: int, offset: int, pattern: Seq<char>, locale: Seq<char>) -> Option<Seq<char>>;

/// The instant written as RFC 2822.
pub uninterp spec fn rfc2822_text(seconds: int, subsec: int, offset: int) -> Seq<char>;

/// The instant written as RFC 3339.
pub uninterp spec fn rfc3339_text(seconds: int, subsec: int, offset: int) -> Seq<char>;

/// The whole calendar years from a base instant to an instant, each taken as
/// the local date and time under its own offset, where there is such a count.
pub uninterp spec fn years_elapsed(seconds: int, subsec: int, offset: int, base_seconds: int, base_subsec: int, base_offset: int) -> int;

/// Calls `Datelike::with_ordinal` of `chrono` on the instant as a
/// `DateTime<FixedOffset>`. Claims that the local day reached depends on the
/// arguments alone, and that the local time of day and the nanosecond stay.
#[verifier::external_body]
pub(crate) fn with_ordinal(
    secs: i64,
    nanos: u32,
    offset: i32,
    ordinal: u32,
) -> (r: Option<(i64, u32)>)
    requires
        reading_ready(secs, nanos, offset),
    ensures
        reading_of(r) == landed(
            day_with_ordinal(secs as int, nanos as int, offset as int, ordinal as int),
            secs as int,
            nanos as int,
            offset as int,
        ),
{
    let zone = FixedOffset::east_opt(offset).unwrap();
    let at = DateTime::from_timestamp(secs, nanos).unwrap().with_timezone(&zone);
    at.with_ordinal(ordinal).map(|d| (d.timestamp(), d.timestamp_subsec_nanos()))
}

/// Calls `Datelike::with_ordinal0` of `chrono` on the instant as a
/// `DateTime<FixedOffset>`. Claims that the local day reached depends on the
/// arguments alone, and that the local time of day and the nanosecond stay.
#[verifier::external_body]
pub(crate) fn with_ordinal0(
    secs: i64,
    nanos: u32,
    offset: i32,
    ordinal0: u32,
) -> (r: Option<(i64, u32)>)
    requires
        reading_ready(secs, nanos, offset),
    ensures
        reading_of(r) == landed(
            day_with_ordinal0(secs as int, nanos as int, offset as int, ordinal0 as int),
            secs as int,
            nanos as int,
            offset as int,
        ),
{
    let zone = FixedOffset::east_opt(offset).unwrap();
    let at = DateTime::from_timestamp(secs, nanos).unwrap().with_timezone(&zone);
    at.with_ordinal0(ordinal0).map(|d| (d.timestamp(), d.timestamp_subsec_nanos()))
}

/// Calls `Datelike::with_year` of `chrono` on the instant as a
/// `DateTime<FixedOffset>`. Claims that the local day reached depends on the
/// arguments alone, and that the local time of day and the nanosecond stay.
#[verifier::external_body]
pub(crate) fn with_year(secs: i64, nanos: u32, offset: i32, year: i32) -> (r: Option<(i64, u32)>)
    requires
        reading_ready(secs, nanos, offset),
    ensures
        reading_of(r) == landed(
            day_with_year(secs as int, nanos as int, offset as int, year as int),
            secs as int,
            nanos as int,
            offset as int,
        ),
{
    let zone = FixedOffset::east_opt(offset).unwrap();
    let at = DateTime::from_timestamp(secs, nanos).unwrap().with_timezone(&zone);
    at.with_year(year).map(|d| (d.timestamp(), d.timestamp_subsec_nanos()))
}

/// Calls `Datelike::with_month` of `chrono` on the instant as a
/// `DateTime<FixedOffset>`. Claims that the local day reached depends on the
/// arguments alone, and that the local time of day and the nanosecond stay.
#[verifier::external_body]
pub(crate) fn with_month(secs: i64, nanos: u32, offset: i32, month: u32) -> (r: Option<(i64, u32)>)
    requires
        reading_ready(secs, nanos, offset),
    ensures
        reading_of(r) == landed(
            day_with_month(secs as int, nanos as int, offset as int, month as int),
            secs as int,
            nanos as int,
            offset as int,
        ),
{
    let zone = FixedOffset::east_opt(offset).unwrap();
    let at = DateTime::from_timestamp(secs, nanos).unwrap().with_timezone(&zone);
    at.with_month(month).map(|d| (d.timestamp(), d.timestamp_subsec_nanos()))
}

/// Calls `Datelike::with_month0` of `chrono` on the instant as a
/// `DateTime<FixedOffset>`. Claims that the local day reached depends on the
/// arguments alone, and that the local time of day and the nanosecond stay.
#[verifier::external_body]
pub(crate) fn with_month0(
    secs: i64,
    nanos: u32,
    offset: i32,
    month0: u32,
) -> (r: Option<(i64, u32)>)
    requires
        reading_ready(secs, nanos, offset),
    ensures
        reading_of(r) == landed(
            day_with_month0(secs as int, nanos as int, offset as int, month0 as int),
            secs as int,
            nanos as int,
            offset as int,
        ),
{
    let zone = FixedOffset::east_opt(offset).unwrap();
    let at = DateTime::from_timestamp(secs, nanos).unwrap().with_timezone(&zone);
    at.with_month0(month0).map(|d| (d.timestamp(), d.timestamp_subsec_nanos()))
}

/// Calls `Datelike::with_day` of `chrono` on the instant as a
/// `DateTime<FixedOffset>`. Claims that the local day reached depends on the
/// arguments alone, and that the local time of day and the nanosecond stay.
#[verifier::external_body]
pub(crate) fn with_day(secs: i64, nanos: u32, offset: i32, day: u32) -> (r: Option<(i64, u32)>)
    requires
        reading_ready(secs, nanos, offset),
    ensures
        reading_of(r) == landed(
            day_with_day(secs as int, nanos as int, offset as int, day as int),
            secs as int,
            nanos as int,
            offset as int,
        ),
{
    let zone = FixedOffset::east_opt(offset).unwrap();
    let at = DateTime::from_timestamp(secs, nanos).unwrap().with_timezone(&zone);
    at.with_day(day).map(|d| (d.timestamp(), d.timestamp_subsec_nanos()))
}

/// Calls `Datelike::with_day0` of `chrono` on the instant as a
/// `DateTime<FixedOffset>`. Claims that the local day reached depends on the
/// arguments alone, and that the local time of day and the nanosecond stay.
#[verifier::external_body]
pub(crate) fn with_day0(secs: i64, nanos: u32, offset: i32, day0: u32) -> (r: Option<(i64, u32)>)
    requires
        reading_ready(secs, nanos, offset),
    ensures
        reading_of(r) == landed(
            day_with_day0(secs as int, nanos as int, offset as int, day0 as int),
            secs as int,
            nanos as int,
            offset as int,
        ),
{
    let zone = FixedOffset::east_opt(offset).unwrap();
    let at = DateTime::from_timestamp(secs, nanos).unwrap().with_timezone(&zone);
    at.with_day0(day0).map(|d| (d.timestamp(), d.timestamp_subsec_nanos()))
}

/// Calls `Timelike::with_hour` of `chrono` on the instant as a
/// `DateTime<FixedOffset>`. Claims that there is a result exactly where the
/// hour is less than 24 and the instant reached lies in range, and that the
/// result has the local hour replaced while the local day, minute, second and
/// nanosecond stay.
#[verifier::external_body]
pub(crate) fn with_hour(secs: i64, nanos: u32, offset: i32, hour: u32) -> (r: Option<(i64, u32)>)
    requires
        reading_ready(secs, nanos, offset),
    ensures
        reading_of(r) == clock_set(
            hour < 24,
            secs as int,
            nanos as int,
            offset as int,
            hour * 3600 + time_of_day(secs as int, offset as int) % 3600,
        ),
{
    let zone = FixedOffset::east_opt(offset).unwrap();
    let at = DateTime::from_timestamp(secs, nanos).unwrap().with_timezone(&zone);
    at.with_hour(hour).map(|d| (d.timestamp(), d.timestamp_subsec_nanos()))
}

/// Calls `Timelike::with_minute` of `chrono` on the instant as a
/// `DateTime<FixedOffset>`. Claims that there is a result exactly where the
/// minute is less than 60 and the instant reached lies in range, and that the
/// result has the local minute replaced while the local day, hour, second and
/// nanosecond stay.
#[verifier::external_body]
pub(crate) fn with_minute(
    secs: i64,
    nanos: u32,
    offset: i32,
    minute: u32,
) -> (r: Option<(i64, u32)>)
    requires
        reading_ready(secs, nanos, offset),
    ensures
        reading_of(r) == clock_set(
            minute < 60,
            secs as int,
            nanos as int,
            offset as int,
            time_of_day(secs as int, offset as int) / 3600 * 3600 + minute * 60 + time_of_day(
                secs as int,
                offset as int,
            ) % 60,
        ),
{
    let zone = FixedOffset::east_opt(offset).unwrap();
    let at = DateTime::from_timestamp(secs, nanos).unwrap().with_timezone(&zone);
    at.with_minute(minute).map(|d| (d.timestamp(), d.timestamp_subsec_nanos()))
}

/// Calls `Timelike::with_second` of `chrono` on the instant as a
/// `DateTime<FixedOffset>`. Claims that there is a result exactly where the
/// second is less than 60 and the instant reached lies in range, and that the
/// result has the local second replaced while the local day, hour, minute and
/// nanosecond stay.
#[verifier::external_body]
pub(crate) fn with_second(
    secs: i64,
    nanos: u32,
    offset: i32,
    second: u32,
) -> (r: Option<(i64, u32)>)
    requires
        reading_ready(secs, nanos, offset),
    ensures
        reading_of(r) == clock_set(
            second < 60,
            secs as int,
            nanos as int,
            offset as int,
            time_of_day(secs as int, offset as int) / 60 * 60 + second,
        ),
{
    let zone = FixedOffset::east_opt(offset).unwrap();
    let at = DateTime::from_timestamp(secs, nanos).unwrap().with_timezone(&zone);
    at.with_second(second).map(|d| (d.timestamp(), d.timestamp_subsec_nanos()))
}

/// Calls `Timelike::with_nanosecond` of `chrono` on the instant as a
/// `DateTime<FixedOffset>`, with a nanosecond short of a second: `chrono`
/// takes a second more, as the writing of a leap second, which is not asked
/// for here. Claims that there is a result, with the nanosecond replaced and
/// the second as it was.
#[verifier::external_body]
pub(crate) fn with_nanosecond(
    secs: i64,
    nanos: u32,
    offset: i32,
    nanosecond: u32,
) -> (r: Option<(i64, u32)>)
    requires
        reading_ready(secs, nanos, offset),
        nanosecond < 1_000_000_000,
    ensures
        reading_of(r) == Some((secs as int, nanosecond as int)),
{
    let zone = FixedOffset::east_opt(offset).unwrap();
    let at = DateTime::from_timestamp(secs, nanos).unwrap().with_timezone(&zone);
    at.with_nanosecond(nanosecond).map(|d| (d.timestamp(), d.timestamp_subsec_nanos()))
}

/// Calls `DateTime::checked_add_months` of `chrono`, which keeps the day of
/// the month or, where the month reached is shorter, takes its last day.
/// Claims that the local day reached depends on the arguments alone, and that
/// the local time of day and the nanosecond stay.
#[verifier::external_body]
pub(crate) fn add_months(secs: i64, nanos: u32, offset: i32, months: u32) -> (r: Option<(i64, u32)>)
    requires
        reading_ready(secs, nanos, offset),
    ensures
        reading_of(r) == landed(
            day_months_later(secs as int, nanos as int, offset as int, months as int),
            secs as int,
            nanos as int,
            offset as int,
        ),
{
    let zone = FixedOffset::east_opt(offset).unwrap();
    let at = DateTime::from_timestamp(secs, nanos).unwrap().with_timezone(&zone);
    at.checked_add_months(Months::new(months)).map(|d| (d.timestamp(), d.timestamp_subsec_nanos()))
}

/// Calls `DateTime::checked_sub_months` of `chrono`, which keeps the day of
/// the month or, where the month reached is shorter, takes its last day.
/// Claims that the local day reached depends on the arguments alone, and that
/// the local time of day and the nanosecond stay.
#[verifier::external_body]
pub(crate) fn sub_months(secs: i64, nanos: u32, offset: i32, months: u32) -> (r: Option<(i64, u32)>)
    requires
        reading_ready(secs, nanos, offset),
    ensures
        reading_of(r) == landed(
            day_months_earlier(secs as int, nanos as int, offset as int, months as int),
            secs as int,
            nanos as int,
            offset as int,
        ),
{
    let zone = FixedOffset::east_opt(offset).unwrap();
    let at = DateTime::from_timestamp(secs, nanos).unwrap().with_timezone(&zone);
    at.checked_sub_months(Months::new(months)).map(|d| (d.timestamp(), d.timestamp_subsec_nanos()))
}

/// Calls `DateTime::checked_add_days` of `chrono`, which moves the local date
/// and keeps the local time. Under a fixed offset a day is 86400 seconds.
/// Claims that there is a result exactly where no day is added, or where the
/// instant reached lies in range and its local date and time do too, and
/// that the result lies that many seconds later.
#[verifier::external_body]
pub(crate) fn add_days(secs: i64, nanos: u32, offset: i32, days: u64) -> (r: Option<(i64, u32)>)
    requires
        reading_ready(secs, nanos, offset),
    ensures
        reading_of(r) == days_moved(secs as int, nanos as int, offset as int, days as int, false),
{
    let zone = FixedOffset::east_opt(offset).unwrap();
    let at = DateTime::from_timestamp(secs, nanos).unwrap().with_timezone(&zone);
    at.checked_add_days(Days::new(days)).map(|d| (d.timestamp(), d.timestamp_subsec_nanos()))
}

/// Calls `DateTime::checked_sub_days` of `chrono`, which moves the local date
/// and keeps the local time. Under a fixed offset a day is 86400 seconds.
/// Claims that there is a result exactly where no day is subtracted, or where
/// the instant reached lies in range and its local date and time do too, and
/// that the result lies that many seconds earlier.
#[verifier::external_body]
pub(crate) fn sub_days(secs: i64, nanos: u32, offset: i32, days: u64) -> (r: Option<(i64, u32)>)
    requires
        reading_ready(secs, nanos, offset),
    ensures
        reading_of(r) == days_moved(secs as int, nanos as int, offset as int, days as int, true),
{
    let zone = FixedOffset::east_opt(offset).unwrap();
    let at = DateTime::from_timestamp(secs, nanos).unwrap().with_timezone(&zone);
    at.checked_sub_days(Days::new(days)).map(|d| (d.timestamp(), d.timestamp_subsec_nanos()))
}

/// Calls `DateTime::parse_from_rfc2822` of `chrono` and drops the offset that
/// the text carried. Claims only that the outcome depends on the text alone.
#[verifier::external_body]
pub(crate) fn read_rfc2822(text: &str) -> (r: Option<(i64, u32)>)
    ensures
        reading_of(r) == rfc2822_reading(text@),
{
    DateTime::parse_from_rfc2822(text).ok().map(|d| (d.timestamp(), d.timestamp_subsec_nanos()))
}

/// Calls `DateTime::parse_from_rfc3339` of `chrono` and drops the offset that
/// the text carried. Claims only that the outcome depends on the text alone.
#[verifier::external_body]
pub(crate) fn read_rfc3339(text: &str) -> (r: Option<(i64, u32)>)
    ensures
        reading_of(r) == rfc3339_reading(text@),
{
    DateTime::parse_from_rfc3339(text).ok().map(|d| (d.timestamp(), d.timestamp_subsec_nanos()))
}

/// Calls `NaiveDateTime::parse_from_str` of `chrono` and takes the date and
/// time read as UTC. Claims only that the outcome depends on the two texts
/// alone.
#[verifier::external_body]
pub(crate) fn read_pattern(text: &str, pattern: &str) -> (r: Option<(i64, u32)>)
    ensures
        reading_of(r) == pattern_reading(text@, pattern@),
{
    let read = NaiveDateTime::parse_from_str(text, pattern).ok().map(|d| d.and_utc());
    read.map(|d| (d.timestamp(), d.timestamp_subsec_nanos()))
}

/// Calls `FixedOffset::from_str` of `chrono`. Claims only that the outcome
/// depends on the text alone.
#[verifier::external_body]
pub(crate) fn read_fixed_offset(text: &str) -> (r: Option<i32>)
    ensures
        offset_of(r) == fixed_offset_reading(text@),
{
    text.parse::<FixedOffset>().ok().map(|zone| zone.local_minus_utc())
}

/// Looks `name` up among the zones of `chrono-tz` (`Tz::from_str`) and asks
/// for the zone's offset at the instant (`DateTime::with_timezone`). Claims
/// only that the outcome depends on the arguments alone.
#[verifier::external_body]
pub(crate) fn read_zone_offset(name: &str, secs: i64, nanos: u32) -> (r: Option<i32>)
    requires
        reading_ready(secs, nanos, 0),
    ensures
        offset_of(r) == zone_offset_reading(name@, secs as int, nanos as int),
{
    let at = DateTime::from_timestamp(secs, nanos).unwrap();
    name.parse::<Tz>().ok().map(|zone| at.with_timezone(&zone).fixed_offset().timezone().local_minus_utc())
}

/// Calls `Locale::from_str`, which `chrono` has from `pure-rust-locales`.
/// Claims only that the outcome depends on the text alone.
#[verifier::external_body]
pub(crate) fn knows_locale(text: &str) -> (r: bool)
    ensures
        r == locale_known(text@),
{
    text.parse::<Locale>().is_ok()
}

/// Calls `DateTime::format` of `chrono` and writes the result out with
/// `DelayedFormat::write_to`, which fails on a pattern that it cannot follow.
/// Claims only that the outcome depends on the arguments alone.
#[verifier::external_body]
pub(crate) fn write_pattern(
    secs: i64,
    nanos: u32,
    offset: i32,
    pattern: &str,
) -> (r: Option<String>)
    requires
        reading_ready(secs, nanos, offset),
    ensures
        text_of(r) == pattern_text(secs as int, nanos as int, offset as int, pattern@),
{
    let zone = FixedOffset::east_opt(offset).unwrap();
    let at = DateTime::from_timestamp(secs, nanos).unwrap().with_timezone(&zone);
    let mut out = String::new();
    at.format(pattern).write_to(&mut out).ok().map(|_| out)
}

/// Calls `DateTime::format_localized` of `chrono` and writes the result out
/// with `DelayedFormat::write_to`, which fails on a pattern that it cannot
/// follow. Claims only that the outcome depends on the arguments alone.
#[verifier::external_body]
pub(crate) fn write_localized(
    secs: i64,
    nanos: u32,
    offset: i32,
    pattern: &str,
    locale: &str,
) -> (r: Option<String>)
    requires
        reading_ready(secs, nanos, offset),
        locale_known(locale@),
    ensures
        text_of(r) == localized_text(secs as int, nanos as int, offset as int, pattern@, locale@),
{
    let zone = FixedOffset::east_opt(offset).unwrap();
    let at = DateTime::from_timestamp(secs, nanos).unwrap().with_timezone(&zone);
    let names = locale.parse::<Locale>().unwrap();
    let mut out = String::new();
    at.format_localized(pattern, names).write_to(&mut out).ok().map(|_| out)
}

/// Calls `DateTime::to_rfc2822` of `chrono`, which needs a local year from 0
/// to 9999. Claims only that the text depends on the arguments alone.
#[verifier::external_body]
pub(crate) fn write_rfc2822(secs: i64, nanos: u32, offset: i32) -> (r: String)
    requires
        reading_ready(secs, nanos, offset),
        -62_167_219_200 <= secs + offset <= 253_402_300_799,
    ensures
        r@ == rfc2822_text(secs as int, nanos as int, offset as int),
{
    let zone = FixedOffset::east_opt(offset).unwrap();
    let at = DateTime::from_timestamp(secs, nanos).unwrap().with_timezone(&zone);
    at.to_rfc2822()
}

/// Calls `DateTime::to_rfc3339` of `chrono`. Claims only that the text
/// depends on the arguments alone.
#[verifier::external_body]
pub(crate) fn write_rfc3339(secs: i64, nanos: u32, offset: i32) -> (r: String)
    requires
        reading_ready(secs, nanos, offset),
    ensures
        r@ == rfc3339_text(secs as int, nanos as int, offset as int),
{
    let zone = FixedOffset::east_opt(offset).unwrap();
    let at = DateTime::from_timestamp(secs, nanos).unwrap().with_timezone(&zone);
    at.to_rfc3339()
}

/// Calls `DateTime::years_since` of `chrono`, which counts by the local date
/// and time of each of the two. Claims that the count depends on the
/// arguments alone and, where both are shown under one offset, that there is
/// a count unless the base is the later of the two.
#[verifier::external_body]
pub(crate) fn years_since(
    secs: i64,
    nanos: u32,
    offset: i32,
    base_secs: i64,
    base_nanos: u32,
    base_offset: i32,
) -> (r: Option<u32>)
    requires
        reading_ready(secs, nanos, offset),
        reading_ready(base_secs, base_nanos, base_offset),
    ensures
        base_offset == offset ==> r.is_some() == (base_secs < secs || (base_secs == secs
            && base_nanos <= nanos)),
        r matches Some(years) ==> years == years_elapsed(
            secs as int,
            nanos as int,
            offset as int,
            base_secs as int,
            base_nanos as int,
            base_offset as int,
        ),
{
    let zone = FixedOffset::east_opt(offset).unwrap();
    let at = DateTime::from_timestamp(secs, nanos).unwrap().with_timezone(&zone);
    let base_zone = FixedOffset::east_opt(base_offset).unwrap();
    let base = DateTime::from_timestamp(base_secs, base_nanos).unwrap().with_timezone(&base_zone);
    at.years_since(base)
}

/// Calls `Utc::now` of `chrono`, which fails where the system clock stands
/// before the epoch. Claims that what the clock gave lies in the range of
/// instants, with the nanoseconds short of a second.
#[verifier::external_body]
pub(crate) fn clock_now() -> (r: (i64, u32))
    ensures
        MIN_SECONDS <= r.0 <= MAX_SECONDS,
        r.1 < 1_000_000_000,
{
    let now = Utc::now();
    (now.timestamp(), now.timestamp_subsec_nanos())
}

/// Calls `Local::now` of `chrono` for the offset of the machine's time zone
/// at this moment. Claims that it is less than a day.
#[verifier::external_body]
pub(crate) fn clock_offset() -> (r: i32)
    ensures
        -86_400 < r < 86_400,
{
    Local::now().fixed_offset().timezone().local_minus_utc()
}

} // verus!
