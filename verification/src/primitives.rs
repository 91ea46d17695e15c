//! The calendar primitives taken from the `time` crate, built without its
//! `large-dates` feature. Their contracts are stated, not proved: they say
//! what the crate's functions are relied on to do, over this library's own
//! model of the calendar.

use vstd::prelude::*;
use time::{Date, Duration, Month};
use crate::calendar::{CalendarDate, clamp, days_in_month, max_date, min_date};
use crate::clock::{TimeOfDay, NANOS_PER_SECOND};
use crate::point::{CalendarPoint, max_local_nanos, min_local_nanos};

verus! {

/// `time::UtcOffset`, a fixed offset from UTC, carried without being read.
#[verifier::external_type_specification]
#[verifier::external_body]
pub struct ExUtcOffset(time::UtcOffset);

/// The largest number of days, in either direction, that
/// `time::Duration::days` can turn into a span without overflow.
pub const MAX_DAY_SHIFT: i64 = 106_751_991_167_300;

/// `time::Month::length`, for the month numbered `month`.
///
/// Relied on to return the number of days of that month in `year` under the
/// Gregorian leap-year rule, for any year, and to have no answer when
/// `time::Month::try_from` rejects the number, which it does outside 1 to 12.
#[verifier::external_body]
pub(crate) fn month_length(year: i32, month: u8) -> (length: Option<u8>)
    ensures
        1 <= month <= 12 ==> length == Some(days_in_month(year as int, month as int) as u8),
        !(1 <= month <= 12) ==> length.is_none(),
{
    Some(Month::try_from(month).ok()?.length(year))
}

/// `time::Date::from_calendar_date`, for the month numbered `month`.
///
/// Relied on to succeed exactly when the year lies within `MIN_YEAR` and
/// `MAX_YEAR`, the month within 1 and 12 and the day within the month, and
/// then to hold the year, month and day it was given, as
/// `time::Date::to_calendar_date` reads them back.
#[verifier::external_body]
pub(crate) fn make_date(year: i32, month: u8, day: u8) -> (made: Option<CalendarDate>)
    ensures
        (CalendarDate { year, month, day }).is_valid() ==> made == Some(
            CalendarDate { year, month, day },
        ),
        !(CalendarDate { year, month, day }).is_valid() ==> made.is_none(),
{
    let date = Date::from_calendar_date(year, Month::try_from(month).ok()?, day).ok()?;
    let (year, month, day) = date.to_calendar_date();
    Some(CalendarDate { year, month: month as u8, day })
}

/// `time::Date::saturating_add` of `time::Duration::days(days)`.
///
/// Relied on to return the date that lies `days` days after `date` on the
/// line of days, or the earliest or latest representable date when that day
/// lies before or after all of them. The crate counts the days as Julian day
/// numbers, which are the day numbers used here plus 1,721,425.
#[verifier::external_body]
pub(crate) fn saturating_add_days(date: CalendarDate, days: i64) -> (sum: CalendarDate)
    requires
        date.is_valid(),
        -MAX_DAY_SHIFT <= days <= MAX_DAY_SHIFT,
    ensures
        sum.is_valid(),
        sum.day_number() == clamp(
            date.day_number() + days,
            min_date().day_number(),
            max_date().day_number(),
        ),
{
    let month = Month::try_from(date.month).unwrap();
    let start = Date::from_calendar_date(date.year, month, date.day).unwrap();
    let (year, month, day) = start.saturating_add(Duration::days(days)).to_calendar_date();
    CalendarDate { year, month: month as u8, day }
}

/// `time::OffsetDateTime::saturating_add` of
/// `time::Duration::new(seconds, nanoseconds)`, on the point assembled by
/// `time::Date::with_hms_nano` and `assume_offset`.
///
/// Relied on to keep the offset and to move the local date and time of day
/// by the span, exactly to the nanosecond, stopping at midnight of the
/// earliest date or at the last nanosecond of the latest date when the sum
/// lies beyond them.
#[verifier::external_body]
pub(crate) fn saturating_add_span(point: CalendarPoint, seconds: i64, nanoseconds: i32) -> (sum: CalendarPoint)
    requires
        point.is_valid(),
        -NANOS_PER_SECOND < nanoseconds < NANOS_PER_SECOND,
    ensures
        sum.is_valid(),
        sum.offset == point.offset,
        sum.local_nanos() == clamp(
            point.local_nanos() + seconds * NANOS_PER_SECOND + nanoseconds,
            min_local_nanos(),
            max_local_nanos(),
        ),
{
    let month = Month::try_from(point.date.month).unwrap();
    let date = Date::from_calendar_date(point.date.year, month, point.date.day).unwrap();
    let t = point.time;
    let start = date.with_hms_nano(t.hour, t.minute, t.second, t.nanosecond).unwrap();
    let end = start.assume_offset(point.offset).saturating_add(Duration::new(seconds, nanoseconds));
    let (year, month, day) = end.to_calendar_date();
    let (hour, minute, second, nanosecond) = end.to_hms_nano();
    CalendarPoint {
        date: CalendarDate { year, month: month as u8, day },
        time: TimeOfDay { hour, minute, second, nanosecond },
        offset: end.offset(),
    }
}

} // verus!
