//! Adding a span to a point in time, in three steps: years and months, then
//! days, then the time of day.

use vstd::prelude::*;
use crate::calendar::{
    clamp, date_on_day, days_in_month, lemma_date_on_own_day, lemma_day_number_bounds, max_date,
    min_date, CalendarDate, MAX_YEAR, MIN_YEAR,
};
use crate::clock::NANOS_PER_SECOND;
use crate::duration::{clock_nanos, Duration};
use crate::point::{
    lemma_local_nanos, lemma_point_at, max_local_nanos, min_local_nanos, point_at, CalendarPoint,
};
use crate::primitives::{
    make_date, month_length, saturating_add_days, saturating_add_span, MAX_DAY_SHIFT,
};

verus! {

/// A length in nanoseconds that reaches from either end of the representable
/// range past the other end.
pub const FULL_RANGE_NANOS: i128 = 1_000_000_000_000_000_000_000;

/// The month reached from the month of `date` after `months` months, counted
/// from zero at January of the year of `date`.
pub open spec fn month_index(date: CalendarDate, months: int) -> int {
    date.month - 1 + months
}

/// The year reached from `date` after `years` years and `months` months: each
/// full twelve months of the month index count as a year, rounding down.
pub open spec fn shifted_year(date: CalendarDate, years: int, months: int) -> int {
    date.year + years + month_index(date, months) / 12
}

/// The month (1 to 12) reached from `date` after `months` months.
pub open spec fn shifted_month(date: CalendarDate, months: int) -> int {
    month_index(date, months) % 12 + 1
}

/// `day`, or the last day of the month where the month is shorter.
pub open spec fn clamped_day(day: int, year: int, month: int) -> int {
    if day > days_in_month(year, month) {
        days_in_month(year, month)
    } else {
        day
    }
}

/// The date reached from `date` after `years` years and `months` months, with
/// the day clamped to the month reached; `None` where the year reached is not
/// representable.
pub open spec fn shift_year_month(date: CalendarDate, years: int, months: int) -> Option<
    CalendarDate,
> {
    let year = shifted_year(date, years, months);
    let month = shifted_month(date, months);
    if MIN_YEAR <= year <= MAX_YEAR {
        Some(
            CalendarDate {
                year: year as i32,
                month: month as u8,
                day: clamped_day(date.day as int, year, month) as u8,
            },
        )
    } else {
        None
    }
}

/// The date `days` calendar days after `date`, or the earliest or latest
/// representable date where that day lies beyond it.
pub open spec fn shift_days(date: CalendarDate, days: int) -> CalendarDate {
    date_on_day(clamp(date.day_number() + days, min_date().day_number(), max_date().day_number()))
}

/// The point `nanos` nanoseconds after `point` at the same offset, or the
/// earliest or latest representable point where that lies beyond it.
pub open spec fn shift_clock(point: CalendarPoint, nanos: int) -> CalendarPoint {
    point_at(
        clamp(point.local_nanos() + nanos, min_local_nanos(), max_local_nanos()),
        point.offset,
    )
}

impl CalendarPoint {
    /// The sum of the point and `span`: years and months first, then days,
    /// then the time of day on the date reached. Where years and months lead
    /// to no representable date, the sum is the point itself.
    pub open spec fn plus(self, span: Duration) -> CalendarPoint {
        match shift_year_month(self.date, span.year as int, span.month as int) {
            Some(shifted) => shift_clock(
                CalendarPoint {
                    date: shift_days(shifted, span.day as int),
                    time: self.time,
                    offset: self.offset,
                },
                span.clock_nanos(),
            ),
            None => self,
        }
    }
}

/// Adds `years` years and `months` months to `date` and clamps the day to the
/// length of the month reached. Returns `None` where the year reached is not
/// representable.
pub fn add_years_months(date: CalendarDate, years: i64, months: i64) -> (shifted: Option<CalendarDate>)
    requires
        date.is_valid(),
    ensures
        shifted == shift_year_month(date, years as int, months as int),
        shifted matches Some(reached) ==> reached.is_valid() && reached.day == clamped_day(
            date.day as int,
            reached.year as int,
            reached.month as int,
        ),
{
    let index: i128 = date.month as i128 - 1 + months as i128;
    let year: i128 = date.year as i128 + years as i128 + index.checked_div_euclid(12).unwrap();
    let month: u8 = (index.checked_rem_euclid(12).unwrap() + 1) as u8;
    if year < i32::MIN as i128 || year > i32::MAX as i128 {
        return None;
    }
    let year: i32 = year as i32;
    // The month lies within 1 and 12, so it always has a length.
    let length: u8 = match month_length(year, month) {
        Some(length) => length,
        None => return None,
    };
    let day: u8 = if date.day > length {
        length
    } else {
        date.day
    };
    make_date(year, month, day)
}

/// Adds `days` calendar days to `date`, stopping at the earliest or latest
/// representable date.
pub fn add_days(date: CalendarDate, days: i64) -> (sum: CalendarDate)
    requires
        date.is_valid(),
    ensures
        sum == shift_days(date, days as int),
        sum.is_valid(),
{
    let within: i64 = if days > MAX_DAY_SHIFT {
        MAX_DAY_SHIFT
    } else if days < -MAX_DAY_SHIFT {
        -MAX_DAY_SHIFT
    } else {
        days
    };
    let sum = saturating_add_days(date, within);
    proof {
        lemma_day_number_bounds(date);
        lemma_date_on_own_day(sum);
    }
    sum
}

/// Adds `hours` hours, `minutes` minutes, `seconds` seconds and `nanoseconds`
/// nanoseconds, as one span, to `point`, stopping at the earliest or latest
/// representable point. The offset stays.
pub fn add_clock(
    point: CalendarPoint,
    hours: i64,
    minutes: i64,
    seconds: i64,
    nanoseconds: i32,
) -> (sum: CalendarPoint)
    requires
        point.is_valid(),
    ensures
        sum == shift_clock(
            point,
            clock_nanos(hours as int, minutes as int, seconds as int, nanoseconds as int),
        ),
        sum.is_valid(),
{
    let total: i128 = ((hours as i128 * 60 + minutes as i128) * 60 + seconds as i128)
        * NANOS_PER_SECOND + nanoseconds as i128;
    let within: i128 = if total > FULL_RANGE_NANOS {
        FULL_RANGE_NANOS
    } else if total < -FULL_RANGE_NANOS {
        -FULL_RANGE_NANOS
    } else {
        total
    };
    let whole: i64 = within.checked_div_euclid(NANOS_PER_SECOND).unwrap() as i64;
    let rest: i32 = within.checked_rem_euclid(NANOS_PER_SECOND).unwrap() as i32;
    let sum = saturating_add_span(point, whole, rest);
    proof {
        lemma_local_nanos(point, point);
        lemma_span_within_range(point.local_nanos(), total as int);
        lemma_point_at(sum.local_nanos(), sum);
    }
    sum
}

/// A span longer than the whole representable range saturates like one cut
/// to that length.
proof fn lemma_span_within_range(position: int, span: int)
    requires
        min_local_nanos() <= position <= max_local_nanos(),
    ensures
        clamp(
            position + clamp(span, -FULL_RANGE_NANOS, FULL_RANGE_NANOS as int),
            min_local_nanos(),
            max_local_nanos(),
        ) == clamp(position + span, min_local_nanos(), max_local_nanos()),
{
    lemma_day_number_bounds(min_date());
}

impl core::ops::Add<Duration> for CalendarPoint {
    type Output = CalendarPoint;

    /// The sum of the point and `span`: for a valid point, `self.plus(span)`.
    /// Where years and months lead to no representable date, the point is
    /// returned as it is.
    fn add(self, span: Duration) -> (sum: CalendarPoint) {
        let shifted = match add_years_months(self.date, span.year, span.month) {
            Some(shifted) => shifted,
            None => return self,
        };
        let date = add_days(shifted, span.day);
        let reassembled = CalendarPoint { date, time: self.time, offset: self.offset };
        add_clock(reassembled, span.hour, span.minute, span.second, span.nanosecond)
    }
}

impl vstd::std_specs::ops::AddSpecImpl<Duration> for CalendarPoint {
    open spec fn obeys_add_spec() -> bool {
        true
    }

    /// A span can be added to any valid point.
    open spec fn add_req(self, span: Duration) -> bool {
        self.is_valid()
    }

    /// `point + span` is `point.plus(span)`.
    open spec fn add_spec(self, span: Duration) -> CalendarPoint {
        self.plus(span)
    }
}

} // verus!
