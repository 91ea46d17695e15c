//! What holds of every sum of a point and a span.

use vstd::prelude::*;
use crate::add::{clamped_day, shift_clock, shift_days, shift_year_month};
use crate::calendar::{
    clamp, lemma_date_on_day, lemma_date_on_own_day, lemma_day_number_bounds, max_date, min_date,
    CalendarDate,
};
use crate::clock::{lemma_nanos_of_day, lemma_time_at, time_at, NANOS_PER_DAY};
use crate::duration::Duration;
use crate::point::{
    lemma_local_nanos, lemma_point_at, max_local_nanos, min_local_nanos, CalendarPoint,
};

verus! {

/// Zero years and zero months lead from a valid date to itself.
pub proof fn lemma_no_months(date: CalendarDate)
    requires
        date.is_valid(),
    ensures
        shift_year_month(date, 0, 0) == Some(date),
{
}

/// Any number of days leads from a valid date to a valid date, and zero days
/// to the date itself.
pub proof fn lemma_shift_days(date: CalendarDate, days: int)
    requires
        date.is_valid(),
    ensures
        shift_days(date, days).is_valid(),
        shift_days(date, 0) == date,
{
    lemma_day_number_bounds(date);
    lemma_date_on_day(
        clamp(date.day_number() + days, min_date().day_number(), max_date().day_number()),
    );
    lemma_date_on_own_day(date);
}

/// Any number of nanoseconds leads from a valid point to a valid point at
/// the same offset, and zero nanoseconds to the point itself.
pub proof fn lemma_shift_clock(point: CalendarPoint, nanos: int)
    requires
        point.is_valid(),
    ensures
        shift_clock(point, nanos).is_valid(),
        shift_clock(point, nanos).offset == point.offset,
        shift_clock(point, 0) == point,
{
    lemma_local_nanos(point, point);
    lemma_point_at(
        clamp(point.local_nanos() + nanos, min_local_nanos(), max_local_nanos()),
        point,
    );
    lemma_point_at(point.local_nanos(), point);
}

/// The sum of a valid point and any span is a valid point at the same
/// offset.
pub proof fn theorem_sum_is_valid(point: CalendarPoint, span: Duration)
    requires
        point.is_valid(),
    ensures
        point.plus(span).is_valid(),
        point.plus(span).offset == point.offset,
{
    match shift_year_month(point.date, span.year as int, span.month as int) {
        Some(shifted) => {
            lemma_shift_days(shifted, span.day as int);
            let reassembled = CalendarPoint {
                date: shift_days(shifted, span.day as int),
                time: point.time,
                offset: point.offset,
            };
            lemma_shift_clock(reassembled, span.clock_nanos());
        },
        None => {},
    }
}

/// Month-end clamping: adding only months keeps the time of day and the
/// offset, and yields the day of the month of the start or the last day of
/// the month reached, whichever comes first.
pub proof fn theorem_month_end_clamping(point: CalendarPoint, months: i64)
    requires
        point.is_valid(),
    ensures
        ({
            let sum = point.plus(Duration { month: months, ..Duration::zero() });
            &&& sum.date.day == clamped_day(
                point.date.day as int,
                sum.date.year as int,
                sum.date.month as int,
            )
            &&& sum.time == point.time
            &&& sum.offset == point.offset
            &&& shift_year_month(point.date, 0, months as int) matches Some(reached) ==> sum.date
                == reached
        }),
{
    match shift_year_month(point.date, 0, months as int) {
        Some(shifted) => {
            lemma_shift_days(shifted, 0);
            lemma_shift_clock(
                CalendarPoint { date: shifted, time: point.time, offset: point.offset },
                0,
            );
        },
        None => {},
    }
}

/// Leap day: one year after the 29th of February comes the 28th of February
/// of the next year, at the same time of day and offset.
pub proof fn theorem_leap_day_plus_one_year(point: CalendarPoint)
    requires
        point.is_valid(),
        point.date.month == 2,
        point.date.day == 29,
    ensures
        point.plus(Duration { year: 1, ..Duration::zero() }) == (CalendarPoint {
            date: CalendarDate { year: (point.date.year + 1) as i32, month: 2, day: 28 },
            time: point.time,
            offset: point.offset,
        }),
{
    let next = CalendarDate { year: (point.date.year + 1) as i32, month: 2, day: 28 };
    assert(shift_year_month(point.date, 1, 0) == Some(next));
    lemma_shift_days(next, 0);
    lemma_shift_clock(CalendarPoint { date: next, time: point.time, offset: point.offset }, 0);
}

/// Adding only days changes nothing but the date, which moves by that many
/// calendar days.
pub proof fn theorem_days_keep_time_and_offset(point: CalendarPoint, days: i64)
    requires
        point.is_valid(),
    ensures
        point.plus(Duration { day: days, ..Duration::zero() }) == (CalendarPoint {
            date: shift_days(point.date, days as int),
            time: point.time,
            offset: point.offset,
        }),
{
    lemma_no_months(point.date);
    lemma_shift_days(point.date, days as int);
    lemma_shift_clock(
        CalendarPoint {
            date: shift_days(point.date, days as int),
            time: point.time,
            offset: point.offset,
        },
        0,
    );
}

/// Adding only hours, minutes, seconds and nanoseconds that together stay
/// within the day changes nothing but the time of day, which moves by their
/// sum.
pub proof fn theorem_time_within_day_keeps_date(point: CalendarPoint, span: Duration)
    requires
        point.is_valid(),
        span.year == 0 && span.month == 0 && span.day == 0,
        0 <= point.time.nanos_of_day() + span.clock_nanos() < NANOS_PER_DAY,
    ensures
        point.plus(span) == (CalendarPoint {
            date: point.date,
            time: time_at(point.time.nanos_of_day() + span.clock_nanos()),
            offset: point.offset,
        }),
        point.plus(span).time.nanos_of_day() == point.time.nanos_of_day() + span.clock_nanos(),
{
    lemma_no_months(point.date);
    lemma_shift_days(point.date, 0);
    lemma_local_nanos(point, point);
    lemma_nanos_of_day(point.time, point.time);
    lemma_date_on_own_day(point.date);
    lemma_time_at(point.time.nanos_of_day() + span.clock_nanos(), point.time);
}

/// Adding the span of no length leaves a point as it is.
pub proof fn theorem_zero_span(point: CalendarPoint)
    requires
        point.is_valid(),
    ensures
        point.plus(Duration::zero()) == point,
{
    lemma_no_months(point.date);
    lemma_shift_days(point.date, 0);
    lemma_shift_clock(point, 0);
}

/// Order of the steps: where years and months lead to a representable date,
/// adding a span is adding its years and months, then its days, then its
/// time of day, one after the other. The day is clamped to the month before
/// any day is added.
pub proof fn theorem_steps_in_order(point: CalendarPoint, span: Duration)
    requires
        point.is_valid(),
        shift_year_month(point.date, span.year as int, span.month as int).is_some(),
    ensures
        point.plus(span) == point.plus(span.years_months_only()).plus(span.days_only()).plus(
            span.clock_only(),
        ),
        point.plus(span.years_months_only()).plus(span.days_only()) == (CalendarPoint {
            date: shift_days(
                shift_year_month(point.date, span.year as int, span.month as int).unwrap(),
                span.day as int,
            ),
            time: point.time,
            offset: point.offset,
        }),
{
    let shifted = shift_year_month(point.date, span.year as int, span.month as int).unwrap();
    let first = CalendarPoint { date: shifted, time: point.time, offset: point.offset };
    lemma_shift_days(shifted, 0);
    lemma_shift_clock(first, 0);
    assert(point.plus(span.years_months_only()) == first);
    let moved = shift_days(shifted, span.day as int);
    let second = CalendarPoint { date: moved, time: point.time, offset: point.offset };
    lemma_no_months(shifted);
    lemma_shift_days(shifted, span.day as int);
    lemma_shift_clock(second, 0);
    assert(first.plus(span.days_only()) == second);
    lemma_no_months(moved);
    lemma_shift_days(moved, 0);
    assert(second.plus(span.clock_only()) == point.plus(span));
}

} // verus!
