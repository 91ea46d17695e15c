//! A point in time: a calendar date, a time of day and a fixed offset.

use vstd::prelude::*;
use crate::calendar::{
    date_on_day, lemma_date_on_day, lemma_date_on_own_day, lemma_day_number_bounds,
    lemma_day_number_order, max_date, min_date, CalendarDate,
};
use crate::clock::{lemma_nanos_of_day, lemma_time_at, time_at, TimeOfDay, NANOS_PER_DAY};

verus! {

/// A date and a time of day as read at a fixed offset from UTC. The offset
/// is carried along and never looked into.
#[derive(Clone, Copy, Debug, PartialEq, Eq)]
pub struct CalendarPoint {
    pub date: CalendarDate,
    pub time: TimeOfDay,
    pub offset: time::UtcOffset,
}

impl CalendarPoint {
    /// The date and the time of day are valid.
    pub open spec fn is_valid(self) -> bool {
        self.date.is_valid() && self.time.is_valid()
    }

    /// The position of the point on the line of local nanoseconds: the
    /// nanoseconds of all days before its date, and those since midnight.
    pub open spec fn local_nanos(self) -> int {
        self.date.day_number() * NANOS_PER_DAY + self.time.nanos_of_day()
    }

    /// Whether the date and the time of day are valid.
    pub fn validate(&self) -> (valid: bool)
        ensures
            valid == self.is_valid(),
    {
        self.date.validate() && self.time.validate()
    }
}

/// The local nanoseconds of the earliest representable point: midnight of
/// the earliest date.
pub open spec fn min_local_nanos() -> int {
    min_date().day_number() * NANOS_PER_DAY
}

/// The local nanoseconds of the latest representable point: the last
/// nanosecond of the latest date.
pub open spec fn max_local_nanos() -> int {
    max_date().day_number() * NANOS_PER_DAY + NANOS_PER_DAY - 1
}

/// The point that lies at `local_nanos` on the line of local nanoseconds and
/// carries `offset`: whole days give its date, the rest its time of day.
pub open spec fn point_at(local_nanos: int, offset: time::UtcOffset) -> CalendarPoint {
    CalendarPoint {
        date: date_on_day(local_nanos / (NANOS_PER_DAY as int)),
        time: time_at(local_nanos % (NANOS_PER_DAY as int)),
        offset,
    }
}

/// Every local nanosecond of the representable range holds a valid point,
/// and a valid point is the one found at its own local nanosecond.
pub proof fn lemma_point_at(local_nanos: int, point: CalendarPoint)
    ensures
        min_local_nanos() <= local_nanos <= max_local_nanos() ==> point_at(
            local_nanos,
            point.offset,
        ).is_valid() && point_at(local_nanos, point.offset).local_nanos() == local_nanos,
        point.is_valid() ==> point_at(point.local_nanos(), point.offset) == point,
{
    lemma_time_at(local_nanos % (NANOS_PER_DAY as int), point.time);
    if min_local_nanos() <= local_nanos <= max_local_nanos() {
        lemma_date_on_day(local_nanos / (NANOS_PER_DAY as int));
    }
    if point.is_valid() {
        lemma_nanos_of_day(point.time, point.time);
        lemma_date_on_own_day(point.date);
    }
}

/// Two valid points at the same local nanosecond have the same date and the
/// same time of day, and every valid point lies in the representable range.
pub proof fn lemma_local_nanos(a: CalendarPoint, b: CalendarPoint)
    requires
        a.is_valid(),
        b.is_valid(),
    ensures
        min_local_nanos() <= a.local_nanos() <= max_local_nanos(),
        a.local_nanos() == b.local_nanos() <==> a.date == b.date && a.time == b.time,
{
    lemma_day_number_bounds(a.date);
    lemma_day_number_order(a.date, b.date);
    lemma_nanos_of_day(a.time, b.time);
    lemma_nanos_of_day(b.time, a.time);
}

} // verus!
