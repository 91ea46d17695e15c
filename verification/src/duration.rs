//! A span of time in human units.

use vstd::prelude::*;
use crate::clock::NANOS_PER_SECOND;

verus! {

/// A span expressed in years, months, days, hours, minutes and seconds.
///
/// `year`, `month` and `day` are whole calendar units. `hour`, `minute`,
/// `second` and `nanosecond` together form one offset within or across
/// days; `nanosecond` carries the fraction of a second. Every field may be
/// negative.
#[derive(Clone, Copy, Debug, PartialEq, Eq)]
pub struct Duration {
    pub year: i64,
    pub month: i64,
    pub day: i64,
    pub hour: i64,
    pub minute: i64,
    pub second: i64,
    pub nanosecond: i32,
}

/// The length in nanoseconds of `hours` hours, `minutes` minutes, `seconds`
/// seconds and `nanoseconds` nanoseconds taken together.
pub open spec fn clock_nanos(hours: int, minutes: int, seconds: int, nanoseconds: int) -> int {
    ((hours * 60 + minutes) * 60 + seconds) * NANOS_PER_SECOND + nanoseconds
}

impl Duration {
    /// The sub-day part of the span as a single number of nanoseconds.
    pub open spec fn clock_nanos(self) -> int {
        clock_nanos(
            self.hour as int,
            self.minute as int,
            self.second as int,
            self.nanosecond as int,
        )
    }

    /// The span of no length.
    pub open spec fn zero() -> Duration {
        Duration { year: 0, month: 0, day: 0, hour: 0, minute: 0, second: 0, nanosecond: 0 }
    }

    /// The years and months of the span, and nothing else.
    pub open spec fn years_months_only(self) -> Duration {
        Duration { year: self.year, month: self.month, ..Duration::zero() }
    }

    /// The days of the span, and nothing else.
    pub open spec fn days_only(self) -> Duration {
        Duration { day: self.day, ..Duration::zero() }
    }

    /// The hours, minutes, seconds and nanoseconds of the span, and nothing
    /// else.
    pub open spec fn clock_only(self) -> Duration {
        Duration {
            hour: self.hour,
            minute: self.minute,
            second: self.second,
            nanosecond: self.nanosecond,
            ..Duration::zero()
        }
    }
}

} // verus!
