//! Time of day, counted in nanoseconds since midnight.

use vstd::prelude::*;

verus! {

/// Nanoseconds in one second.
pub const NANOS_PER_SECOND: i128 = 1_000_000_000;

/// Nanoseconds in one minute.
pub const NANOS_PER_MINUTE: i128 = 60_000_000_000;

/// Nanoseconds in one hour.
pub const NANOS_PER_HOUR: i128 = 3_600_000_000_000;

/// Nanoseconds in one day.
pub const NANOS_PER_DAY: i128 = 86_400_000_000_000;

/// A time of day: hour (0 to 23), minute and second (0 to 59) and
/// nanosecond (below one second).
#[derive(Clone, Copy, Debug, PartialEq, Eq)]
pub struct TimeOfDay {
    pub hour: u8,
    pub minute: u8,
    pub second: u8,
    pub nanosecond: u32,
}

impl TimeOfDay {
    /// Every component lies in its range.
    pub open spec fn is_valid(self) -> bool {
        &&& self.hour < 24
        &&& self.minute < 60
        &&& self.second < 60
        &&& self.nanosecond < NANOS_PER_SECOND
    }

    /// Nanoseconds elapsed since midnight.
    pub open spec fn nanos_of_day(self) -> int {
        ((self.hour * 60 + self.minute) * 60 + self.second) * NANOS_PER_SECOND + self.nanosecond
    }

    /// Builds a time of day, or `None` when a component is out of range.
    pub fn new(hour: u8, minute: u8, second: u8, nanosecond: u32) -> (time: Option<TimeOfDay>)
        ensures
            time == if (TimeOfDay { hour, minute, second, nanosecond }).is_valid() {
                Some(TimeOfDay { hour, minute, second, nanosecond })
            } else {
                None::<TimeOfDay>
            },
    {
        if hour < 24 && minute < 60 && second < 60 && nanosecond < 1_000_000_000 {
            Some(TimeOfDay { hour, minute, second, nanosecond })
        } else {
            None
        }
    }

    /// Whether every component lies in its range.
    pub fn validate(&self) -> (valid: bool)
        ensures
            valid == self.is_valid(),
    {
        self.hour < 24 && self.minute < 60 && self.second < 60 && self.nanosecond < 1_000_000_000
    }
}

/// The time of day that lies `nanos` nanoseconds after midnight.
pub open spec fn time_at(nanos: int) -> TimeOfDay {
    TimeOfDay {
        hour: (nanos / (NANOS_PER_HOUR as int)) as u8,
        minute: (nanos / (NANOS_PER_MINUTE as int) % 60) as u8,
        second: (nanos / (NANOS_PER_SECOND as int) % 60) as u8,
        nanosecond: (nanos % (NANOS_PER_SECOND as int)) as u32,
    }
}

/// Every nanosecond of a day is the count of exactly one valid time of day.
pub proof fn lemma_time_at(nanos: int, time: TimeOfDay)
    ensures
        0 <= nanos < NANOS_PER_DAY ==> time_at(nanos).is_valid() && time_at(nanos).nanos_of_day()
            == nanos,
        time.is_valid() ==> time_at(time.nanos_of_day()) == time,
{
}

/// A valid time of day lies within its day, and its nanosecond count
/// determines it.
pub proof fn lemma_nanos_of_day(a: TimeOfDay, b: TimeOfDay)
    requires
        a.is_valid(),
        b.is_valid(),
    ensures
        0 <= a.nanos_of_day() < NANOS_PER_DAY,
        a == b <==> a.nanos_of_day() == b.nanos_of_day(),
{
}

} // verus!
