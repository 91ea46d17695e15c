//! The proleptic Gregorian calendar: month lengths, leap years, and a day
//! count that places every date on one number line.

use vstd::prelude::*;
use crate::primitives::month_length;

verus! {

/// The earliest year a date can carry: that of the earliest `time::Date`, as
/// the `time` crate is built without its `large-dates` feature.
pub const MIN_YEAR: i32 = -9999;

/// The latest year a date can carry: that of the latest `time::Date`.
pub const MAX_YEAR: i32 = 9999;

/// The Gregorian leap-year rule, applied to every year (astronomical year
/// numbering): divisible by 4, except centuries that are not divisible by 400.
pub open spec fn is_leap_year(year: int) -> bool {
    year % 4 == 0 && (year % 100 != 0 || year % 400 == 0)
}

/// Number of days in `year`.
pub open spec fn days_in_year(year: int) -> int {
    if is_leap_year(year) {
        366
    } else {
        365
    }
}

/// Number of days in month `month` (1 to 12) of `year`.
pub open spec fn days_in_month(year: int, month: int) -> int {
    if month == 2 {
        if is_leap_year(year) {
            29
        } else {
            28
        }
    } else if month == 4 || month == 6 || month == 9 || month == 11 {
        30
    } else {
        31
    }
}

/// Number of days of `year` that lie before the first day of month `month`:
/// the lengths of the months 1 to `month - 1`, added up.
pub open spec fn days_before_month(year: int, month: int) -> int
    decreases month,
{
    if month <= 1 {
        0
    } else {
        days_before_month(year, month - 1) + days_in_month(year, month - 1)
    }
}

/// Number of days between the first of January of year 1 and the first of
/// January of `year` (negative for years before 1). Division rounds down.
pub open spec fn days_before_year(year: int) -> int {
    365 * (year - 1) + (year - 1) / 4 - (year - 1) / 100 + (year - 1) / 400
}

/// A calendar date: year, month (1 to 12) and day of the month.
#[derive(Clone, Copy, Debug, PartialEq, Eq)]
pub struct CalendarDate {
    pub year: i32,
    pub month: u8,
    pub day: u8,
}

impl CalendarDate {
    /// A date is valid when its year is representable, its month exists and
    /// its day exists in that month of that year.
    pub open spec fn is_valid(self) -> bool {
        &&& MIN_YEAR <= self.year <= MAX_YEAR
        &&& 1 <= self.month <= 12
        &&& 1 <= self.day <= days_in_month(self.year as int, self.month as int)
    }

    /// The position of the date on the line of days: 0001-01-01 is day 1,
    /// and each following date is one more.
    pub open spec fn day_number(self) -> int {
        days_before_year(self.year as int) + days_before_month(
            self.year as int,
            self.month as int,
        ) + self.day
    }

    /// Builds a date, or `None` when the three numbers name no valid date.
    pub fn new(year: i32, month: u8, day: u8) -> (date: Option<CalendarDate>)
        ensures
            date == if (CalendarDate { year, month, day }).is_valid() {
                Some(CalendarDate { year, month, day })
            } else {
                None::<CalendarDate>
            },
    {
        if year < MIN_YEAR || year > MAX_YEAR || day < 1 {
            return None;
        }
        match month_length(year, month) {
            Some(length) if day <= length => Some(CalendarDate { year, month, day }),
            _ => None,
        }
    }

    /// Whether the date is valid.
    pub fn validate(&self) -> (valid: bool)
        ensures
            valid == self.is_valid(),
    {
        CalendarDate::new(self.year, self.month, self.day).is_some()
    }

    /// Calendar order: by year, then month, then day.
    pub open spec fn precedes(self, other: CalendarDate) -> bool {
        ||| self.year < other.year
        ||| self.year == other.year && self.month < other.month
        ||| self.year == other.year && self.month == other.month && self.day < other.day
    }
}

/// The earliest representable date.
pub open spec fn min_date() -> CalendarDate {
    CalendarDate { year: MIN_YEAR, month: 1, day: 1 }
}

/// The latest representable date.
pub open spec fn max_date() -> CalendarDate {
    CalendarDate { year: MAX_YEAR, month: 12, day: 31 }
}

/// The calendar day after `date`.
pub open spec fn next_date(date: CalendarDate) -> CalendarDate {
    if date.day < days_in_month(date.year as int, date.month as int) {
        CalendarDate { year: date.year, month: date.month, day: (date.day + 1) as u8 }
    } else if date.month < 12 {
        CalendarDate { year: date.year, month: (date.month + 1) as u8, day: 1 }
    } else {
        CalendarDate { year: (date.year + 1) as i32, month: 1, day: 1 }
    }
}

/// The valid date at position `number` on the line of days.
pub open spec fn date_on_day(number: int) -> CalendarDate {
    choose|date: CalendarDate| date.is_valid() && date.day_number() == number
}

/// A value kept between two bounds.
pub open spec fn clamp(value: int, low: int, high: int) -> int {
    if value < low {
        low
    } else if value > high {
        high
    } else {
        value
    }
}

/// The count of days before a year starts at year 1, and the start of year
/// `year + 1` lies exactly one year's length after the start of `year`.
pub proof fn lemma_year_step(year: int)
    ensures
        days_before_year(1) == 0,
        days_before_year(year + 1) == days_before_year(year) + days_in_year(year),
{
}

/// Year starts never move backwards.
pub proof fn lemma_year_starts_ordered(earlier: int, later: int)
    requires
        earlier <= later,
    ensures
        days_before_year(earlier) <= days_before_year(later),
{
}

/// Month starts within a year never move backwards, and the last month ends
/// with the year.
pub proof fn lemma_month_starts_ordered(year: int, earlier: int, later: int)
    requires
        1 <= earlier <= later <= 12,
    ensures
        0 <= days_before_month(year, earlier) <= days_before_month(year, later),
        days_before_month(year, later) + days_in_month(year, later) <= days_in_year(year),
        earlier < later ==> days_before_month(year, earlier) + days_in_month(year, earlier)
            <= days_before_month(year, later),
{
    reveal_with_fuel(days_before_month, 13);
}

/// The day count follows calendar order, so no two valid dates share a day
/// number.
pub proof fn lemma_day_number_order(a: CalendarDate, b: CalendarDate)
    requires
        a.is_valid(),
        b.is_valid(),
    ensures
        a.precedes(b) <==> a.day_number() < b.day_number(),
        a == b <==> a.day_number() == b.day_number(),
{
    if a.precedes(b) {
        lemma_day_number_increases(a, b);
    } else if b.precedes(a) {
        lemma_day_number_increases(b, a);
    }
}

proof fn lemma_day_number_increases(a: CalendarDate, b: CalendarDate)
    requires
        a.is_valid(),
        b.is_valid(),
        a.precedes(b),
    ensures
        a.day_number() < b.day_number(),
{
    let (ya, ma) = (a.year as int, a.month as int);
    let (yb, mb) = (b.year as int, b.month as int);
    lemma_month_starts_ordered(ya, ma, ma);
    lemma_month_starts_ordered(yb, mb, mb);
    if ya < yb {
        lemma_year_step(ya);
        lemma_year_starts_ordered(ya + 1, yb);
    } else if ma < mb {
        lemma_month_starts_ordered(ya, ma, mb);
    }
}

/// Every valid date lies between the earliest and the latest date.
pub proof fn lemma_day_number_bounds(date: CalendarDate)
    requires
        date.is_valid(),
    ensures
        min_date().day_number() <= date.day_number() <= max_date().day_number(),
        min_date().day_number() == -3_652_424,
        max_date().day_number() == 3_652_059,
{
    reveal_with_fuel(days_before_month, 13);
    if date != min_date() {
        lemma_day_number_increases(min_date(), date);
    }
    if date != max_date() {
        lemma_day_number_increases(date, max_date());
    }
}

/// The day count has no gaps: the day after a valid date, other than the
/// latest, is a valid date one position further.
pub proof fn lemma_next_date(date: CalendarDate)
    requires
        date.is_valid(),
        date != max_date(),
    ensures
        next_date(date).is_valid(),
        next_date(date).day_number() == date.day_number() + 1,
{
    reveal_with_fuel(days_before_month, 13);
    lemma_year_step(date.year as int);
}

/// Every position from the earliest to the latest date holds a valid date.
pub proof fn lemma_date_on_day(number: int)
    requires
        min_date().day_number() <= number <= max_date().day_number(),
    ensures
        date_on_day(number).is_valid(),
        date_on_day(number).day_number() == number,
    decreases number - min_date().day_number(),
{
    if number == min_date().day_number() {
        assert(min_date().is_valid());
    } else {
        lemma_date_on_day(number - 1);
        let before = date_on_day(number - 1);
        lemma_day_number_order(before, max_date());
        lemma_next_date(before);
        assert(next_date(before).is_valid() && next_date(before).day_number() == number);
    }
}

/// A valid date is the one found at its own position.
pub proof fn lemma_date_on_own_day(date: CalendarDate)
    requires
        date.is_valid(),
    ensures
        date_on_day(date.day_number()) == date,
{
    lemma_day_number_order(date_on_day(date.day_number()), date);
}

} // verus!
