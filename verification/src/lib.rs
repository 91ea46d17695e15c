//! Calendar-aware addition of a span in human units (years, months, days,
//! hours, minutes, seconds) to a point in time that carries a fixed offset.
//!
//! The sum is formed in three steps, in this order: years and months, with
//! the day of the month clamped to the length of the month reached; then
//! whole days; then the time of day. Days and time saturate at the ends of
//! the representable range.

pub mod add;
pub mod calendar;
pub mod clock;
pub mod duration;
pub mod point;
pub mod primitives;
pub mod theorems;

pub use crate::calendar::CalendarDate;
pub use crate::clock::TimeOfDay;
pub use crate::duration::Duration;
pub use crate::point::CalendarPoint;
