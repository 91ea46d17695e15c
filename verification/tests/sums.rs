use calendar_duration::{CalendarDate, CalendarPoint, Duration, TimeOfDay};
use time::{Date, Month, OffsetDateTime, PrimitiveDateTime, Time, UtcOffset};

const NOTHING: Duration =
    Duration { year: 0, month: 0, day: 0, hour: 0, minute: 0, second: 0, nanosecond: 0 };

fn point(year: i32, month: u8, day: u8, hour: u8, minute: u8, second: u8) -> CalendarPoint {
    CalendarPoint {
        date: CalendarDate::new(year, month, day).unwrap(),
        time: TimeOfDay::new(hour, minute, second, 0).unwrap(),
        offset: UtcOffset::UTC,
    }
}

fn to_outside(point: CalendarPoint) -> OffsetDateTime {
    let month = Month::try_from(point.date.month).unwrap();
    let date = Date::from_calendar_date(point.date.year, month, point.date.day).unwrap();
    let time = Time::from_hms_nano(
        point.time.hour,
        point.time.minute,
        point.time.second,
        point.time.nanosecond,
    )
    .unwrap();
    PrimitiveDateTime::new(date, time).assume_offset(point.offset)
}

fn from_outside(value: OffsetDateTime) -> CalendarPoint {
    let (year, month, day) = value.to_calendar_date();
    let (hour, minute, second, nanosecond) = value.to_hms_nano();
    CalendarPoint {
        date: CalendarDate { year, month: month as u8, day },
        time: TimeOfDay { hour, minute, second, nanosecond },
        offset: value.offset(),
    }
}

#[test]
fn nothing_added_is_the_same_point() {
    let points = [
        point(2023, 1, 31, 10, 0, 0),
        point(2024, 2, 29, 23, 59, 59),
        point(-9999, 1, 1, 0, 0, 0),
        point(9999, 12, 31, 23, 59, 59),
        point(0, 2, 29, 12, 0, 0),
    ];
    for start in points {
        assert_eq!(start + NOTHING, start);
    }
    let late = CalendarPoint {
        time: TimeOfDay::new(23, 59, 59, 999_999_999).unwrap(),
        offset: UtcOffset::from_hms(-3, 30, 0).unwrap(),
        ..point(9999, 12, 31, 0, 0, 0)
    };
    assert_eq!(late + NOTHING, late);
}

#[test]
fn months_alone_clamp_the_day_and_keep_the_rest() {
    let start = point(2023, 1, 31, 10, 0, 0);
    assert_eq!(start + Duration { month: 1, ..NOTHING }, point(2023, 2, 28, 10, 0, 0));
    assert_eq!(start + Duration { month: 2, ..NOTHING }, point(2023, 3, 31, 10, 0, 0));
    assert_eq!(start + Duration { month: 3, ..NOTHING }, point(2023, 4, 30, 10, 0, 0));
    assert_eq!(start + Duration { month: 13, ..NOTHING }, point(2024, 2, 29, 10, 0, 0));
    assert_eq!(start + Duration { month: -2, ..NOTHING }, point(2022, 11, 30, 10, 0, 0));
    assert_eq!(start + Duration { month: 12, ..NOTHING }, point(2024, 1, 31, 10, 0, 0));
}

#[test]
fn one_year_after_a_leap_day() {
    for year in [-400, -4, 0, 4, 1600, 1996, 2000, 2024, 9996] {
        let start = point(year, 2, 29, 10, 0, 0);
        assert_eq!(start + Duration { year: 1, ..NOTHING }, point(year + 1, 2, 28, 10, 0, 0));
    }
    let start = point(2024, 2, 29, 10, 0, 0);
    assert_eq!(start + Duration { year: 4, ..NOTHING }, point(2028, 2, 29, 10, 0, 0));
}

#[test]
fn days_alone_keep_time_of_day_and_offset() {
    let offset = UtcOffset::from_hms(9, 0, 0).unwrap();
    let start = CalendarPoint {
        time: TimeOfDay::new(23, 59, 59, 999_999_999).unwrap(),
        offset,
        ..point(2023, 3, 15, 0, 0, 0)
    };
    for days in [1, -1, 17, 365, -366, 100_000, -3_000_000, i64::MAX, i64::MIN] {
        let sum = start + Duration { day: days, ..NOTHING };
        assert_eq!(sum.time, start.time);
        assert_eq!(sum.offset, start.offset);
        assert_eq!(sum.date, calendar_duration::add::add_days(start.date, days));
    }
    let sum = start + Duration { day: 17, ..NOTHING };
    assert_eq!(sum.date, CalendarDate::new(2023, 4, 1).unwrap());
    let sum = start + Duration { day: i64::MAX, ..NOTHING };
    assert_eq!(sum.date, CalendarDate::new(9999, 12, 31).unwrap());
}

#[test]
fn time_alone_within_the_day_keeps_date_and_offset() {
    let start = point(2023, 3, 15, 10, 0, 0);
    let sum = start + Duration { hour: 13, minute: 59, second: 59, ..NOTHING };
    assert_eq!(sum, point(2023, 3, 15, 23, 59, 59));
    let sum = start + Duration { second: 1, nanosecond: 500_000_000, ..NOTHING };
    assert_eq!(sum.date, start.date);
    assert_eq!(sum.time, TimeOfDay::new(10, 0, 1, 500_000_000).unwrap());
    let sum = start + Duration { hour: 14, ..NOTHING };
    assert_eq!(sum, point(2023, 3, 16, 0, 0, 0));
}

#[test]
fn the_day_is_clamped_before_days_are_added() {
    let start = point(2023, 1, 30, 10, 0, 0);
    let sum = start + Duration { month: 1, day: 1, ..NOTHING };
    assert_eq!(sum, point(2023, 3, 1, 10, 0, 0));
    let days_first = (start + Duration { day: 1, ..NOTHING }) + Duration { month: 1, ..NOTHING };
    assert_eq!(days_first, point(2023, 2, 28, 10, 0, 0));
    assert_ne!(sum, days_first);

    let start = point(2023, 1, 31, 10, 0, 0);
    let sum = start + Duration { month: 1, day: 3, ..NOTHING };
    assert_eq!(sum, point(2023, 3, 3, 10, 0, 0));
}

#[test]
fn a_span_is_its_parts_added_in_order() {
    let starts = [
        point(2023, 1, 31, 10, 30, 0),
        point(2024, 2, 29, 23, 59, 59),
        point(1999, 12, 31, 0, 0, 0),
        point(-1, 3, 31, 12, 0, 0),
    ];
    let spans = [
        Duration { year: 1, month: 1, day: 1, hour: 1, minute: 1, second: 1, nanosecond: 0 },
        Duration { year: 0, month: 13, day: 40, hour: 30, minute: 90, second: 90, nanosecond: 5 },
        Duration { year: -3, month: -1, day: -1, hour: -1, minute: -1, second: -1, nanosecond: -1 },
        Duration { year: 7000, month: 11, day: 400_000, hour: 0, minute: 0, second: 0, nanosecond: 0 },
        Duration { year: 4, month: 0, day: 0, hour: 24, minute: 0, second: 0, nanosecond: 0 },
    ];
    for start in starts {
        for span in spans {
            let months = Duration { year: span.year, month: span.month, ..NOTHING };
            let days = Duration { day: span.day, ..NOTHING };
            let clock = Duration {
                hour: span.hour,
                minute: span.minute,
                second: span.second,
                nanosecond: span.nanosecond,
                ..NOTHING
            };
            assert_eq!(start + span, ((start + months) + days) + clock);
        }
    }
}

#[test]
fn a_year_out_of_range_leaves_the_point_as_it_was() {
    let start = point(9999, 6, 15, 10, 0, 0);
    assert_eq!(start + Duration { year: 1, ..NOTHING }, start);
    assert_eq!(start + Duration { month: 7, ..NOTHING }, start);
    assert_eq!(start + Duration { year: 1, day: 1, hour: 1, ..NOTHING }, start);
    assert_eq!(start + Duration { year: i64::MAX, month: i64::MAX, ..NOTHING }, start);
    let start = point(-9999, 6, 15, 10, 0, 0);
    assert_eq!(start + Duration { year: -1, ..NOTHING }, start);
    assert_eq!(start + Duration { month: -6, day: 5, ..NOTHING }, start);
    assert_eq!(start + Duration { year: i64::MIN, month: i64::MIN, ..NOTHING }, start);
    assert_eq!(
        start + Duration { month: -5, day: -200, ..NOTHING },
        point(-9999, 1, 1, 10, 0, 0)
    );
}

#[test]
fn days_and_time_stop_at_the_ends_of_the_range() {
    let start = point(9999, 12, 30, 10, 0, 0);
    assert_eq!(start + Duration { day: 5, ..NOTHING }, point(9999, 12, 31, 10, 0, 0));
    let last = CalendarPoint {
        time: TimeOfDay::new(23, 59, 59, 999_999_999).unwrap(),
        ..point(9999, 12, 31, 0, 0, 0)
    };
    assert_eq!(start + Duration { day: 5, hour: 14, ..NOTHING }, last);
    assert_eq!(start + Duration { hour: 100, ..NOTHING }, last);
    let start = point(-9999, 1, 2, 10, 0, 0);
    assert_eq!(start + Duration { day: -5, ..NOTHING }, point(-9999, 1, 1, 10, 0, 0));
    assert_eq!(start + Duration { day: -5, hour: -11, ..NOTHING }, point(-9999, 1, 1, 0, 0, 0));
}

#[test]
fn validity_is_decided_by_date_and_time() {
    assert!(point(2023, 1, 31, 10, 0, 0).validate());
    let bad_date = CalendarPoint {
        date: CalendarDate { year: 2023, month: 2, day: 30 },
        ..point(2023, 1, 31, 10, 0, 0)
    };
    assert!(!bad_date.validate());
    let bad_time = CalendarPoint {
        time: TimeOfDay { hour: 10, minute: 60, second: 0, nanosecond: 0 },
        ..point(2023, 1, 31, 10, 0, 0)
    };
    assert!(!bad_time.validate());
}

#[test]
fn sums_stay_valid() {
    let starts = [point(2023, 1, 31, 10, 30, 0), point(9999, 12, 31, 23, 59, 59)];
    let spans = [
        Duration { year: 1, month: 1, day: 1, hour: 1, minute: 1, second: 1, nanosecond: 1 },
        Duration { year: -20_000, ..NOTHING },
        Duration { month: 1, day: i64::MAX, hour: i64::MIN, ..NOTHING },
        Duration { month: -240_000, day: i64::MIN, hour: i64::MAX, ..NOTHING },
    ];
    for start in starts {
        for span in spans {
            assert!((start + span).validate());
            assert_eq!((start + span).offset, start.offset);
        }
    }
}

#[test]
fn days_and_time_agree_with_plain_addition_of_a_fixed_span() {
    let starts = [
        point(2023, 3, 15, 10, 0, 0),
        point(2024, 2, 28, 23, 59, 59),
        point(1969, 12, 31, 23, 59, 59),
        point(-1, 12, 31, 0, 0, 0),
    ];
    let spans = [
        Duration { day: 1, ..NOTHING },
        Duration { day: 366, hour: 5, ..NOTHING },
        Duration { day: -1000, minute: 1, second: 1, nanosecond: 1, ..NOTHING },
        Duration { hour: 47, minute: 59, second: 59, nanosecond: 999_999_999, ..NOTHING },
        Duration { day: 100_000, hour: -1, ..NOTHING },
    ];
    for start in starts {
        for span in spans {
            let fixed = time::Duration::days(span.day)
                + time::Duration::hours(span.hour)
                + time::Duration::minutes(span.minute)
                + time::Duration::new(span.second, span.nanosecond);
            assert_eq!(start + span, from_outside(to_outside(start) + fixed));
        }
    }
}
