use chrono::Datelike;
use timetable_bot::calendar::{
    add_days, classify, iso_week_number, make_date, next_day, prev_day, sub_days, weekday_number,
    Date, DayOfWeek, WeekType,
};

fn d(year: i32, month: u8, day: u8) -> Date {
    Date { year, month, day }
}

#[test]
fn weekday_of_known_dates() {
    assert_eq!(weekday_number(d(2023, 9, 4)), 0); // a Monday
    assert_eq!(weekday_number(d(2023, 9, 10)), 6); // a Sunday
    assert_eq!(weekday_number(d(2024, 2, 29)), 3); // leap-day Thursday
    assert_eq!(weekday_number(d(1, 1, 1)), 0); // the calendar starts on a Monday
}

#[test]
fn iso_week_of_known_dates() {
    assert_eq!(iso_week_number(d(2023, 9, 4)), 36);
    // The first days of January may belong to the previous year's last week.
    assert_eq!(iso_week_number(d(2023, 1, 1)), 52); // Sunday of 2022-W52
    assert_eq!(iso_week_number(d(2021, 1, 1)), 53); // Friday of 2020-W53
    // The last days of December may belong to week 1 of the next year.
    assert_eq!(iso_week_number(d(2024, 12, 30)), 1);
    // A long year's week 53.
    assert_eq!(iso_week_number(d(2020, 12, 31)), 53);
}

#[test]
fn classifier_against_chrono_over_years() {
    // Walk every day of several years, crossing leap years and week-53
    // years, and compare with chrono's ISO week and weekday.
    let mut cur = d(2019, 1, 1);
    let last = d(2027, 1, 10);
    while (cur.year, cur.month, cur.day) != (last.year, last.month, last.day) {
        let nd = chrono::NaiveDate::from_ymd_opt(cur.year, cur.month as u32, cur.day as u32)
            .expect("fixture date must be valid");
        assert_eq!(weekday_number(cur) as u32, nd.weekday().num_days_from_monday());
        assert_eq!(iso_week_number(cur) as u32, nd.iso_week().week());
        let (day, parity) = classify(cur);
        assert_eq!(
            day,
            DayOfWeek::from_index(nd.weekday().num_days_from_monday() as u8)
        );
        // Even exactly for even ISO week numbers, across whole years.
        let expect_even = nd.iso_week().week() % 2 == 0;
        assert_eq!(parity == WeekType::Even, expect_even);
        assert_eq!(parity == WeekType::Odd, !expect_even);
        cur = next_day(cur);
    }
}

#[test]
fn day_steps() {
    assert_eq!(next_day(d(2023, 12, 31)), d(2024, 1, 1));
    assert_eq!(next_day(d(2024, 2, 28)), d(2024, 2, 29));
    assert_eq!(next_day(d(2023, 2, 28)), d(2023, 3, 1));
    assert_eq!(prev_day(d(2024, 3, 1)), d(2024, 2, 29));
    assert_eq!(prev_day(d(2024, 1, 1)), d(2023, 12, 31));
    assert_eq!(add_days(d(2023, 9, 4), 7), d(2023, 9, 11));
    assert_eq!(sub_days(d(2023, 9, 4), 7), d(2023, 8, 28));
}

#[test]
fn make_date_checks_the_calendar() {
    assert!(make_date(2023, 2, 29).is_none());
    assert_eq!(make_date(2024, 2, 29), Some(d(2024, 2, 29)));
    assert!(make_date(2023, 13, 1).is_none());
    assert!(make_date(0, 1, 1).is_none());
    assert!(make_date(2023, 4, 31).is_none());
}

#[test]
fn day_of_week_round_trip() {
    for i in 0u8..7 {
        assert_eq!(DayOfWeek::from_index(i).index(), i);
    }
}
