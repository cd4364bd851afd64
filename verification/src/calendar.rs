//! Proleptic-Gregorian calendar arithmetic for the week/day classifier.
//!
//! Dates are plain `(year, month, day)` triples in the bot's fixed UTC+4
//! offset. Everything the rest of the library needs from a date is defined
//! here from first principles: a day index counted from 0001-01-01, the
//! Monday-first weekday, and the ISO-8601 week number that drives the
//! odd/even week classification.

use vstd::prelude::*;

verus! {

pub open spec fn is_leap_year(y: int) -> bool {
    (y % 4 == 0 && y % 100 != 0) || y % 400 == 0
}

pub open spec fn days_in_year(y: int) -> int {
    if is_leap_year(y) { 366 } else { 365 }
}

pub open spec fn days_in_month(y: int, m: int) -> int {
    if m == 2 {
        if is_leap_year(y) { 29 } else { 28 }
    } else if m == 4 || m == 6 || m == 9 || m == 11 {
        30
    } else {
        31
    }
}

/// Days in the months `1 .. m` of year `y` (so `m` may be `13` to cover
/// the whole year).
pub open spec fn days_before_month(y: int, m: int) -> int
    decreases m,
{
    if m <= 1 { 0 } else { days_before_month(y, m - 1) + days_in_month(y, m - 1) }
}

/// Days in the years `1 .. y`.
pub open spec fn days_before_year(y: int) -> int
    decreases y,
{
    if y <= 1 { 0 } else { days_before_year(y - 1) + days_in_year(y - 1) }
}

/// Days elapsed since 0001-01-01 (which has index 0 and, in the proleptic
/// Gregorian calendar, is a Monday).
pub open spec fn date_index(y: int, m: int, d: int) -> int {
    days_before_year(y) + days_before_month(y, m) + (d - 1)
}

/// 1-based ordinal of the day within its year.
pub open spec fn day_of_year(y: int, m: int, d: int) -> int {
    days_before_month(y, m) + d
}

/// Monday-first weekday index: 0 = Monday, ..., 6 = Sunday.
pub open spec fn weekday_index(y: int, m: int, d: int) -> int {
    date_index(y, m, d) % 7
}

proof fn lemma_days_before_year_nonneg(y: int)
    ensures
        days_before_year(y) >= 0,
    decreases y,
{
    if y > 1 {
        lemma_days_before_year_nonneg(y - 1);
    }
}

proof fn lemma_days_before_month_nonneg(y: int, m: int)
    ensures
        days_before_month(y, m) >= 0,
    decreases m,
{
    if m > 1 {
        lemma_days_before_month_nonneg(y, m - 1);
    }
}

/// A valid date's day index is never negative.
pub proof fn lemma_date_index_nonneg(date: Date)
    requires
        date.wf(),
    ensures
        date.index() >= 0,
{
    lemma_days_before_year_nonneg(date.year as int);
    lemma_days_before_month_nonneg(date.year as int, date.month as int);
}

/// The whole year `y` is exactly the twelve months summed.
pub proof fn lemma_months_cover_year(y: int)
    ensures
        days_before_month(y, 13) == days_in_year(y),
{
    reveal_with_fuel(days_before_month, 13);
}

/// A calendar date, valid when `wf` holds.
#[derive(Clone, Copy, PartialEq, Eq, Structural, Debug)]
pub struct Date {
    pub year: i32,
    pub month: u8,
    pub day: u8,
}

impl Date {
    pub open spec fn wf(self) -> bool {
        &&& 1 <= self.year <= 9999
        &&& 1 <= self.month <= 12
        &&& 1 <= self.day <= days_in_month(self.year as int, self.month as int)
    }

    pub open spec fn index(self) -> int {
        date_index(self.year as int, self.month as int, self.day as int)
    }

    pub open spec fn weekday(self) -> int {
        weekday_index(self.year as int, self.month as int, self.day as int)
    }
}

pub fn leap_year(y: i32) -> (r: bool)
    requires
        y >= 1,
    ensures
        r == is_leap_year(y as int),
{
    (y % 4 == 0 && y % 100 != 0) || y % 400 == 0
}

pub fn month_length(y: i32, m: u8) -> (r: u8)
    requires
        y >= 1,
        1 <= m <= 12,
    ensures
        r == days_in_month(y as int, m as int),
{
    if m == 2 {
        if leap_year(y) { 29 } else { 28 }
    } else if m == 4 || m == 6 || m == 9 || m == 11 {
        30
    } else {
        31
    }
}

pub fn month_prefix_days(y: i32, m: u8) -> (r: u16)
    requires
        y >= 1,
        1 <= m <= 13,
    ensures
        r == days_before_month(y as int, m as int),
        r <= 372,
{
    let mut acc: u16 = 0;
    let mut i: u8 = 1;
    while i < m
        invariant
            1 <= i <= m,
            m <= 13,
            y >= 1,
            acc == days_before_month(y as int, i as int),
            acc <= 31 * (i - 1),
        decreases m - i,
    {
        acc = acc + month_length(y, i) as u16;
        i = i + 1;
    }
    acc
}

pub fn year_prefix_days(y: i32) -> (r: u32)
    requires
        1 <= y <= 9999,
    ensures
        r == days_before_year(y as int),
        r <= 366 * 9998,
{
    let mut acc: u32 = 0;
    let mut i: i32 = 1;
    while i < y
        invariant
            1 <= i <= y,
            y <= 9999,
            acc == days_before_year(i as int),
            acc <= 366 * (i - 1),
        decreases y - i,
    {
        if leap_year(i) {
            acc = acc + 366;
        } else {
            acc = acc + 365;
        }
        i = i + 1;
    }
    acc
}

pub fn day_number(date: Date) -> (r: u32)
    requires
        date.wf(),
    ensures
        r == date.index(),
        r < 3660000,
{
    let years: u32 = year_prefix_days(date.year);
    let months: u16 = month_prefix_days(date.year, date.month);
    years + months as u32 + (date.day - 1) as u32
}

pub fn weekday_number(date: Date) -> (r: u8)
    requires
        date.wf(),
    ensures
        r == date.weekday(),
        r < 7,
{
    (day_number(date) % 7) as u8
}

/// Weekday index of January 1st of year `y`.
pub open spec fn jan1_weekday(y: int) -> int {
    days_before_year(y) % 7
}

/// ISO-8601: a year has 53 weeks exactly when it starts on a Thursday,
/// or is a leap year starting on a Wednesday; otherwise 52.
pub open spec fn iso_weeks_in_year(y: int) -> int {
    if jan1_weekday(y) == 3 || (is_leap_year(y) && jan1_weekday(y) == 2) { 53 } else { 52 }
}

/// The ISO week count a date falls into before wrapping at year edges:
/// week `w` spans the days whose ordinal lands in `[7w - 6, 7w]` once
/// shifted so that weeks start on Monday.
pub open spec fn iso_week_raw(y: int, m: int, d: int) -> int {
    (day_of_year(y, m, d) + 9 - weekday_index(y, m, d)) / 7
}

/// ISO-8601 week number of a date, in `1 ..= 53`. The first days of
/// January may belong to the last week of the previous year, and the
/// last days of December to week 1 of the next.
pub open spec fn iso_week_of(y: int, m: int, d: int) -> int {
    let w = iso_week_raw(y, m, d);
    if w < 1 {
        iso_weeks_in_year(y - 1)
    } else if w > iso_weeks_in_year(y) {
        1
    } else {
        w
    }
}

pub fn iso_weeks_in(y: i32) -> (r: u8)
    requires
        0 <= y <= 9999,
    ensures
        r == iso_weeks_in_year(y as int),
        52 <= r <= 53,
{
    if y == 0 {
        proof {
            assert(days_before_year(0) == 0);
            assert(iso_weeks_in_year(0) == 52);
        }
        52
    } else {
        let j: u8 = (year_prefix_days(y) % 7) as u8;
        if j == 3 || (leap_year(y) && j == 2) { 53 } else { 52 }
    }
}

pub fn iso_week_number(date: Date) -> (r: u8)
    requires
        date.wf(),
    ensures
        r == iso_week_of(date.year as int, date.month as int, date.day as int),
        1 <= r <= 53,
{
    let ord: u32 = month_prefix_days(date.year, date.month) as u32 + date.day as u32;
    let wd: u32 = weekday_number(date) as u32;
    let raw: u32 = (ord + 9 - wd) / 7;
    if raw < 1 {
        iso_weeks_in(date.year - 1)
    } else {
        let cap = iso_weeks_in(date.year);
        if raw > cap as u32 {
            1
        } else {
            raw as u8
        }
    }
}

/// The seven weekdays, Monday first, as the timetable stores them.
#[derive(Clone, Copy, PartialEq, Eq, Structural, Debug)]
pub enum DayOfWeek {
    Monday,
    Tuesday,
    Wednesday,
    Thursday,
    Friday,
    Saturday,
    Sunday,
}

impl DayOfWeek {
    pub open spec fn spec_index(self) -> int {
        match self {
            DayOfWeek::Monday => 0,
            DayOfWeek::Tuesday => 1,
            DayOfWeek::Wednesday => 2,
            DayOfWeek::Thursday => 3,
            DayOfWeek::Friday => 4,
            DayOfWeek::Saturday => 5,
            DayOfWeek::Sunday => 6,
        }
    }

    pub open spec fn spec_from_index(i: int) -> DayOfWeek {
        if i == 0 { DayOfWeek::Monday }
        else if i == 1 { DayOfWeek::Tuesday }
        else if i == 2 { DayOfWeek::Wednesday }
        else if i == 3 { DayOfWeek::Thursday }
        else if i == 4 { DayOfWeek::Friday }
        else if i == 5 { DayOfWeek::Saturday }
        else { DayOfWeek::Sunday }
    }

    pub fn from_index(i: u8) -> (r: DayOfWeek)
        requires
            i < 7,
        ensures
            r == DayOfWeek::spec_from_index(i as int),
    {
        if i == 0 { DayOfWeek::Monday }
        else if i == 1 { DayOfWeek::Tuesday }
        else if i == 2 { DayOfWeek::Wednesday }
        else if i == 3 { DayOfWeek::Thursday }
        else if i == 4 { DayOfWeek::Friday }
        else if i == 5 { DayOfWeek::Saturday }
        else { DayOfWeek::Sunday }
    }

    pub fn index(self) -> (r: u8)
        ensures
            r == self.spec_index(),
            r < 7,
    {
        match self {
            DayOfWeek::Monday => 0,
            DayOfWeek::Tuesday => 1,
            DayOfWeek::Wednesday => 2,
            DayOfWeek::Thursday => 3,
            DayOfWeek::Friday => 4,
            DayOfWeek::Saturday => 5,
            DayOfWeek::Sunday => 6,
        }
    }

    pub fn of_date(date: Date) -> (r: DayOfWeek)
        requires
            date.wf(),
        ensures
            r == DayOfWeek::spec_from_index(date.weekday()),
    {
        DayOfWeek::from_index(weekday_number(date))
    }
}

/// Odd or even ISO week; the curriculum alternates timetables by it.
#[derive(Clone, Copy, PartialEq, Eq, Structural, Debug)]
pub enum WeekType {
    Odd,
    Even,
}

/// Parity of the ISO week number: even week numbers give `Even`.
pub open spec fn spec_week_parity(y: int, m: int, d: int) -> WeekType {
    if iso_week_of(y, m, d) % 2 == 0 { WeekType::Even } else { WeekType::Odd }
}

impl WeekType {
    pub fn of_date(date: Date) -> (r: WeekType)
        requires
            date.wf(),
        ensures
            r == spec_week_parity(date.year as int, date.month as int, date.day as int),
    {
        if iso_week_number(date) % 2 == 0 { WeekType::Even } else { WeekType::Odd }
    }
}

/// The week/day classifier: everything a timetable lookup needs to know
/// about a timestamp's date.
pub fn classify(date: Date) -> (r: (DayOfWeek, WeekType))
    requires
        date.wf(),
    ensures
        r.0 == DayOfWeek::spec_from_index(date.weekday()),
        r.1 == spec_week_parity(date.year as int, date.month as int, date.day as int),
{
    (DayOfWeek::of_date(date), WeekType::of_date(date))
}

/// Law: the classifier output is a faithful image of the date. Reading
/// the weekday index back out of the seven-valued day reproduces the
/// date's weekday, and the reported parity is exactly the parity of the
/// date's ISO week number, so classifying again changes nothing.
pub proof fn lemma_classifier_round_trip(date: Date)
    requires
        date.wf(),
    ensures
        DayOfWeek::spec_from_index(date.weekday()).spec_index() == date.weekday(),
        spec_week_parity(date.year as int, date.month as int, date.day as int) == WeekType::Even
            <==> iso_week_of(date.year as int, date.month as int, date.day as int) % 2 == 0,
{
    assert(0 <= date.index() % 7 < 7);
}

/// Law: `Even` is reported exactly for even ISO week numbers, `Odd`
/// exactly for odd ones.
pub proof fn lemma_week_parity_even_iff(date: Date)
    requires
        date.wf(),
    ensures
        spec_week_parity(date.year as int, date.month as int, date.day as int) == WeekType::Even
            <==> iso_week_of(date.year as int, date.month as int, date.day as int) % 2 == 0,
        spec_week_parity(date.year as int, date.month as int, date.day as int) == WeekType::Odd
            <==> iso_week_of(date.year as int, date.month as int, date.day as int) % 2 != 0,
{
}

/// The day after `date`; steps through month and year ends.
pub fn next_day(date: Date) -> (r: Date)
    requires
        date.wf(),
        !(date.year == 9999 && date.month == 12 && date.day == 31),
    ensures
        r.wf(),
        r.index() == date.index() + 1,
        r.year == date.year || (r.year == date.year + 1 && r.month == 1 && r.day == 1),
        date.day < days_in_month(date.year as int, date.month as int) ==> r == (Date {
            year: date.year,
            month: date.month,
            day: (date.day + 1) as u8,
        }),
{
    let dim = month_length(date.year, date.month);
    if date.day < dim {
        Date { year: date.year, month: date.month, day: date.day + 1 }
    } else if date.month < 12 {
        proof {
            assert(days_before_month(date.year as int, date.month as int + 1)
                == days_before_month(date.year as int, date.month as int)
                    + days_in_month(date.year as int, date.month as int));
        }
        Date { year: date.year, month: date.month + 1, day: 1 }
    } else {
        proof {
            lemma_months_cover_year(date.year as int);
            assert(days_before_month(date.year as int, 13)
                == days_before_month(date.year as int, 12) + days_in_month(date.year as int, 12));
            assert(days_before_year(date.year as int + 1)
                == days_before_year(date.year as int) + days_in_year(date.year as int));
        }
        Date { year: date.year + 1, month: 1, day: 1 }
    }
}

/// The day before `date`; steps back through month and year starts.
pub fn prev_day(date: Date) -> (r: Date)
    requires
        date.wf(),
        !(date.year == 1 && date.month == 1 && date.day == 1),
    ensures
        r.wf(),
        r.index() == date.index() - 1,
        r.year == date.year || (r.year == date.year - 1 && r.month == 12 && r.day == 31),
        date.day > 1 ==> r == (Date {
            year: date.year,
            month: date.month,
            day: (date.day - 1) as u8,
        }),
{
    if date.day > 1 {
        Date { year: date.year, month: date.month, day: date.day - 1 }
    } else if date.month > 1 {
        proof {
            assert(days_before_month(date.year as int, date.month as int)
                == days_before_month(date.year as int, date.month as int - 1)
                    + days_in_month(date.year as int, date.month as int - 1));
        }
        Date { year: date.year, month: date.month - 1, day: month_length(date.year, date.month - 1) }
    } else {
        proof {
            lemma_months_cover_year(date.year as int - 1);
            assert(days_before_month(date.year as int - 1, 13)
                == days_before_month(date.year as int - 1, 12)
                    + days_in_month(date.year as int - 1, 12));
            assert(days_before_year(date.year as int)
                == days_before_year(date.year as int - 1) + days_in_year(date.year as int - 1));
        }
        Date { year: date.year - 1, month: 12, day: 31 }
    }
}

/// `date` moved `n` days forward.
pub fn add_days(date: Date, n: u8) -> (r: Date)
    requires
        date.wf(),
        date.year <= 9998,
        n <= 14,
    ensures
        r.wf(),
        r.index() == date.index() + n,
        r.year <= 9999,
{
    let mut cur = date;
    let mut i: u8 = 0;
    while i < n
        invariant
            cur.wf(),
            i <= n,
            n <= 14,
            date.wf(),
            date.year <= 9998,
            cur.index() == date.index() + i,
            cur.year == date.year
                || (cur.year == date.year + 1 && cur.month == 1 && cur.day <= 1 + i),
        decreases n - i,
    {
        cur = next_day(cur);
        i = i + 1;
    }
    cur
}

/// `date` moved `n` days back.
pub fn sub_days(date: Date, n: u8) -> (r: Date)
    requires
        date.wf(),
        date.year >= 2,
        n <= 7,
    ensures
        r.wf(),
        r.index() == date.index() - n,
        r.year >= 1,
        r.year <= date.year,
{
    let mut cur = date;
    let mut i: u8 = 0;
    while i < n
        invariant
            cur.wf(),
            i <= n,
            n <= 7,
            date.wf(),
            date.year >= 2,
            cur.index() == date.index() - i,
            cur.year == date.year
                || (cur.year == date.year - 1 && cur.month == 12 && cur.day >= 31 - i),
        decreases n - i,
    {
        cur = prev_day(cur);
        i = i + 1;
    }
    cur
}

/// Builds a checked date from raw parts.
pub fn make_date(year: i32, month: u8, day: u8) -> (r: Option<Date>)
    ensures
        match r {
            Some(d) => d.wf() && d.year == year && d.month == month && d.day == day,
            None => !(Date { year, month, day }).wf(),
        },
{
    if 1 <= year && year <= 9999 && 1 <= month && month <= 12 && 1 <= day
        && day <= month_length(year, month) {
        Some(Date { year, month, day })
    } else {
        None
    }
}

} // verus!
