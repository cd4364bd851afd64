//! Timestamps as plain calendar fields plus a fixed offset, and their
//! RFC-3339 text form, which is what the day-picker buttons carry.

use vstd::prelude::*;
use vstd::string::StrSliceExecFns;
use crate::calendar::{Date, days_in_month, make_date};
use crate::text::{digit_char, digit_to_char, char_digit, push_char, push_two_digits, two_digit_chars};
use crate::TIME_OFFSET_SECONDS;

verus! {

/// A wall-clock timestamp: a calendar date, a time of day and the
/// minutes east of UTC its fields are expressed in.
#[derive(Clone, Copy, PartialEq, Eq, Structural, Debug)]
pub struct DateTime {
    pub date: Date,
    pub hour: u8,
    pub minute: u8,
    pub second: u8,
    pub offset_minutes: i16,
}

impl DateTime {
    pub open spec fn wf(self) -> bool {
        &&& self.date.wf()
        &&& self.hour <= 23
        &&& self.minute <= 59
        &&& self.second <= 59
        &&& -1439 <= self.offset_minutes <= 1439
    }

    /// The same instant-of-day fields on another date.
    pub open spec fn with_date(self, d: Date) -> DateTime {
        DateTime { date: d, ..self }
    }

    /// The same instant-of-day fields on another date.
    pub fn with_date_exec(&self, d: Date) -> (r: DateTime)
        ensures
            r == self.with_date(d),
    {
        DateTime {
            date: d,
            hour: self.hour,
            minute: self.minute,
            second: self.second,
            offset_minutes: self.offset_minutes,
        }
    }
}

/// The canonical RFC-3339 rendering, `YYYY-MM-DDTHH:MM:SS+HH:MM`,
/// 25 characters.
pub open spec fn rfc3339_chars(dt: DateTime) -> Seq<char> {
    let y = dt.date.year as int;
    let mo = dt.date.month as int;
    let d = dt.date.day as int;
    let h = dt.hour as int;
    let mi = dt.minute as int;
    let sec = dt.second as int;
    let off = dt.offset_minutes as int;
    let mag = if off >= 0 { off } else { -off };
    let sign = if off >= 0 { '+' } else { '-' };
    seq![
        digit_char(y / 1000),
        digit_char(y / 100 % 10),
        digit_char(y / 10 % 10),
        digit_char(y % 10),
        '-',
        digit_char(mo / 10),
        digit_char(mo % 10),
        '-',
        digit_char(d / 10),
        digit_char(d % 10),
        'T',
        digit_char(h / 10),
        digit_char(h % 10),
        ':',
        digit_char(mi / 10),
        digit_char(mi % 10),
        ':',
        digit_char(sec / 10),
        digit_char(sec % 10),
        sign,
        digit_char(mag / 60 / 10),
        digit_char(mag / 60 % 10),
        ':',
        digit_char(mag % 60 / 10),
        digit_char(mag % 60 % 10),
    ]
}

pub open spec fn digit_at_ok(s: Seq<char>, i: int) -> bool {
    48 <= s[i] as int <= 57
}

pub open spec fn dval(s: Seq<char>, i: int) -> int {
    s[i] as int - 48
}

pub open spec fn two_at(s: Seq<char>, i: int) -> int {
    10 * dval(s, i) + dval(s, i + 1)
}

/// Structural shape of a canonical RFC-3339 string: digits and
/// separators in the right places.
pub open spec fn rfc3339_shape_ok(s: Seq<char>) -> bool {
    &&& s.len() == 25
    &&& digit_at_ok(s, 0) && digit_at_ok(s, 1) && digit_at_ok(s, 2) && digit_at_ok(s, 3)
    &&& s[4] == '-'
    &&& digit_at_ok(s, 5) && digit_at_ok(s, 6)
    &&& s[7] == '-'
    &&& digit_at_ok(s, 8) && digit_at_ok(s, 9)
    &&& s[10] == 'T'
    &&& digit_at_ok(s, 11) && digit_at_ok(s, 12)
    &&& s[13] == ':'
    &&& digit_at_ok(s, 14) && digit_at_ok(s, 15)
    &&& s[16] == ':'
    &&& digit_at_ok(s, 17) && digit_at_ok(s, 18)
    &&& (s[19] == '+' || s[19] == '-')
    &&& digit_at_ok(s, 20) && digit_at_ok(s, 21)
    &&& s[22] == ':'
    &&& digit_at_ok(s, 23) && digit_at_ok(s, 24)
}

/// What a canonical RFC-3339 string denotes: `Some` exactly when the
/// shape is right, the fields are in range, and the rendering is the
/// canonical one (no negative-zero offset).
pub open spec fn parse_rfc3339(s: Seq<char>) -> Option<DateTime> {
    if rfc3339_shape_ok(s) {
        let year = 1000 * dval(s, 0) + 100 * dval(s, 1) + 10 * dval(s, 2) + dval(s, 3);
        let month = two_at(s, 5);
        let day = two_at(s, 8);
        let hour = two_at(s, 11);
        let minute = two_at(s, 14);
        let second = two_at(s, 17);
        let mag = two_at(s, 20) * 60 + two_at(s, 23);
        let off = if s[19] == '-' { -mag } else { mag };
        let dt = DateTime {
            date: Date { year: year as i32, month: month as u8, day: day as u8 },
            hour: hour as u8,
            minute: minute as u8,
            second: second as u8,
            offset_minutes: off as i16,
        };
        if dt.wf() && !(s[19] == '-' && mag == 0) {
            Some(dt)
        } else {
            None
        }
    } else {
        None
    }
}

proof fn lemma_two_split(n: int)
    requires
        0 <= n <= 99,
    ensures
        10 * (n / 10) + n % 10 == n,
        0 <= n / 10 < 10,
        0 <= n % 10 < 10,
{
}

proof fn lemma_four_split(y: int)
    requires
        0 <= y <= 9999,
    ensures
        1000 * (y / 1000) + 100 * (y / 100 % 10) + 10 * (y / 10 % 10) + y % 10 == y,
        0 <= y / 1000 < 10,
        0 <= y / 100 % 10 < 10,
        0 <= y / 10 % 10 < 10,
        0 <= y % 10 < 10,
{
    assert(y == 1000 * (y / 1000) + y % 1000);
    assert(y % 1000 == 100 * (y % 1000 / 100) + y % 1000 % 100);
    assert(y / 100 % 10 == y % 1000 / 100) by {
        assert(y / 100 == 10 * (y / 1000) + y % 1000 / 100);
    }
    assert(y / 10 % 10 == y % 100 / 10) by {
        assert(y / 10 == 10 * (y / 100) + y % 100 / 10);
    }
    assert(y % 1000 % 100 == y % 100);
    assert(y % 100 == 10 * (y % 100 / 10) + y % 10);
}

/// Law: decoding the canonical rendering of a well-formed timestamp
/// gives that timestamp back. In particular the rendering is injective:
/// distinct timestamps have distinct RFC-3339 strings.
pub proof fn lemma_rfc3339_round_trip(dt: DateTime)
    requires
        dt.wf(),
    ensures
        parse_rfc3339(rfc3339_chars(dt)) == Some(dt),
{
    let s = rfc3339_chars(dt);
    let y = dt.date.year as int;
    let mo = dt.date.month as int;
    let d = dt.date.day as int;
    let h = dt.hour as int;
    let mi = dt.minute as int;
    let sec = dt.second as int;
    let off = dt.offset_minutes as int;
    let mag = if off >= 0 { off } else { -off };
    lemma_four_split(y);
    lemma_two_split(mo);
    lemma_two_split(d);
    lemma_two_split(h);
    lemma_two_split(mi);
    lemma_two_split(sec);
    assert(0 <= mag <= 1439);
    assert(mag == 60 * (mag / 60) + mag % 60);
    assert(0 <= mag / 60 <= 23);
    lemma_two_split(mag / 60);
    lemma_two_split(mag % 60);
    assert forall|v: int| 0 <= v < 10 implies 48 <= #[trigger] digit_char(v) as int <= 57
        && digit_char(v) as int - 48 == v by {
        crate::text::lemma_digit_char(v);
    }
    assert(rfc3339_shape_ok(s));
    assert(two_at(s, 5) == mo);
    assert(two_at(s, 8) == d);
    assert(two_at(s, 11) == h);
    assert(two_at(s, 14) == mi);
    assert(two_at(s, 17) == sec);
    assert(two_at(s, 20) == mag / 60);
    assert(two_at(s, 23) == mag % 60);
    assert(1000 * dval(s, 0) + 100 * dval(s, 1) + 10 * dval(s, 2) + dval(s, 3) == y);
    assert(two_at(s, 20) * 60 + two_at(s, 23) == mag);
    if off >= 0 {
        assert(s[19] == '+');
    } else {
        assert(s[19] == '-');
        assert(mag > 0);
    }
    assert(parse_rfc3339(s) == Some(dt));
}

/// Law: the canonical rendering is injective on well-formed timestamps.
pub proof fn lemma_rfc3339_injective(a: DateTime, b: DateTime)
    requires
        a.wf(),
        b.wf(),
        rfc3339_chars(a) == rfc3339_chars(b),
    ensures
        a == b,
{
    lemma_rfc3339_round_trip(a);
    lemma_rfc3339_round_trip(b);
}

/// Renders a timestamp in canonical RFC-3339 form.
pub fn encode_rfc3339(dt: &DateTime) -> (s: String)
    requires
        dt.wf(),
    ensures
        s@ == rfc3339_chars(*dt),
{
    let mut s = String::new();
    let y = dt.date.year;
    push_char(&mut s, digit_to_char((y / 1000) as u8));
    push_char(&mut s, digit_to_char((y / 100 % 10) as u8));
    push_char(&mut s, digit_to_char((y / 10 % 10) as u8));
    push_char(&mut s, digit_to_char((y % 10) as u8));
    push_char(&mut s, '-');
    push_two_digits(&mut s, dt.date.month);
    push_char(&mut s, '-');
    push_two_digits(&mut s, dt.date.day);
    push_char(&mut s, 'T');
    push_two_digits(&mut s, dt.hour);
    push_char(&mut s, ':');
    push_two_digits(&mut s, dt.minute);
    push_char(&mut s, ':');
    push_two_digits(&mut s, dt.second);
    let off = dt.offset_minutes;
    let mag: i16 = if off >= 0 {
        push_char(&mut s, '+');
        off
    } else {
        push_char(&mut s, '-');
        -off
    };
    push_two_digits(&mut s, (mag / 60) as u8);
    push_char(&mut s, ':');
    push_two_digits(&mut s, (mag % 60) as u8);
    proof {
        assert(s@ =~= rfc3339_chars(*dt));
    }
    s
}

/// Parses a canonical RFC-3339 string; anything else is `None`.
pub fn decode_rfc3339(s: &str) -> (r: Option<DateTime>)
    ensures
        r == parse_rfc3339(s@),
        r matches Some(dt) ==> dt.wf(),
{
    if s.unicode_len() != 25 {
        return None;
    }
    let d0 = match char_digit(s.get_char(0)) { Some(v) => v, None => { return None; } };
    let d1 = match char_digit(s.get_char(1)) { Some(v) => v, None => { return None; } };
    let d2 = match char_digit(s.get_char(2)) { Some(v) => v, None => { return None; } };
    let d3 = match char_digit(s.get_char(3)) { Some(v) => v, None => { return None; } };
    if s.get_char(4) != '-' {
        return None;
    }
    let mo0 = match char_digit(s.get_char(5)) { Some(v) => v, None => { return None; } };
    let mo1 = match char_digit(s.get_char(6)) { Some(v) => v, None => { return None; } };
    if s.get_char(7) != '-' {
        return None;
    }
    let dd0 = match char_digit(s.get_char(8)) { Some(v) => v, None => { return None; } };
    let dd1 = match char_digit(s.get_char(9)) { Some(v) => v, None => { return None; } };
    if s.get_char(10) != 'T' {
        return None;
    }
    let h0 = match char_digit(s.get_char(11)) { Some(v) => v, None => { return None; } };
    let h1 = match char_digit(s.get_char(12)) { Some(v) => v, None => { return None; } };
    if s.get_char(13) != ':' {
        return None;
    }
    let mi0 = match char_digit(s.get_char(14)) { Some(v) => v, None => { return None; } };
    let mi1 = match char_digit(s.get_char(15)) { Some(v) => v, None => { return None; } };
    if s.get_char(16) != ':' {
        return None;
    }
    let s0 = match char_digit(s.get_char(17)) { Some(v) => v, None => { return None; } };
    let s1 = match char_digit(s.get_char(18)) { Some(v) => v, None => { return None; } };
    let sign = s.get_char(19);
    if sign != '+' && sign != '-' {
        return None;
    }
    let o0 = match char_digit(s.get_char(20)) { Some(v) => v, None => { return None; } };
    let o1 = match char_digit(s.get_char(21)) { Some(v) => v, None => { return None; } };
    if s.get_char(22) != ':' {
        return None;
    }
    let o2 = match char_digit(s.get_char(23)) { Some(v) => v, None => { return None; } };
    let o3 = match char_digit(s.get_char(24)) { Some(v) => v, None => { return None; } };
    let year: i32 = 1000 * d0 as i32 + 100 * d1 as i32 + 10 * d2 as i32 + d3 as i32;
    let month: u8 = 10 * mo0 + mo1;
    let day: u8 = 10 * dd0 + dd1;
    let hour: u8 = 10 * h0 + h1;
    let minute: u8 = 10 * mi0 + mi1;
    let second: u8 = 10 * s0 + s1;
    let mag: i16 = (10 * o0 as i16 + o1 as i16) * 60 + 10 * o2 as i16 + o3 as i16;
    let date = match make_date(year, month, day) {
        Some(d) => d,
        None => {
            return None;
        },
    };
    if hour > 23 || minute > 59 || second > 59 || mag > 1439 {
        return None;
    }
    if sign == '-' && mag == 0 {
        return None;
    }
    let off: i16 = if sign == '-' { -mag } else { mag };
    let dt = DateTime { date, hour, minute, second, offset_minutes: off };
    proof {
        assert(parse_rfc3339(s@) == Some(dt));
    }
    Some(dt)
}

/// Relies on chrono's `Utc::now`, `FixedOffset::east_opt` and the
/// `Datelike`/`Timelike` accessors: the current wall clock in the fixed
/// UTC+4 offset, split into plain calendar fields. The fields always
/// form a valid Gregorian date and time of day.
#[verifier::external_body]
fn now_parts() -> (r: (i64, u8, u8, u8, u8, u8))
    ensures
        1 <= r.1 <= 12,
        1 <= r.2 as int <= days_in_month(r.0 as int, r.1 as int),
        r.3 <= 23,
        r.4 <= 59,
        r.5 <= 59,
{
    let off = chrono::FixedOffset::east_opt(TIME_OFFSET_SECONDS).unwrap();
    let t = chrono::Utc::now().with_timezone(&off);
    (
        chrono::Datelike::year(&t) as i64,
        chrono::Datelike::month(&t) as u8,
        chrono::Datelike::day(&t) as u8,
        chrono::Timelike::hour(&t) as u8,
        chrono::Timelike::minute(&t) as u8,
        chrono::Timelike::second(&t) as u8,
    )
}

/// The current timestamp in the fixed UTC+4 offset; `None` only if the
/// clock's year falls outside the representable range.
pub fn now() -> (r: Option<DateTime>)
    ensures
        r matches Some(dt) ==> dt.wf() && dt.offset_minutes == 240,
{
    let (y, mo, d, h, mi, s) = now_parts();
    if y < 1 || y > 9999 {
        return None;
    }
    match make_date(y as i32, mo, d) {
        Some(date) => Some(
            DateTime { date, hour: h, minute: mi, second: s, offset_minutes: 240 },
        ),
        None => None,
    }
}

} // verus!
