//! The day-picker keyboard: six weekday buttons (Monday through
//! Saturday, Sunday dropped) for the current or the next week, each
//! carrying a `timetable-weekday:` token for 08:00 of its day; and the
//! major-picker keyboard, one button per study group, three to a row.

use vstd::prelude::*;
use vstd::arithmetic::div_mod::{lemma_fundamental_div_mod, lemma_mod_multiples_vanish};
use vstd::string::{StrSliceExecFns, StringExecFns};
use crate::calendar::{Date, add_days, sub_days, weekday_number};
use crate::datetime::DateTime;
use crate::timetable::MajorEntry;
use crate::tokens::{weekday_payload, encode_weekday, encode_set_major, lemma_weekday_round_trip};

verus! {

/// One inline button: a visible label and the opaque callback token
/// sent back when it is pressed.
pub struct Button {
    pub label: String,
    pub token: String,
}

/// Which week the picker covers.
#[derive(Clone, Copy, PartialEq, Eq, Structural, Debug)]
pub enum KeyboardWeek {
    Current,
    Next,
}

pub open spec fn week_offset(w: KeyboardWeek) -> int {
    match w {
        KeyboardWeek::Current => 0,
        KeyboardWeek::Next => 7,
    }
}

/// Day index of the Monday of the week `now` falls in (ISO weeks start
/// on Monday).
pub open spec fn monday_index(now: DateTime) -> int {
    now.date.index() - now.date.weekday()
}

/// Russian weekday name, Monday first, as the button labels show it.
pub open spec fn weekday_name_ru(i: int) -> Seq<char> {
    if i == 0 { "Понедельник"@ }
    else if i == 1 { "Вторник"@ }
    else if i == 2 { "Среда"@ }
    else if i == 3 { "Четверг"@ }
    else if i == 4 { "Пятница"@ }
    else if i == 5 { "Суббота"@ }
    else { "Воскресенье"@ }
}

pub fn weekday_name(i: u8) -> (r: &'static str)
    requires
        i < 7,
    ensures
        r@ == weekday_name_ru(i as int),
{
    if i == 0 { "Понедельник" }
    else if i == 1 { "Вторник" }
    else if i == 2 { "Среда" }
    else if i == 3 { "Четверг" }
    else if i == 4 { "Пятница" }
    else if i == 5 { "Суббота" }
    else { "Воскресенье" }
}

/// What holds of day-picker button `i`: it is labelled with weekday
/// `i`'s name and its token decodes to 08:00 (+04:00) of the day with
/// index `day_idx`.
pub open spec fn keyboard_button_ok(b: Button, day_idx: int, i: int) -> bool {
    &&& b.label@ == weekday_name_ru(i)
    &&& match weekday_payload(b.token@) {
        Some(dt) => {
            &&& dt.wf()
            &&& dt.date.index() == day_idx
            &&& dt.hour == 8
            &&& dt.minute == 0
            &&& dt.second == 0
            &&& dt.offset_minutes == 240
        },
        None => false,
    }
}

/// The whole picker: two rows of three buttons, button `3r + c`
/// standing for the day exactly `3r + c` days after the chosen week's
/// Monday — six consecutive days, Monday through Saturday, Sunday
/// never shown.
pub open spec fn keyboard_ok(rows: Seq<Vec<Button>>, now: DateTime, week: KeyboardWeek) -> bool {
    &&& rows.len() == 2
    &&& rows[0]@.len() == 3
    &&& rows[1]@.len() == 3
    &&& forall|r: int, c: int|
        0 <= r < 2 && 0 <= c < 3 ==> keyboard_button_ok(
            #[trigger] rows[r]@[c],
            monday_index(now) + week_offset(week) + 3 * r + c,
            3 * r + c,
        )
}

fn day_button(monday: Date, off: u8, i: u8) -> (b: Button)
    requires
        monday.wf(),
        monday.year <= 9998,
        off == 0 || off == 7,
        i < 6,
    ensures
        keyboard_button_ok(b, monday.index() + off + i, i as int),
{
    let d = add_days(monday, off + i);
    let dt = DateTime { date: d, hour: 8, minute: 0, second: 0, offset_minutes: 240 };
    let token = encode_weekday(&dt);
    proof {
        lemma_weekday_round_trip(dt);
    }
    let label = String::from_str(weekday_name(i));
    Button { label, token }
}

/// Builds the day picker for the week `now` falls in (`Current`) or the
/// one after it (`Next`).
pub fn make_keyboard(week: KeyboardWeek, now: &DateTime) -> (rows: Vec<Vec<Button>>)
    requires
        now.wf(),
        2 <= now.date.year <= 9998,
    ensures
        keyboard_ok(rows@, *now, week),
{
    let wd = weekday_number(now.date);
    let monday = sub_days(now.date, wd);
    let off: u8 = match week {
        KeyboardWeek::Current => 0,
        KeyboardWeek::Next => 7,
    };
    let mut row0: Vec<Button> = Vec::new();
    row0.push(day_button(monday, off, 0));
    row0.push(day_button(monday, off, 1));
    row0.push(day_button(monday, off, 2));
    let mut row1: Vec<Button> = Vec::new();
    row1.push(day_button(monday, off, 3));
    row1.push(day_button(monday, off, 4));
    row1.push(day_button(monday, off, 5));
    let mut rows: Vec<Vec<Button>> = Vec::new();
    rows.push(row0);
    rows.push(row1);
    proof {
        assert forall|r: int, c: int| 0 <= r < 2 && 0 <= c < 3 implies keyboard_button_ok(
            #[trigger] rows@[r]@[c],
            monday_index(*now) + week_offset(week) + 3 * r + c,
            3 * r + c,
        ) by {
            assert(monday.index() == monday_index(*now));
        }
    }
    rows
}

/// Law: the week's Monday has day index divisible by 7 relative to the
/// weekday cycle, so button `i` falls on weekday `i`: the labels Monday
/// through Saturday name the days the tokens carry.
pub proof fn lemma_button_weekday(now: DateTime, week: KeyboardWeek, i: int)
    requires
        now.wf(),
        0 <= i < 6,
    ensures
        (monday_index(now) + week_offset(week) + i) % 7 == i,
{
    let idx = now.date.index();
    crate::calendar::lemma_date_index_nonneg(now.date);
    lemma_fundamental_div_mod(idx, 7);
    let q = idx / 7;
    assert(monday_index(now) == 7 * q);
    let woff = week_offset(week) / 7;
    assert(monday_index(now) + week_offset(week) + i == 7 * (q + woff) + i);
    lemma_mod_multiples_vanish(q + woff, i, 7);
}

/// Law: distinct picker positions carry distinct tokens — the six
/// buttons of a run, and the buttons of the current and the next run
/// together, all name different days.
pub proof fn lemma_buttons_distinct(b1: Button, b2: Button, d1: int, d2: int, i1: int, i2: int)
    requires
        keyboard_button_ok(b1, d1, i1),
        keyboard_button_ok(b2, d2, i2),
        d1 != d2,
    ensures
        b1.token@ != b2.token@,
{
    if b1.token@ == b2.token@ {
        assert(weekday_payload(b1.token@) == weekday_payload(b2.token@));
    }
}

/// Law: for one and the same `now`, the next-week picker's button at
/// any position names the day exactly 7 days after the day named by
/// the current-week picker's button at that position.
pub proof fn lemma_next_week_shift(
    cur: Seq<Vec<Button>>,
    nxt: Seq<Vec<Button>>,
    now: DateTime,
    r: int,
    c: int,
)
    requires
        keyboard_ok(cur, now, KeyboardWeek::Current),
        keyboard_ok(nxt, now, KeyboardWeek::Next),
        0 <= r < 2,
        0 <= c < 3,
    ensures
        match (weekday_payload(cur[r]@[c].token@), weekday_payload(nxt[r]@[c].token@)) {
            (Some(a), Some(b)) => b.date.index() == a.date.index() + 7,
            _ => false,
        },
{
    assert(keyboard_button_ok(cur[r]@[c], monday_index(now) + 3 * r + c, 3 * r + c));
    assert(keyboard_button_ok(nxt[r]@[c], monday_index(now) + 7 + 3 * r + c, 3 * r + c));
}

/// The major picker: one button per study group, labelled with its
/// title and carrying its `set-major:` token, three to a row.
pub open spec fn majors_keyboard_ok(rows: Seq<Vec<Button>>, majors: Seq<MajorEntry>) -> bool {
    let n = majors.len() as int;
    &&& rows.len() == (n + 2) / 3
    &&& forall|r: int|
        0 <= r < rows.len() ==> (#[trigger] rows[r]@).len() == (if 3 * r + 3 <= n {
            3int
        } else {
            n - 3 * r
        })
    &&& forall|r: int, c: int|
        0 <= r < rows.len() && 0 <= c < rows[r]@.len() ==> {
            &&& (#[trigger] rows[r]@[c]).label@ == majors[3 * r + c].title@
            &&& rows[r]@[c].token@ == "set-major:"@ + majors[3 * r + c].id@
        }
}

/// Builds the major picker for a list of study groups.
pub fn make_majors_keyboard(majors: &Vec<MajorEntry>) -> (rows: Vec<Vec<Button>>)
    ensures
        majors_keyboard_ok(rows@, majors@),
{
    let n = majors.len();
    let mut rows: Vec<Vec<Button>> = Vec::new();
    let mut cur: Vec<Button> = Vec::new();
    let mut i: usize = 0;
    while i < n
        invariant
            0 <= i <= n,
            n == majors@.len(),
            rows@.len() == i / 3,
            cur@.len() == i % 3,
            forall|r: int| 0 <= r < rows@.len() ==> (#[trigger] rows@[r]@).len() == 3,
            forall|r: int, c: int|
                0 <= r < rows@.len() && 0 <= c < 3 ==> {
                    &&& (#[trigger] rows@[r]@[c]).label@ == majors@[3 * r + c].title@
                    &&& rows@[r]@[c].token@ == "set-major:"@ + majors@[3 * r + c].id@
                },
            forall|c: int|
                0 <= c < cur@.len() ==> {
                    &&& (#[trigger] cur@[c]).label@ == majors@[3 * (i as int / 3) + c].title@
                    &&& cur@[c].token@ == "set-major:"@ + majors@[3 * (i as int / 3) + c].id@
                },
        decreases n - i,
    {
        let m = &majors[i];
        let label = m.title.as_str().to_owned();
        let token = encode_set_major(m.id.as_str());
        cur.push(Button { label, token });
        i = i + 1;
        if cur.len() == 3 {
            rows.push(cur);
            cur = Vec::new();
        }
    }
    if cur.len() > 0 {
        rows.push(cur);
    }
    rows
}

} // verus!
