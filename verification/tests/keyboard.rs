use timetable_bot::calendar::{add_days, Date};
use timetable_bot::datetime::DateTime;
use timetable_bot::keyboard::{make_keyboard, make_majors_keyboard, KeyboardWeek};
use timetable_bot::timetable::MajorEntry;
use timetable_bot::tokens::decode_weekday;

fn wednesday_noonish() -> DateTime {
    DateTime {
        date: Date { year: 2023, month: 9, day: 6 },
        hour: 12,
        minute: 34,
        second: 56,
        offset_minutes: 240,
    }
}

#[test]
fn day_picker_current_week() {
    let now = wednesday_noonish();
    let rows = make_keyboard(KeyboardWeek::Current, &now);
    assert_eq!(rows.len(), 2);
    assert_eq!(rows[0].len(), 3);
    assert_eq!(rows[1].len(), 3);
    let labels: Vec<&str> = rows.iter().flatten().map(|b| b.label.as_str()).collect();
    assert_eq!(
        labels,
        ["Понедельник", "Вторник", "Среда", "Четверг", "Пятница", "Суббота"]
    );
    let tokens: Vec<&str> = rows.iter().flatten().map(|b| b.token.as_str()).collect();
    // Six distinct RFC-3339 days, each one day after the previous:
    // Monday through Saturday, Sunday never shown.
    for (i, token) in tokens.iter().enumerate() {
        let expected_day = 4 + i as u8;
        let expected = format!("timetable-weekday:2023-09-0{expected_day}T08:00:00+04:00");
        assert_eq!(*token, expected);
    }
    for i in 0..tokens.len() {
        for j in 0..i {
            assert_ne!(tokens[i], tokens[j]);
        }
    }
}

#[test]
fn day_picker_next_week_is_current_plus_seven() {
    let now = wednesday_noonish();
    let cur = make_keyboard(KeyboardWeek::Current, &now);
    let nxt = make_keyboard(KeyboardWeek::Next, &now);
    let cur_buttons: Vec<_> = cur.iter().flatten().collect();
    let nxt_buttons: Vec<_> = nxt.iter().flatten().collect();
    assert_eq!(cur_buttons.len(), 6);
    assert_eq!(nxt_buttons.len(), 6);
    for (c, n) in cur_buttons.iter().zip(nxt_buttons.iter()) {
        let cd = decode_weekday(&c.token).expect("current token must decode");
        let nd = decode_weekday(&n.token).expect("next token must decode");
        assert_eq!(nd.date, add_days(cd.date, 7));
        assert_eq!(c.label, n.label);
    }
}

#[test]
fn day_picker_across_a_year_boundary() {
    // Wednesday 2025-12-31; its week runs into January 2026.
    let now = DateTime {
        date: Date { year: 2025, month: 12, day: 31 },
        hour: 10,
        minute: 0,
        second: 0,
        offset_minutes: 240,
    };
    let rows = make_keyboard(KeyboardWeek::Current, &now);
    let tokens: Vec<&str> = rows.iter().flatten().map(|b| b.token.as_str()).collect();
    assert_eq!(tokens[0], "timetable-weekday:2025-12-29T08:00:00+04:00");
    assert_eq!(tokens[3], "timetable-weekday:2026-01-01T08:00:00+04:00");
    let nxt = make_keyboard(KeyboardWeek::Next, &now);
    assert_eq!(nxt[0][0].token, "timetable-weekday:2026-01-05T08:00:00+04:00");
}

#[test]
fn major_picker_rows_of_three() {
    let majors: Vec<MajorEntry> = ["CS101", "PH202", "MA303", "BI404"]
        .iter()
        .enumerate()
        .map(|(i, id)| MajorEntry {
            id: id.to_string(),
            title: format!("Группа {id}"),
            enrollment_year: 2023 + i as i16,
        })
        .collect();
    let rows = make_majors_keyboard(&majors);
    assert_eq!(rows.len(), 2);
    assert_eq!(rows[0].len(), 3);
    assert_eq!(rows[1].len(), 1);
    assert_eq!(rows[0][0].label, "Группа CS101");
    assert_eq!(rows[0][0].token, "set-major:CS101");
    assert_eq!(rows[1][0].token, "set-major:BI404");
    let empty = make_majors_keyboard(&Vec::new());
    assert_eq!(empty.len(), 0);
}
