use timetable_bot::calendar::{Date, DayOfWeek, WeekType};
use timetable_bot::format::{format_entry, prepare_text};
use timetable_bot::timetable::{find_timetable, resolve_entries, TimeTableEntry};

fn entry(
    id: i64,
    major: Option<&str>,
    week: WeekType,
    day: DayOfWeek,
    starts_at: u32,
    name: &str,
    professor: Option<&str>,
) -> TimeTableEntry {
    TimeTableEntry {
        id,
        major_id: major.map(|s| s.to_string()),
        week,
        day_of_week: day,
        starts_at,
        ends_at: starts_at + 5400,
        subject_name: name.to_string(),
        subject_type: "лекция".to_string(),
        auditorium: "А-101".to_string(),
        professor: professor.map(|s| s.to_string()),
    }
}

#[test]
fn resolver_sorts_and_filters() {
    // 2023-09-04 is the Monday of ISO week 36, an even week.
    let date = Date { year: 2023, month: 9, day: 4 };
    let rows = vec![
        entry(1, Some("CS101"), WeekType::Even, DayOfWeek::Monday, 38400, "Б", None),
        entry(2, Some("CS101"), WeekType::Even, DayOfWeek::Monday, 28800, "А", None),
        entry(3, Some("PH202"), WeekType::Even, DayOfWeek::Monday, 30000, "чужая", None),
        entry(4, Some("CS101"), WeekType::Even, DayOfWeek::Tuesday, 30000, "не тот день", None),
        entry(5, Some("CS101"), WeekType::Odd, DayOfWeek::Monday, 30000, "не та неделя", None),
        entry(6, None, WeekType::Even, DayOfWeek::Monday, 30000, "без группы", None),
        entry(7, Some("CS101"), WeekType::Even, DayOfWeek::Monday, 32400, "В", None),
        entry(8, Some("CS101"), WeekType::Even, DayOfWeek::Monday, 28800, "Г", None),
    ];
    let out = find_timetable(rows, "CS101", date);
    let names: Vec<&str> = out.iter().map(|e| e.subject_name.as_str()).collect();
    // Ascending by start time; the two 08:00 rows keep their stored order.
    assert_eq!(names, ["А", "Г", "В", "Б"]);
    for w in out.windows(2) {
        assert!(w[0].starts_at <= w[1].starts_at);
    }
}

#[test]
fn resolver_of_empty_input_is_empty() {
    let out = resolve_entries(Vec::new(), "CS101", WeekType::Even, DayOfWeek::Monday);
    assert_eq!(out.len(), 0);
}

#[test]
fn formatter_renders_one_entry() {
    let e = entry(
        1,
        Some("CS101"),
        WeekType::Even,
        DayOfWeek::Monday,
        32400,
        "Матанализ",
        Some("Иванов И. И."),
    );
    assert_eq!(
        format_entry(&e),
        "09:00 – 10:30\n<b>Матанализ</b>\n    лекция\n    Иванов И. И.\n    А-101"
    );
    let without = entry(2, Some("CS101"), WeekType::Even, DayOfWeek::Monday, 32400, "Физика", None);
    assert_eq!(
        format_entry(&without),
        "09:00 – 10:30\n<b>Физика</b>\n    лекция\n    А-101"
    );
}

#[test]
fn formatter_on_empty_list_is_the_fixed_text() {
    let date = Date { year: 2023, month: 9, day: 4 };
    assert_eq!(prepare_text(&Vec::new(), date), "<i>Ничего не найдено.</i>");
}

#[test]
fn formatter_keeps_order_and_count() {
    let date = Date { year: 2023, month: 9, day: 4 };
    let entries = vec![
        entry(1, Some("CS101"), WeekType::Even, DayOfWeek::Monday, 28800, "Первая", None),
        entry(2, Some("CS101"), WeekType::Even, DayOfWeek::Monday, 32400, "Вторая", None),
        entry(3, Some("CS101"), WeekType::Even, DayOfWeek::Monday, 38400, "Третья", None),
    ];
    let text = prepare_text(&entries, date);
    let expected = "<b>Расписание занятий на 4 сентября</b>\n\n\n\
        08:00 – 09:30\n<b>Первая</b>\n    лекция\n    А-101\n\n\
        09:00 – 10:30\n<b>Вторая</b>\n    лекция\n    А-101\n\n\
        10:40 – 12:10\n<b>Третья</b>\n    лекция\n    А-101";
    assert_eq!(text, expected);
    // One paragraph per entry, in input order.
    let body = text.split("</b>\n\n\n").nth(1).expect("header ends with the blank lines");
    assert_eq!(body.split("\n\n").count(), entries.len());
    let first = body.split("\n\n").next().expect("non-empty");
    assert!(first.contains("Первая"));
}
