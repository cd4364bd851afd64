use timetable_bot::calendar::Date;
use timetable_bot::datetime::DateTime;
use timetable_bot::handlers::{
    confirmation_text, filter_predicate, get_user_entry_by_id, handle_timetable_command,
    plan_admin_command, plan_callback, plan_general_command, registration_prompt, AdminCommand,
    BotError, CallbackStep, GeneralCommand, GeneralStep, Telegram, TimetableCommand,
    TimetableStep,
};
use timetable_bot::timetable::{MajorEntry, UserEntry};

fn noon(year: i32, month: u8, day: u8) -> DateTime {
    DateTime {
        date: Date { year, month, day },
        hour: 12,
        minute: 0,
        second: 0,
        offset_minutes: 240,
    }
}

#[test]
fn unregistered_sender_gets_the_prompt_and_no_query() {
    // A sender with no user row asks for today: the reply is exactly the
    // registration prompt; no day is queried, no keyboard shown.
    let now = noon(2023, 9, 6);
    assert!(!filter_predicate(&None));
    let step = handle_timetable_command(&TimetableCommand::Today, &now, &None);
    match step {
        TimetableStep::Prompt { text } => {
            assert_eq!(text, "Вы должны указать свою группу!\nИспользуйте /setmajor");
            assert_eq!(text, registration_prompt());
        }
        TimetableStep::QueryDay { .. } => panic!("a query was planned for an unregistered sender"),
        TimetableStep::ShowKeyboard { .. } => panic!("a keyboard was planned instead"),
    }
}

#[test]
fn registered_sender_queries_the_right_days() {
    let now = noon(2023, 9, 6);
    let user = Some(UserEntry { id: 7, major_id: "CS101".to_string() });
    assert!(filter_predicate(&user));
    match handle_timetable_command(&TimetableCommand::Today, &now, &user) {
        TimetableStep::QueryDay { date, major_id } => {
            assert_eq!(date, now);
            assert_eq!(major_id, "CS101");
        }
        _ => panic!("today must query"),
    }
    match handle_timetable_command(&TimetableCommand::Yesterday, &now, &user) {
        TimetableStep::QueryDay { date, .. } => {
            assert_eq!(date.date, Date { year: 2023, month: 9, day: 5 });
            assert_eq!(date.hour, 12);
        }
        _ => panic!("yesterday must query"),
    }
    match handle_timetable_command(&TimetableCommand::Tomorrow, &now, &user) {
        TimetableStep::QueryDay { date, .. } => {
            assert_eq!(date.date, Date { year: 2023, month: 9, day: 7 });
        }
        _ => panic!("tomorrow must query"),
    }
    match handle_timetable_command(&TimetableCommand::ThisWeek, &now, &user) {
        TimetableStep::ShowKeyboard { rows, prompt } => {
            assert_eq!(prompt, "Выберите интересующий вас день текущей недели");
            assert_eq!(rows.len(), 2);
        }
        _ => panic!("this week must show a keyboard"),
    }
    match handle_timetable_command(&TimetableCommand::NextWeek, &now, &user) {
        TimetableStep::ShowKeyboard { prompt, .. } => {
            assert_eq!(prompt, "Выберите интересующий вас день следующей недели");
        }
        _ => panic!("next week must show a keyboard"),
    }
}

#[test]
fn set_major_button_updates_the_user_row() {
    // The whole set-major flow over an in-memory users table: the token
    // names CS101, the row is upserted, and the confirmation carries the
    // major's title from the majors table.
    let majors = vec![MajorEntry {
        id: "CS101".to_string(),
        title: "Прикладная математика".to_string(),
        enrollment_year: 2023,
    }];
    let mut users: Vec<UserEntry> = Vec::new();
    let sender: i64 = 42;
    let step = plan_callback("set-major:CS101");
    let major_id = match step {
        CallbackStep::SetMajor { major_id } => major_id,
        _ => panic!("a set-major token must set a major"),
    };
    assert_eq!(major_id, "CS101");
    // Upsert as the store would: at most one row per user id.
    match users.iter_mut().find(|u| u.id == sender) {
        Some(u) => u.major_id = major_id.clone(),
        None => users.push(UserEntry { id: sender, major_id: major_id.clone() }),
    }
    assert_eq!(users.len(), 1);
    assert_eq!(users[0].major_id, "CS101");
    let title = &majors.iter().find(|m| m.id == major_id).expect("known major").title;
    let text = confirmation_text(title);
    assert_eq!(text, "Вы успешно сменили группу на <b>Прикладная математика</b>!");
    assert!(text.contains("Прикладная математика"));
}

#[test]
fn bogus_tokens_are_ignored() {
    assert!(matches!(plan_callback("bogus:abc"), CallbackStep::Ignore));
    assert!(matches!(plan_callback(""), CallbackStep::Ignore));
    assert!(matches!(plan_callback("timetable-weekday:not-a-date"), CallbackStep::Ignore));
    match plan_callback("timetable-weekday:2023-09-04T08:00:00+04:00") {
        CallbackStep::ShowTimetable { date } => {
            assert_eq!(date.date, Date { year: 2023, month: 9, day: 4 });
            assert_eq!(date.hour, 8);
        }
        _ => panic!("a weekday token must show a timetable"),
    }
}

#[test]
fn general_commands() {
    let majors: Vec<MajorEntry> = Vec::new();
    match plan_general_command(&GeneralCommand::Help, &majors) {
        GeneralStep::ShowHelp { text } => {
            assert!(text.starts_with("<b>Общедоступные команды</b>\n\n/help — "));
            assert!(text.contains("<b>Команды для студентов</b>\n\n/yesterday — "));
            assert!(text.contains("/thisweek — "));
        }
        _ => panic!("help must reply with the command list"),
    }
    match plan_general_command(&GeneralCommand::SetMajor, &majors) {
        GeneralStep::ChooseMajor { rows, prompt } => {
            assert_eq!(prompt, "Выберите свою группу");
            assert_eq!(rows.len(), 0);
        }
        _ => panic!("setmajor must show the major picker"),
    }
}

#[test]
fn admin_commands() {
    let help = plan_admin_command(&AdminCommand::AdminHelp);
    assert!(help.starts_with("Admin commands\n\n/adminhelp — "));
    let fixed = plan_admin_command(&AdminCommand::Rand { from: 5, to: 5 });
    assert_eq!(fixed, "5");
    let drawn = plan_admin_command(&AdminCommand::Rand { from: 1, to: 10 });
    let value: u64 = drawn.parse().expect("a decimal number");
    assert!((1..=10).contains(&value));
}

#[test]
fn owner_gate_and_user_lookup() {
    let cfg = Telegram { token: "bot-token".to_string(), owner_ids: vec![1, 99] };
    assert!(cfg.is_owner(99));
    assert!(!cfg.is_owner(7));
    let got = get_user_entry_by_id(Some(UserEntry { id: 7, major_id: "CS101".to_string() }));
    assert_eq!(got.as_ref().map(|u| u.id).ok(), Some(7));
    let missing = get_user_entry_by_id(None);
    match missing {
        Err(e) => {
            assert_eq!(e, BotError::UserNotFound);
            assert_eq!(e.text(), "user entry not found");
        }
        Ok(_) => panic!("a missing row must be an error"),
    }
}
