//! The decisions behind each command and button press, as pure
//! functions from state and event to the reply to make. The transport
//! performs the replies and the store runs the queries; everything
//! decided here is stated and proved.

use vstd::prelude::*;
use vstd::string::{StrSliceExecFns, StringExecFns};
use crate::calendar::{next_day, prev_day};
use crate::datetime::DateTime;
use crate::keyboard::{Button, KeyboardWeek, keyboard_ok, majors_keyboard_ok, make_keyboard,
    make_majors_keyboard};
use crate::text::dec_chars;
use crate::timetable::{MajorEntry, UserEntry};
use crate::tokens::{set_major_payload, weekday_payload, decode_set_major, decode_weekday};

verus! {

/// The bot's transport configuration: credential and admin allow-list.
pub struct Telegram {
    pub token: String,
    pub owner_ids: Vec<u64>,
}

impl Telegram {
    /// Whether a sender is on the admin allow-list.
    pub fn is_owner(&self, id: u64) -> (r: bool)
        ensures
            r == self.owner_ids@.contains(id),
    {
        let n = self.owner_ids.len();
        let mut i: usize = 0;
        while i < n
            invariant
                0 <= i <= n,
                n == self.owner_ids@.len(),
                forall|k: int| 0 <= k < i ==> self.owner_ids@[k] != id,
            decreases n - i,
        {
            if self.owner_ids[i] == id {
                return true;
            }
            i = i + 1;
        }
        false
    }
}

/// The errors this library reports.
#[derive(Clone, Copy, PartialEq, Eq, Structural, Debug)]
pub enum BotError {
    UserNotFound,
}

impl BotError {
    pub fn text(&self) -> (s: String)
        ensures
            *self is UserNotFound ==> s@ == "user entry not found"@,
    {
        match self {
            BotError::UserNotFound => String::from_str("user entry not found"),
        }
    }
}

/// The registered user behind a lookup, or the error that a timetable
/// command cannot proceed without one.
pub fn get_user_entry_by_id(user: Option<UserEntry>) -> (r: Result<UserEntry, BotError>)
    ensures
        match user {
            Some(u) => r matches Ok(got) && got == u,
            None => r matches Err(e) && e == BotError::UserNotFound,
        },
{
    match user {
        Some(u) => Ok(u),
        None => Err(BotError::UserNotFound),
    }
}

/// The registration gate: a timetable command is routed only for a
/// sender with a stored user row.
pub fn filter_predicate(user: &Option<UserEntry>) -> (r: bool)
    ensures
        r == user.is_some(),
{
    match user {
        Some(_) => true,
        None => false,
    }
}

/// The guidance sent to a sender who has not registered a major yet.
pub fn registration_prompt() -> (s: String)
    ensures
        s@ == "Вы должны указать свою группу!\nИспользуйте /setmajor"@,
{
    String::from_str("Вы должны указать свою группу!\nИспользуйте /setmajor")
}

/// The commands any user may send.
#[derive(Clone, Copy, PartialEq, Eq, Structural, Debug)]
pub enum GeneralCommand {
    Help,
    SetMajor,
}

/// The timetable commands, routed only for registered users.
#[derive(Clone, Copy, PartialEq, Eq, Structural, Debug)]
pub enum TimetableCommand {
    Yesterday,
    Today,
    Tomorrow,
    NextWeek,
    ThisWeek,
}

/// The admin-only commands.
#[derive(Clone, Copy, PartialEq, Eq, Structural, Debug)]
pub enum AdminCommand {
    AdminHelp,
    Rand { from: u64, to: u64 },
}

/// What a timetable command asks the surrounding task to do next.
pub enum TimetableStep {
    /// Ask the sender to register first.
    Prompt { text: String },
    /// Query the store for one (major, date) and reply with the result.
    QueryDay { date: DateTime, major_id: String },
    /// Show a day picker with the given prompt.
    ShowKeyboard { rows: Vec<Vec<Button>>, prompt: String },
}

/// Decides a timetable command. An unregistered sender is asked to
/// register and no query is planned; otherwise the command names the
/// day to query — yesterday, today or tomorrow — or the week whose
/// picker to show.
pub fn handle_timetable_command(
    cmd: &TimetableCommand,
    now: &DateTime,
    user: &Option<UserEntry>,
) -> (r: TimetableStep)
    requires
        now.wf(),
        2 <= now.date.year <= 9998,
    ensures
        user is None ==> match r {
            TimetableStep::Prompt { text } => text@
                == "Вы должны указать свою группу!\nИспользуйте /setmajor"@,
            _ => false,
        },
        user matches Some(u) ==> match cmd {
            TimetableCommand::Yesterday => match r {
                TimetableStep::QueryDay { date, major_id } => {
                    &&& date.wf()
                    &&& date.date.index() == now.date.index() - 1
                    &&& date == now.with_date(date.date)
                    &&& major_id@ == u.major_id@
                },
                _ => false,
            },
            TimetableCommand::Today => match r {
                TimetableStep::QueryDay { date, major_id } => date == *now && major_id@
                    == u.major_id@,
                _ => false,
            },
            TimetableCommand::Tomorrow => match r {
                TimetableStep::QueryDay { date, major_id } => {
                    &&& date.wf()
                    &&& date.date.index() == now.date.index() + 1
                    &&& date == now.with_date(date.date)
                    &&& major_id@ == u.major_id@
                },
                _ => false,
            },
            TimetableCommand::ThisWeek => match r {
                TimetableStep::ShowKeyboard { rows, prompt } => keyboard_ok(
                    rows@,
                    *now,
                    KeyboardWeek::Current,
                ) && prompt@ == "Выберите интересующий вас день текущей недели"@,
                _ => false,
            },
            TimetableCommand::NextWeek => match r {
                TimetableStep::ShowKeyboard { rows, prompt } => keyboard_ok(
                    rows@,
                    *now,
                    KeyboardWeek::Next,
                ) && prompt@ == "Выберите интересующий вас день следующей недели"@,
                _ => false,
            },
        },
{
    let u = match user {
        Some(u) => u,
        None => {
            return TimetableStep::Prompt { text: registration_prompt() };
        },
    };
    let major_id = u.major_id.as_str().to_owned();
    match cmd {
        TimetableCommand::Yesterday => {
            let d = prev_day(now.date);
            TimetableStep::QueryDay { date: now.with_date_exec(d), major_id }
        },
        TimetableCommand::Today => TimetableStep::QueryDay { date: *now, major_id },
        TimetableCommand::Tomorrow => {
            let d = next_day(now.date);
            TimetableStep::QueryDay { date: now.with_date_exec(d), major_id }
        },
        TimetableCommand::ThisWeek => TimetableStep::ShowKeyboard {
            rows: make_keyboard(KeyboardWeek::Current, now),
            prompt: String::from_str("Выберите интересующий вас день текущей недели"),
        },
        TimetableCommand::NextWeek => TimetableStep::ShowKeyboard {
            rows: make_keyboard(KeyboardWeek::Next, now),
            prompt: String::from_str("Выберите интересующий вас день следующей недели"),
        },
    }
}

/// What a button press asks the surrounding task to do next.
pub enum CallbackStep {
    /// Not a recognised token: no visible effect at all.
    Ignore,
    /// Upsert the sender's major and confirm with its title.
    SetMajor { major_id: String },
    /// Query and show the timetable of the carried day.
    ShowTimetable { date: DateTime },
}

/// Decides a button press from its raw callback token. Exactly the
/// `set-major:` tokens set a major, exactly the `timetable-weekday:`
/// tokens with a canonical RFC-3339 payload show a day, and every
/// other token is silently ignored.
pub fn plan_callback(data: &str) -> (r: CallbackStep)
    ensures
        match set_major_payload(data@) {
            Some(id) => match r {
                CallbackStep::SetMajor { major_id } => major_id@ == id,
                _ => false,
            },
            None => match weekday_payload(data@) {
                Some(dt) => match r {
                    CallbackStep::ShowTimetable { date } => date == dt && date.wf(),
                    _ => false,
                },
                None => r is Ignore,
            },
        },
{
    match decode_set_major(data) {
        Some(major_id) => CallbackStep::SetMajor { major_id },
        None => match decode_weekday(data) {
            Some(date) => CallbackStep::ShowTimetable { date },
            None => CallbackStep::Ignore,
        },
    }
}

/// The confirmation shown after a successful major change.
pub fn confirmation_text(title: &str) -> (s: String)
    ensures
        s@ == "Вы успешно сменили группу на <b>"@ + title@ + "</b>!"@,
{
    let s = String::from_str("Вы успешно сменили группу на <b>");
    let s = s.concat(title);
    let r = s.concat("</b>!");
    proof {
        assert(r@ =~= "Вы успешно сменили группу на <b>"@ + title@ + "</b>!"@);
    }
    r
}

/// The prompt above the major picker.
pub fn choose_major_prompt() -> (s: String)
    ensures
        s@ == "Выберите свою группу"@,
{
    String::from_str("Выберите свою группу")
}

/// What a general command asks the surrounding task to do next.
pub enum GeneralStep {
    /// Reply with the command list.
    ShowHelp { text: String },
    /// Show the major picker.
    ChooseMajor { rows: Vec<Vec<Button>>, prompt: String },
}

/// The command list shown by the help command.
pub fn help_text() -> (s: String)
    ensures
        s@
            == "<b>Общедоступные команды</b>\n\n/help — Отображает список команд\n/setmajor — Установить свою группу\n\n<b>Команды для студентов</b>\n\n/yesterday — Просмотр расписания за вчера.\n/today — Просмотр расписания на сегодня.\n/tomorrow — Просмотр расписания на завтра.\n/nextweek — Выбрать день со следующий недели.\n/thisweek — Выбрать день на неделе."@,
{
    String::from_str(
        "<b>Общедоступные команды</b>\n\n/help — Отображает список команд\n/setmajor — Установить свою группу\n\n<b>Команды для студентов</b>\n\n/yesterday — Просмотр расписания за вчера.\n/today — Просмотр расписания на сегодня.\n/tomorrow — Просмотр расписания на завтра.\n/nextweek — Выбрать день со следующий недели.\n/thisweek — Выбрать день на неделе.",
    )
}

/// The command list shown by the admin help command.
pub fn admin_help_text() -> (s: String)
    ensures
        s@
            == "Admin commands\n\n/adminhelp — Help for admin only commands\n/rand — generate a number within range"@,
{
    String::from_str(
        "Admin commands\n\n/adminhelp — Help for admin only commands\n/rand — generate a number within range",
    )
}

/// Decides a general command: the help text, or the major picker with
/// its prompt.
pub fn plan_general_command(cmd: &GeneralCommand, majors: &Vec<MajorEntry>) -> (r: GeneralStep)
    ensures
        cmd is Help ==> match r {
            GeneralStep::ShowHelp { text } => text@
                == "<b>Общедоступные команды</b>\n\n/help — Отображает список команд\n/setmajor — Установить свою группу\n\n<b>Команды для студентов</b>\n\n/yesterday — Просмотр расписания за вчера.\n/today — Просмотр расписания на сегодня.\n/tomorrow — Просмотр расписания на завтра.\n/nextweek — Выбрать день со следующий недели.\n/thisweek — Выбрать день на неделе."@,
            _ => false,
        },
        cmd is SetMajor ==> match r {
            GeneralStep::ChooseMajor { rows, prompt } => majors_keyboard_ok(rows@, majors@)
                && prompt@ == "Выберите свою группу"@,
            _ => false,
        },
{
    match cmd {
        GeneralCommand::Help => GeneralStep::ShowHelp { text: help_text() },
        GeneralCommand::SetMajor => GeneralStep::ChooseMajor {
            rows: make_majors_keyboard(majors),
            prompt: choose_major_prompt(),
        },
    }
}

/// Relies on rand's `OsRng` and `Rng::gen_range` over `from..=to`: a
/// value within the inclusive range; the range is non-empty, so the
/// call cannot panic.
#[verifier::external_body]
fn random_in_range(from: u64, to: u64) -> (r: u64)
    requires
        from <= to,
    ensures
        from <= r <= to,
{
    let mut rng = rand::rngs::OsRng;
    rand::Rng::gen_range(&mut rng, from..=to)
}

/// Decides an admin command: the admin command list, or — for the
/// number request — the decimal rendering of some value drawn within
/// the inclusive range.
pub fn plan_admin_command(cmd: &AdminCommand) -> (r: String)
    requires
        cmd matches AdminCommand::Rand { from, to } ==> *from <= *to,
    ensures
        cmd is AdminHelp ==> r@
            == "Admin commands\n\n/adminhelp — Help for admin only commands\n/rand — generate a number within range"@,
        cmd matches AdminCommand::Rand { from, to } ==> exists|v: u64|
            *from <= v <= *to && r@ == #[trigger] dec_chars(v as int),
{
    match cmd {
        AdminCommand::AdminHelp => admin_help_text(),
        AdminCommand::Rand { from, to } => {
            let v = random_in_range(*from, *to);
            let text = crate::text::u64_text(v);
            proof {
                assert(*from <= v <= *to && text@ == dec_chars(v as int));
            }
            text
        },
    }
}

} // verus!
