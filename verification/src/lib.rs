//! Verified core of a university timetable chat-bot.
//!
//! The library holds the logic worth stating and proving: the calendar
//! arithmetic behind the week/day classifier, the timetable resolver,
//! the entry formatter, the day-picker keyboard builder and the callback
//! token protocol. Transport, persistence and the process loop live
//! outside the library and hand it plain values.

pub mod calendar;
pub mod datetime;
pub mod format;
pub mod handlers;
pub mod keyboard;
pub mod text;
pub mod timetable;
pub mod tokens;

use vstd::prelude::*;

verus! {

/// Seconds east of UTC of the fixed offset every timestamp in this
/// system carries (UTC+4).
pub const TIME_OFFSET_SECONDS: i32 = 3600 * 4;

/// The fixed offset, in whole minutes east of UTC.
pub fn global_offset() -> (r: i32)
    ensures
        r == TIME_OFFSET_SECONDS / 60,
        r == 240,
{
    TIME_OFFSET_SECONDS / 60
}

} // verus!
