//! Rendering a resolved day of classes into the reply text.

use vstd::prelude::*;
use vstd::string::StringExecFns;
use crate::calendar::Date;
use crate::text::{two_digit_chars, dec_chars, push_two_digits, push_dec};
use crate::timetable::TimeTableEntry;

verus! {

/// Russian month name in the genitive, as the date header shows it.
pub open spec fn month_name_ru(m: int) -> Seq<char> {
    if m == 1 { "января"@ }
    else if m == 2 { "февраля"@ }
    else if m == 3 { "марта"@ }
    else if m == 4 { "апреля"@ }
    else if m == 5 { "мая"@ }
    else if m == 6 { "июня"@ }
    else if m == 7 { "июля"@ }
    else if m == 8 { "августа"@ }
    else if m == 9 { "сентября"@ }
    else if m == 10 { "октября"@ }
    else if m == 11 { "ноября"@ }
    else { "декабря"@ }
}

pub fn month_name(m: u8) -> (r: &'static str)
    requires
        1 <= m <= 12,
    ensures
        r@ == month_name_ru(m as int),
{
    if m == 1 { "января" }
    else if m == 2 { "февраля" }
    else if m == 3 { "марта" }
    else if m == 4 { "апреля" }
    else if m == 5 { "мая" }
    else if m == 6 { "июня" }
    else if m == 7 { "июля" }
    else if m == 8 { "августа" }
    else if m == 9 { "сентября" }
    else if m == 10 { "октября" }
    else if m == 11 { "ноября" }
    else { "декабря" }
}

/// `HH:MM` of a time of day given in seconds since midnight.
pub open spec fn hm_chars(secs: int) -> Seq<char> {
    two_digit_chars(secs / 3600) + seq![':'] + two_digit_chars(secs % 3600 / 60)
}

fn push_hm(s: &mut String, secs: u32)
    requires
        secs < 86400,
    ensures
        final(s)@ == old(s)@ + hm_chars(secs as int),
{
    push_two_digits(s, (secs / 3600) as u8);
    crate::text::push_char(s, ':');
    push_two_digits(s, (secs % 3600 / 60) as u8);
    proof {
        assert(final(s)@ =~= old(s)@ + hm_chars(secs as int));
    }
}

/// One paragraph: time range, subject, its kind, the professor when
/// known, and the auditorium.
pub open spec fn entry_chars(e: TimeTableEntry) -> Seq<char> {
    hm_chars(e.starts_at as int) + " – "@ + hm_chars(e.ends_at as int) + "\n<b>"@
        + e.subject_name@ + "</b>\n    "@ + e.subject_type@ + (match e.professor {
        Some(p) => "\n    "@ + p@,
        None => Seq::<char>::empty(),
    }) + "\n    "@ + e.auditorium@
}

pub fn format_entry(e: &TimeTableEntry) -> (s: String)
    requires
        e.wf(),
    ensures
        s@ == entry_chars(*e),
{
    let mut s = String::new();
    push_hm(&mut s, e.starts_at);
    s.append(" – ");
    push_hm(&mut s, e.ends_at);
    s.append("\n<b>");
    s.append(e.subject_name.as_str());
    s.append("</b>\n    ");
    s.append(e.subject_type.as_str());
    match &e.professor {
        Some(p) => {
            s.append("\n    ");
            s.append(p.as_str());
        },
        None => {},
    }
    s.append("\n    ");
    s.append(e.auditorium.as_str());
    proof {
        assert(s@ =~= entry_chars(*e));
    }
    s
}

/// The paragraphs of a day, in input order, separated by blank lines:
/// exactly one paragraph per entry.
pub open spec fn entries_body(s: Seq<TimeTableEntry>) -> Seq<char>
    decreases s.len(),
{
    if s.len() == 0 {
        Seq::empty()
    } else if s.len() == 1 {
        entry_chars(s[0])
    } else {
        entries_body(s.drop_last()) + "\n\n"@ + entry_chars(s.last())
    }
}

/// Law: appending an entry to a non-empty list appends exactly one more
/// paragraph at the end and leaves the earlier ones as they were.
pub proof fn lemma_formatter_appends(s: Seq<TimeTableEntry>, e: TimeTableEntry)
    requires
        s.len() > 0,
    ensures
        entries_body(s.push(e)) == entries_body(s) + "\n\n"@ + entry_chars(e),
{
    assert(s.push(e).drop_last() =~= s);
    assert(s.push(e).last() == e);
}

/// The date header above the paragraphs.
pub open spec fn header_chars(date: Date) -> Seq<char> {
    "<b>Расписание занятий на "@ + dec_chars(date.day as int) + seq![' ']
        + month_name_ru(date.month as int) + "</b>\n\n\n"@
}

/// Renders a non-empty day: header, then one paragraph per entry, in
/// input order.
pub fn format_entries(entries: &Vec<TimeTableEntry>, date: Date) -> (s: String)
    requires
        date.wf(),
        forall|i: int| 0 <= i < entries@.len() ==> (#[trigger] entries@[i]).wf(),
    ensures
        s@ == header_chars(date) + entries_body(entries@),
{
    let mut s = String::new();
    s.append("<b>Расписание занятий на ");
    push_dec(&mut s, date.day as u64);
    crate::text::push_char(&mut s, ' ');
    s.append(month_name(date.month));
    s.append("</b>\n\n\n");
    proof {
        assert(s@ =~= header_chars(date));
    }
    let ghost header = s@;
    let n = entries.len();
    let mut i: usize = 0;
    proof {
        assert(entries@.subrange(0, 0) =~= Seq::<TimeTableEntry>::empty());
        assert(s@ =~= header + entries_body(entries@.subrange(0, 0)));
    }
    while i < n
        invariant
            0 <= i <= n,
            n == entries@.len(),
            date.wf(),
            forall|k: int| 0 <= k < entries@.len() ==> (#[trigger] entries@[k]).wf(),
            s@ == header + entries_body(entries@.subrange(0, i as int)),
        decreases n - i,
    {
        if i > 0 {
            s.append("\n\n");
        }
        let para = format_entry(&entries[i]);
        s.append(para.as_str());
        proof {
            let prefix = entries@.subrange(0, i as int);
            let prefix1 = entries@.subrange(0, i as int + 1);
            assert(prefix1.drop_last() =~= prefix);
            assert(prefix1.last() == entries@[i as int]);
            if i == 0 {
                assert(entries_body(prefix1) == entry_chars(entries@[0]));
            }
            assert(s@ =~= header + entries_body(prefix1));
        }
        i = i + 1;
    }
    proof {
        assert(entries@.subrange(0, n as int) =~= entries@);
    }
    s
}

/// The fixed reply when nothing was found.
pub fn nothing_found_text() -> (s: String)
    ensures
        s@ == "<i>Ничего не найдено.</i>"@,
{
    String::from_str("<i>Ничего не найдено.</i>")
}

/// Renders a resolved day: the fixed "nothing found" text for an empty
/// list, otherwise the header and one paragraph per entry.
pub fn prepare_text(entries: &Vec<TimeTableEntry>, date: Date) -> (s: String)
    requires
        date.wf(),
        forall|i: int| 0 <= i < entries@.len() ==> (#[trigger] entries@[i]).wf(),
    ensures
        entries@.len() == 0 ==> s@ == "<i>Ничего не найдено.</i>"@,
        entries@.len() > 0 ==> s@ == header_chars(date) + entries_body(entries@),
{
    if entries.len() == 0 {
        nothing_found_text()
    } else {
        format_entries(entries, date)
    }
}

} // verus!
