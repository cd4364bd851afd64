//! The stored rows and the timetable resolver: picking the rows of one
//! (major, week parity, weekday) triple and ordering them by start time.

use vstd::prelude::*;
use crate::calendar::{Date, DayOfWeek, WeekType, spec_week_parity};

verus! {

/// A study group, keyed by an id distinct from its display title.
pub struct MajorEntry {
    pub id: String,
    pub title: String,
    pub enrollment_year: i16,
}

/// A chat user and the major they registered.
pub struct UserEntry {
    pub id: i64,
    pub major_id: String,
}

/// A yes/no row as the store reports it.
pub struct Exists {
    pub exists: bool,
}

/// One timetable row. Times of day are seconds since midnight.
pub struct TimeTableEntry {
    pub id: i64,
    pub major_id: Option<String>,
    pub week: WeekType,
    pub day_of_week: DayOfWeek,
    pub starts_at: u32,
    pub ends_at: u32,
    pub subject_name: String,
    pub subject_type: String,
    pub auditorium: String,
    pub professor: Option<String>,
}

impl TimeTableEntry {
    pub open spec fn wf(self) -> bool {
        self.starts_at < 86400 && self.ends_at < 86400
    }
}

/// Whether a row belongs to the requested (major, parity, weekday)
/// triple.
pub open spec fn entry_matches(e: TimeTableEntry, major: Seq<char>, week: WeekType, day: DayOfWeek) -> bool {
    &&& e.week == week
    &&& e.day_of_week == day
    &&& match e.major_id {
        Some(m) => m@ == major,
        None => false,
    }
}

/// The subsequence of rows that match, in their stored order.
pub open spec fn keep_matching(
    s: Seq<TimeTableEntry>,
    major: Seq<char>,
    week: WeekType,
    day: DayOfWeek,
) -> Seq<TimeTableEntry>
    decreases s.len(),
{
    if s.len() == 0 {
        Seq::empty()
    } else {
        let rest = keep_matching(s.drop_last(), major, week, day);
        if entry_matches(s.last(), major, week, day) {
            rest.push(s.last())
        } else {
            rest
        }
    }
}

/// Inserts a row into an ascending run, after every row that starts no
/// later, so that equal start times keep their arrival order.
pub open spec fn insert_by_start(e: TimeTableEntry, s: Seq<TimeTableEntry>) -> Seq<TimeTableEntry>
    decreases s.len(),
{
    if s.len() == 0 {
        seq![e]
    } else if s.last().starts_at <= e.starts_at {
        s.push(e)
    } else {
        insert_by_start(e, s.drop_last()).push(s.last())
    }
}

/// Stable insertion sort by start time.
pub open spec fn sort_by_start(s: Seq<TimeTableEntry>) -> Seq<TimeTableEntry>
    decreases s.len(),
{
    if s.len() == 0 {
        Seq::empty()
    } else {
        insert_by_start(s.last(), sort_by_start(s.drop_last()))
    }
}

/// Ascending by start time.
pub open spec fn sorted_by_start(s: Seq<TimeTableEntry>) -> bool {
    forall|i: int, j: int| 0 <= i < j < s.len() ==> s[i].starts_at <= s[j].starts_at
}

proof fn lemma_insert_bounded(e: TimeTableEntry, s: Seq<TimeTableEntry>, b: u32)
    requires
        e.starts_at <= b,
        forall|i: int| 0 <= i < s.len() ==> s[i].starts_at <= b,
    ensures
        forall|i: int| 0 <= i < insert_by_start(e, s).len() ==> insert_by_start(e, s)[i].starts_at <= b,
    decreases s.len(),
{
    if s.len() == 0 {
    } else if s.last().starts_at <= e.starts_at {
    } else {
        assert(forall|i: int| 0 <= i < s.drop_last().len() ==> s.drop_last()[i].starts_at <= b);
        lemma_insert_bounded(e, s.drop_last(), b);
    }
}

/// Law: inserting into an ascending run keeps it ascending.
proof fn lemma_insert_sorted(e: TimeTableEntry, s: Seq<TimeTableEntry>)
    requires
        sorted_by_start(s),
    ensures
        sorted_by_start(insert_by_start(e, s)),
    decreases s.len(),
{
    if s.len() == 0 {
    } else if s.last().starts_at <= e.starts_at {
        assert forall|i: int, j: int| 0 <= i < j < s.push(e).len() implies s.push(e)[i].starts_at
            <= s.push(e)[j].starts_at by {
            if j < s.len() {
            } else {
                assert(s.push(e)[j] == e);
                if i < s.len() - 1 {
                    assert(s[i].starts_at <= s[s.len() - 1].starts_at);
                }
            }
        }
    } else {
        let d = s.drop_last();
        assert(forall|i: int, j: int| 0 <= i < j < d.len() ==> d[i].starts_at <= d[j].starts_at);
        lemma_insert_sorted(e, d);
        let r = insert_by_start(e, d);
        assert(forall|i: int| 0 <= i < d.len() ==> d[i].starts_at <= s.last().starts_at);
        lemma_insert_bounded(e, d, s.last().starts_at);
        let out = r.push(s.last());
        assert forall|i: int, j: int| 0 <= i < j < out.len() implies out[i].starts_at
            <= out[j].starts_at by {
            if j < r.len() {
            } else {
                assert(out[j] == s.last());
                assert(r[i].starts_at <= s.last().starts_at);
            }
        }
    }
}

/// Law: the resolver's ordering is total by start time: a stably sorted
/// run is ascending, whatever the input order was.
pub proof fn lemma_sort_sorted(s: Seq<TimeTableEntry>)
    ensures
        sorted_by_start(sort_by_start(s)),
    decreases s.len(),
{
    if s.len() == 0 {
    } else {
        lemma_sort_sorted(s.drop_last());
        lemma_insert_sorted(s.last(), sort_by_start(s.drop_last()));
    }
}

proof fn lemma_insert_permutes(e: TimeTableEntry, s: Seq<TimeTableEntry>)
    ensures
        insert_by_start(e, s).to_multiset() == s.to_multiset().insert(e),
    decreases s.len(),
{
    broadcast use vstd::seq_lib::group_to_multiset_ensures;

    if s.len() == 0 {
        assert(seq![e] =~= Seq::<TimeTableEntry>::empty().push(e));
        assert(insert_by_start(e, s).to_multiset() =~= s.to_multiset().insert(e));
    } else if s.last().starts_at <= e.starts_at {
    } else {
        let d = s.drop_last();
        lemma_insert_permutes(e, d);
        assert(d.push(s.last()) =~= s);
        assert(insert_by_start(e, s).to_multiset() =~= d.to_multiset().insert(e).insert(
            s.last(),
        ));
        assert(d.to_multiset().insert(e).insert(s.last()) =~= d.to_multiset().insert(
            s.last(),
        ).insert(e));
        assert(d.to_multiset().insert(s.last()) =~= s.to_multiset());
    }
}

/// Law: ordering a day's rows loses none and invents none: the sorted
/// run holds exactly the rows that were kept, as a multiset.
pub proof fn lemma_sort_permutes(s: Seq<TimeTableEntry>)
    ensures
        sort_by_start(s).to_multiset() == s.to_multiset(),
    decreases s.len(),
{
    broadcast use vstd::seq_lib::group_to_multiset_ensures;

    if s.len() == 0 {
    } else {
        let d = s.drop_last();
        lemma_sort_permutes(d);
        lemma_insert_permutes(s.last(), sort_by_start(d));
        assert(d.push(s.last()) =~= s);
        assert(sort_by_start(s).to_multiset() =~= s.to_multiset());
    }
}

/// Where the scan stopped is exactly where the spec-level insertion
/// puts the new row.
proof fn lemma_insert_at(e: TimeTableEntry, s: Seq<TimeTableEntry>, j: int)
    requires
        0 <= j <= s.len(),
        forall|k: int| j <= k < s.len() ==> s[k].starts_at > e.starts_at,
        j > 0 ==> s[j - 1].starts_at <= e.starts_at,
    ensures
        insert_by_start(e, s) == s.insert(j, e),
    decreases s.len(),
{
    if j == s.len() {
        if s.len() == 0 {
            assert(insert_by_start(e, s) =~= s.insert(j, e));
        } else {
            assert(s.last().starts_at <= e.starts_at);
            assert(insert_by_start(e, s) == s.push(e));
            assert(s.push(e) =~= s.insert(j, e));
        }
    } else {
        assert(s[s.len() - 1].starts_at > e.starts_at);
        let d = s.drop_last();
        lemma_insert_at(e, d, j);
        assert(insert_by_start(e, s) == d.insert(j, e).push(s.last()));
        assert(d.insert(j, e).push(s.last()) =~= s.insert(j, e));
    }
}

/// Inserts a row into an already ascending vector, keeping equal start
/// times in arrival order.
fn insert_entry(out: &mut Vec<TimeTableEntry>, e: TimeTableEntry)
    ensures
        final(out)@ == insert_by_start(e, old(out)@),
{
    let ghost s = out@;
    let mut j: usize = out.len();
    while j > 0 && out[j - 1].starts_at > e.starts_at
        invariant
            0 <= j <= s.len(),
            out@ == s,
            forall|k: int| j <= k < s.len() ==> s[k].starts_at > e.starts_at,
        decreases j,
    {
        j = j - 1;
    }
    proof {
        lemma_insert_at(e, s, j as int);
    }
    out.insert(j, e);
}

/// Resolves a query: keeps the rows of the requested triple and orders
/// them ascending by start time, equal starts keeping stored order.
pub fn resolve_entries(
    rows: Vec<TimeTableEntry>,
    major_id: &str,
    week: WeekType,
    day: DayOfWeek,
) -> (r: Vec<TimeTableEntry>)
    ensures
        r@ == sort_by_start(keep_matching(rows@, major_id@, week, day)),
        sorted_by_start(r@),
{
    let ghost all = rows@;
    let mut out: Vec<TimeTableEntry> = Vec::new();
    let mut rest = rows;
    let ghost mut i: int = 0;
    proof {
        assert(keep_matching(all.subrange(0, 0), major_id@, week, day) =~= Seq::empty());
        assert(out@ =~= sort_by_start(keep_matching(all.subrange(0, 0), major_id@, week, day)));
        assert(rest@ =~= all.skip(0));
    }
    while rest.len() > 0
        invariant
            0 <= i <= all.len(),
            rest@ == all.skip(i),
            out@ == sort_by_start(keep_matching(all.subrange(0, i), major_id@, week, day)),
        decreases rest.len(),
    {
        let e = rest.remove(0);
        proof {
            assert(e == all[i]);
            assert(rest@ =~= all.skip(i + 1));
        }
        let matches_major = match &e.major_id {
            Some(m) => str_eq(m.as_str(), major_id),
            None => false,
        };
        let ghost prefix = all.subrange(0, i);
        let ghost prefix1 = all.subrange(0, i + 1);
        proof {
            assert(prefix1.drop_last() =~= prefix);
            assert(prefix1.last() == all[i]);
        }
        if e.week == week && e.day_of_week == day && matches_major {
            proof {
                assert(entry_matches(all[i], major_id@, week, day));
            }
            let ghost kept = keep_matching(prefix, major_id@, week, day);
            let ghost kept1 = keep_matching(prefix1, major_id@, week, day);
            insert_entry(&mut out, e);
            proof {
                assert(kept1 == kept.push(e));
                assert(kept.push(e).drop_last() =~= kept);
                assert(kept.push(e).last() == e);
                assert(sort_by_start(kept1) == insert_by_start(e, sort_by_start(kept)));
            }
        } else {
            proof {
                assert(!entry_matches(all[i], major_id@, week, day));
            }
        }
        proof {
            i = i + 1;
        }
    }
    proof {
        assert(all.subrange(0, all.len() as int) =~= all);
        lemma_sort_sorted(keep_matching(all, major_id@, week, day));
    }
    out
}

/// Character-for-character string equality.
fn str_eq(a: &str, b: &str) -> (r: bool)
    ensures
        r == (a@ == b@),
{
    let n = a.unicode_len();
    if n != b.unicode_len() {
        return false;
    }
    let mut i: usize = 0;
    while i < n
        invariant
            0 <= i <= n,
            n == a@.len(),
            n == b@.len(),
            forall|k: int| 0 <= k < i ==> a@[k] == b@[k],
        decreases n - i,
    {
        if a.get_char(i) != b.get_char(i) {
            return false;
        }
        i = i + 1;
    }
    proof {
        assert(a@ =~= b@);
    }
    true
}

/// Resolves for a concrete date: derives the weekday and week parity
/// of `date` and picks and orders the matching rows.
pub fn find_timetable(rows: Vec<TimeTableEntry>, major_id: &str, date: Date) -> (r: Vec<TimeTableEntry>)
    requires
        date.wf(),
    ensures
        r@ == sort_by_start(keep_matching(
            rows@,
            major_id@,
            spec_week_parity(date.year as int, date.month as int, date.day as int),
            DayOfWeek::spec_from_index(date.weekday()),
        )),
        sorted_by_start(r@),
{
    let (day, week) = crate::calendar::classify(date);
    resolve_entries(rows, major_id, week, day)
}

} // verus!
