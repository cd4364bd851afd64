//! The callback-token protocol: the opaque strings carried by keyboard
//! buttons. Two families exist, told apart by a literal prefix before
//! the first `:`; anything else is ignored by every receiver.

use vstd::prelude::*;
use vstd::string::{StrSliceExecFns, StringExecFns};
use crate::datetime::{DateTime, parse_rfc3339, rfc3339_chars, decode_rfc3339, encode_rfc3339,
    lemma_rfc3339_round_trip};

verus! {

/// The two recognised token families.
#[derive(Clone, Copy, PartialEq, Eq, Structural, Debug)]
pub enum ButtonPrefix {
    SetMajor,
    TimetableWeekday,
}

impl ButtonPrefix {
    pub open spec fn spec_chars(self) -> Seq<char> {
        match self {
            ButtonPrefix::SetMajor => "set-major"@,
            ButtonPrefix::TimetableWeekday => "timetable-weekday"@,
        }
    }

    pub fn text(self) -> (r: &'static str)
        ensures
            r@ == self.spec_chars(),
    {
        match self {
            ButtonPrefix::SetMajor => "set-major",
            ButtonPrefix::TimetableWeekday => "timetable-weekday",
        }
    }
}

/// The major id carried by a `set-major:` token, if the token belongs
/// to that family.
pub open spec fn set_major_payload(s: Seq<char>) -> Option<Seq<char>> {
    if s.len() >= 10 && s.subrange(0, 10) == "set-major:"@ {
        Some(s.skip(10))
    } else {
        None
    }
}

/// The timestamp carried by a `timetable-weekday:` token, if the token
/// belongs to that family and its payload is canonical RFC-3339.
pub open spec fn weekday_payload(s: Seq<char>) -> Option<DateTime> {
    if s.len() >= 18 && s.subrange(0, 18) == "timetable-weekday:"@ {
        parse_rfc3339(s.skip(18))
    } else {
        None
    }
}

/// Builds the `set-major:<id>` token for a major.
pub fn encode_set_major(id: &str) -> (s: String)
    ensures
        s@ == "set-major:"@ + id@,
{
    let s = String::from_str("set-major:");
    s.concat(id)
}

/// Builds the `timetable-weekday:<rfc3339>` token for a day button.
pub fn encode_weekday(dt: &DateTime) -> (s: String)
    requires
        dt.wf(),
    ensures
        s@ == "timetable-weekday:"@ + rfc3339_chars(*dt),
{
    let s = String::from_str("timetable-weekday:");
    let body = encode_rfc3339(dt);
    s.concat(body.as_str())
}

/// Reads a `set-major:` token; every other string is rejected.
pub fn decode_set_major(s: &str) -> (r: Option<String>)
    ensures
        match r {
            Some(id) => set_major_payload(s@) == Some(id@),
            None => set_major_payload(s@) is None,
        },
{
    proof {
        reveal_strlit("set-major:");
    }
    let prefix: &str = "set-major:";
    let n = s.unicode_len();
    if n < 10 {
        return None;
    }
    let mut i: usize = 0;
    while i < 10
        invariant
            0 <= i <= 10,
            n == s@.len(),
            n >= 10,
            prefix@ == "set-major:"@,
            prefix@.len() == 10,
            forall|k: int| 0 <= k < i ==> s@[k] == "set-major:"@[k],
        decreases 10 - i,
    {
        if s.get_char(i) != prefix.get_char(i) {
            proof {
                assert(s@.subrange(0, 10)[i as int] != "set-major:"@[i as int]);
            }
            return None;
        }
        i = i + 1;
    }
    proof {
        assert(s@.subrange(0, 10) =~= "set-major:"@);
    }
    let tail = s.substring_char(10, n);
    let id = tail.to_owned();
    proof {
        assert(id@ =~= s@.skip(10));
    }
    Some(id)
}

/// Reads a `timetable-weekday:` token; every other string, and every
/// payload that is not canonical RFC-3339, is rejected.
pub fn decode_weekday(s: &str) -> (r: Option<DateTime>)
    ensures
        r == weekday_payload(s@),
        r matches Some(dt) ==> dt.wf(),
{
    proof {
        reveal_strlit("timetable-weekday:");
    }
    let prefix: &str = "timetable-weekday:";
    let n = s.unicode_len();
    if n < 18 {
        return None;
    }
    let mut i: usize = 0;
    while i < 18
        invariant
            0 <= i <= 18,
            n == s@.len(),
            n >= 18,
            prefix@ == "timetable-weekday:"@,
            prefix@.len() == 18,
            forall|k: int| 0 <= k < i ==> s@[k] == "timetable-weekday:"@[k],
        decreases 18 - i,
    {
        if s.get_char(i) != prefix.get_char(i) {
            proof {
                assert(s@.subrange(0, 18)[i as int] != "timetable-weekday:"@[i as int]);
            }
            return None;
        }
        i = i + 1;
    }
    proof {
        assert(s@.subrange(0, 18) =~= "timetable-weekday:"@);
        assert(s@.skip(18) =~= s@.subrange(18, n as int));
    }
    let tail = s.substring_char(18, n);
    decode_rfc3339(tail)
}

/// Law: encoding a major id and decoding the token recovers exactly
/// that id, whatever characters it holds.
pub proof fn lemma_set_major_round_trip(id: Seq<char>)
    ensures
        set_major_payload("set-major:"@ + id) == Some(id),
{
    reveal_strlit("set-major:");
    let s = "set-major:"@ + id;
    assert(s.subrange(0, 10) =~= "set-major:"@);
    assert(s.skip(10) =~= id);
}

/// Law: encoding a timestamp into a day button token and decoding it
/// recovers exactly that timestamp.
pub proof fn lemma_weekday_round_trip(dt: DateTime)
    requires
        dt.wf(),
    ensures
        weekday_payload("timetable-weekday:"@ + rfc3339_chars(dt)) == Some(dt),
{
    reveal_strlit("timetable-weekday:");
    let s = "timetable-weekday:"@ + rfc3339_chars(dt);
    lemma_rfc3339_round_trip(dt);
    assert(s.subrange(0, 18) =~= "timetable-weekday:"@);
    assert(s.skip(18) =~= rfc3339_chars(dt));
}

/// Law: the two families never overlap; no token is accepted by both
/// receivers.
pub proof fn lemma_families_disjoint(s: Seq<char>)
    ensures
        !(set_major_payload(s) is Some && weekday_payload(s) is Some),
{
    reveal_strlit("set-major:");
    reveal_strlit("timetable-weekday:");
    if set_major_payload(s) is Some && weekday_payload(s) is Some {
        assert(s.subrange(0, 10)[0] == s[0]);
        assert(s.subrange(0, 18)[0] == s[0]);
        assert("set-major:"@[0] == 's');
        assert("timetable-weekday:"@[0] == 't');
    }
}

} // verus!
