//! Small verified text-building blocks: decimal digits and strings
//! grown character by character.

use vstd::prelude::*;

verus! {

pub open spec fn digit_char(d: int) -> char {
    if d == 0 { '0' }
    else if d == 1 { '1' }
    else if d == 2 { '2' }
    else if d == 3 { '3' }
    else if d == 4 { '4' }
    else if d == 5 { '5' }
    else if d == 6 { '6' }
    else if d == 7 { '7' }
    else if d == 8 { '8' }
    else { '9' }
}

/// Code points of decimal digits: `digit_char` lands in `'0' ..= '9'`
/// and taking the code point back out recovers the digit.
pub proof fn lemma_digit_char(d: int)
    requires
        0 <= d < 10,
    ensures
        48 <= digit_char(d) as int <= 57,
        digit_char(d) as int - 48 == d,
{
}

/// Decimal digits of `n`, most significant first, no leading zeros.
pub open spec fn dec_chars(n: int) -> Seq<char>
    recommends
        n >= 0,
    decreases n,
{
    if n < 10 { seq![digit_char(n)] } else { dec_chars(n / 10).push(digit_char(n % 10)) }
}

/// Relies on std's `String::push`: appends exactly one character.
#[verifier::external_body]
pub fn push_char(s: &mut String, c: char)
    ensures
        final(s)@ == old(s)@.push(c),
{
    s.push(c);
}

pub fn digit_to_char(d: u8) -> (c: char)
    requires
        d < 10,
    ensures
        c == digit_char(d as int),
{
    if d == 0 { '0' }
    else if d == 1 { '1' }
    else if d == 2 { '2' }
    else if d == 3 { '3' }
    else if d == 4 { '4' }
    else if d == 5 { '5' }
    else if d == 6 { '6' }
    else if d == 7 { '7' }
    else if d == 8 { '8' }
    else { '9' }
}

/// The value of a decimal digit character, if it is one.
pub fn char_digit(c: char) -> (r: Option<u8>)
    ensures
        match r {
            Some(d) => d < 10 && 48 <= c as int <= 57 && d == c as int - 48,
            None => !(48 <= c as int <= 57),
        },
{
    let v = c as u32;
    if 48 <= v && v <= 57 {
        Some((v - 48) as u8)
    } else {
        None
    }
}

/// Two zero-padded decimal digits of `n < 100`.
pub open spec fn two_digit_chars(n: int) -> Seq<char> {
    seq![digit_char(n / 10), digit_char(n % 10)]
}

pub fn push_two_digits(s: &mut String, n: u8)
    requires
        n < 100,
    ensures
        final(s)@ == old(s)@ + two_digit_chars(n as int),
{
    push_char(s, digit_to_char(n / 10));
    push_char(s, digit_to_char(n % 10));
    proof {
        assert(final(s)@ =~= old(s)@ + two_digit_chars(n as int));
    }
}

/// Appends the decimal rendering of `n`, no leading zeros.
pub fn push_dec(s: &mut String, n: u64)
    ensures
        final(s)@ == old(s)@ + dec_chars(n as int),
    decreases n,
{
    if n >= 10 {
        push_dec(s, n / 10);
        push_char(s, digit_to_char((n % 10) as u8));
        proof {
            assert(final(s)@ =~= old(s)@ + dec_chars(n as int));
        }
    } else {
        push_char(s, digit_to_char(n as u8));
        proof {
            assert(final(s)@ =~= old(s)@ + dec_chars(n as int));
        }
    }
}

/// The decimal rendering of `n` as its own string.
pub fn u64_text(n: u64) -> (s: String)
    ensures
        s@ == dec_chars(n as int),
{
    let mut s = String::new();
    push_dec(&mut s, n);
    proof {
        assert(s@ =~= dec_chars(n as int));
    }
    s
}

} // verus!
