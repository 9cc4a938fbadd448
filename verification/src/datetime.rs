//! The creation time of a todo, and how the list shows it.

use vstd::prelude::*;

use crate::decimal::{
    decimal, digits_value, is_digits, lemma_decimal_short, lemma_zero_padded_reads_back,
    u64_zero_padded, zero_padded,
};

verus! {

/// A point in time in UTC, to the minute, as calendar fields.
#[derive(Clone, Copy, Debug, PartialEq, Eq, Structural)]
pub struct Timestamp {
    pub year: i32,
    pub month: u8,
    pub day: u8,
    pub hour: u8,
    pub minute: u8,
}

/// The year with at least four digits, and a minus sign before years before 0.
pub open spec fn year_text(year: int) -> Seq<char> {
    if year < 0 {
        seq!['-'] + zero_padded((-year) as nat, 4)
    } else {
        zero_padded(year as nat, 4)
    }
}

/// `hh:mm - dd/mm/yyyy`, every field but the year two digits wide.
pub open spec fn timestamp_text(t: Timestamp) -> Seq<char> {
    zero_padded(t.hour as nat, 2) + ":"@ + zero_padded(t.minute as nat, 2) + " - "@
        + zero_padded(t.day as nat, 2) + "/"@ + zero_padded(t.month as nat, 2) + "/"@
        + year_text(t.year as int)
}

/// Whether the two characters of `s` at `at` are digits reading as `n`.
pub open spec fn two_digits_at(s: Seq<char>, at: int, n: int) -> bool {
    &&& is_digits(s.subrange(at, at + 2))
    &&& digits_value(s.subrange(at, at + 2)) == n
}

/// Whether `s` reads, under `%H:%M - %d/%m/%Y`, as the hour, minute, day,
/// month and year of `t`: hour at 0..2, minute at 3..5, day at 8..10, month
/// at 11..13, the year from 14 on, with a minus sign for years before 0.
pub open spec fn reads_as(s: Seq<char>, t: Timestamp) -> bool {
    &&& s.len() >= 18
    &&& two_digits_at(s, 0, t.hour as int)
    &&& s[2] == ':'
    &&& two_digits_at(s, 3, t.minute as int)
    &&& s.subrange(5, 8) == " - "@
    &&& two_digits_at(s, 8, t.day as int)
    &&& s[10] == '/'
    &&& two_digits_at(s, 11, t.month as int)
    &&& s[13] == '/'
    &&& (t.year >= 0 ==> is_digits(s.subrange(14, s.len() as int)) && digits_value(
        s.subrange(14, s.len() as int),
    ) == t.year)
    &&& (t.year < 0 ==> s[14] == '-' && is_digits(s.subrange(15, s.len() as int)) && digits_value(
        s.subrange(15, s.len() as int),
    ) == -t.year)
}

/// Whether every field of `t` but the year has at most two digits.
pub open spec fn has_short_fields(t: Timestamp) -> bool {
    t.hour < 100 && t.minute < 100 && t.day < 100 && t.month < 100
}

/// The shown text of a time whose fields fit in two digits reads back, at
/// its fixed positions, as the same hour, minute, day, month and year.
pub proof fn lemma_timestamp_text_reads_back(t: Timestamp)
    requires
        has_short_fields(t),
    ensures
        reads_as(timestamp_text(t), t),
{
    reveal_strlit(":");
    reveal_strlit(" - ");
    reveal_strlit("/");
    lemma_decimal_short(t.hour as nat);
    lemma_decimal_short(t.minute as nat);
    lemma_decimal_short(t.day as nat);
    lemma_decimal_short(t.month as nat);
    lemma_zero_padded_reads_back(t.hour as nat, 2);
    lemma_zero_padded_reads_back(t.minute as nat, 2);
    lemma_zero_padded_reads_back(t.day as nat, 2);
    lemma_zero_padded_reads_back(t.month as nat, 2);
    let h = zero_padded(t.hour as nat, 2);
    let mi = zero_padded(t.minute as nat, 2);
    let d = zero_padded(t.day as nat, 2);
    let mo = zero_padded(t.month as nat, 2);
    let y = year_text(t.year as int);
    let s = timestamp_text(t);
    if t.year >= 0 {
        lemma_zero_padded_reads_back(t.year as nat, 4);
    } else {
        lemma_zero_padded_reads_back((-t.year) as nat, 4);
    }
    assert(y.len() >= 4);
    assert(s =~= h + ":"@ + mi + " - "@ + d + "/"@ + mo + "/"@ + y);
    assert(s.subrange(0, 2) =~= h);
    assert(s.subrange(3, 5) =~= mi);
    assert(s.subrange(5, 8) =~= " - "@);
    assert(s.subrange(8, 10) =~= d);
    assert(s.subrange(11, 13) =~= mo);
    assert(s.subrange(14, s.len() as int) =~= y);
    if t.year < 0 {
        assert(s.subrange(15, s.len() as int) =~= zero_padded((-t.year) as nat, 4));
    }
}

fn year_string(year: i32) -> (s: String)
    ensures
        s@ == year_text(year as int),
{
    if year < 0 {
        let magnitude: i64 = -(year as i64);
        let mut s = String::from_str("-");
        proof {
            reveal_strlit("-");
        }
        let digits = u64_zero_padded(magnitude as u64, 4);
        s.append(digits.as_str());
        s
    } else {
        u64_zero_padded(year as u64, 4)
    }
}

/// Shows a creation time as the todo list does: `hh:mm - dd/mm/yyyy`.
pub fn format_timestamp(t: &Timestamp) -> (s: String)
    ensures
        s@ == timestamp_text(*t),
        has_short_fields(*t) ==> reads_as(s@, *t),
{
    proof {
        if has_short_fields(*t) {
            lemma_timestamp_text_reads_back(*t);
        }
    }
    let mut s = u64_zero_padded(t.hour as u64, 2);
    s.append(":");
    s.append(u64_zero_padded(t.minute as u64, 2).as_str());
    s.append(" - ");
    s.append(u64_zero_padded(t.day as u64, 2).as_str());
    s.append("/");
    s.append(u64_zero_padded(t.month as u64, 2).as_str());
    s.append("/");
    s.append(year_string(t.year).as_str());
    s
}


/// Numbers below 100 take two characters once padded to two.
proof fn lemma_two_digits(n: nat)
    requires
        n < 100,
    ensures
        zero_padded(n, 2).len() == 2,
{
    reveal_with_fuel(decimal, 3);
    if n >= 10 {
        assert(n / 10 < 10);
    }
}

/// Numbers from 1000 to 9999 take four characters.
proof fn lemma_four_digits(n: nat)
    requires
        1000 <= n <= 9999,
    ensures
        zero_padded(n, 4).len() == 4,
{
    reveal_with_fuel(decimal, 5);
    assert(n / 10 >= 100 && n / 10 < 1000);
    assert(n / 10 / 10 >= 10 && n / 10 / 10 < 100);
    assert(n / 10 / 10 / 10 >= 1 && n / 10 / 10 / 10 < 10);
}

/// A time of day on a calendar date of a year from 1000 to 9999 is always
/// shown with the same width, `hh:mm - dd/mm/yyyy`.
pub proof fn lemma_timestamp_text_width(t: Timestamp)
    requires
        t.hour < 24,
        t.minute < 60,
        1 <= t.day <= 31,
        1 <= t.month <= 12,
        1000 <= t.year <= 9999,
    ensures
        timestamp_text(t).len() == 18,
{
    lemma_two_digits(t.hour as nat);
    lemma_two_digits(t.minute as nat);
    lemma_two_digits(t.day as nat);
    lemma_two_digits(t.month as nat);
    lemma_four_digits(t.year as nat);
    reveal_strlit(":");
    reveal_strlit(" - ");
    reveal_strlit("/");
}

} // verus!
