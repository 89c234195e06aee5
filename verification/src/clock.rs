//! Calendar timestamps and their two textual renderings.
//!
//! A [`Timestamp`] holds a UTC wall-clock reading down to the minute as plain
//! integers. Posts embed it twice, with different delimiters: a
//! filesystem-safe form for the file name and a human-readable form for the
//! document frontmatter. Both renderings are verified character by character.

use crate::strutil::push_char;
use chrono::{Datelike, Timelike, Utc};
use vstd::prelude::*;

verus! {

/// A UTC wall-clock reading, to the minute.
#[derive(Clone, Copy, Debug, PartialEq, Eq, Structural)]
pub struct Timestamp {
    pub year: u16,
    pub month: u8,
    pub day: u8,
    pub hour: u8,
    pub minute: u8,
}

impl Timestamp {
    /// The fields describe a calendar minute whose year has four digits.
    pub open spec fn wf(self) -> bool {
        &&& 1000 <= self.year <= 9999
        &&& 1 <= self.month <= 12
        &&& 1 <= self.day <= 31
        &&& self.hour <= 23
        &&& self.minute <= 59
    }

    /// Builds a timestamp from its parts; rejects any reading outside the
    /// ranges of [`Timestamp::wf`].
    pub fn new(year: u16, month: u8, day: u8, hour: u8, minute: u8) -> (r: Option<Timestamp>)
        ensures
            match r {
                Some(t) => t == (Timestamp { year, month, day, hour, minute }) && t.wf(),
                None => !(Timestamp { year, month, day, hour, minute }).wf(),
            },
    {
        if 1000 <= year && year <= 9999 && 1 <= month && month <= 12 && 1 <= day && day <= 31
            && hour <= 23 && minute <= 59 {
            Some(Timestamp { year, month, day, hour, minute })
        } else {
            None
        }
    }
}

/// The decimal digit character for `d`.
pub open spec fn digit_char(d: int) -> char
    recommends
        0 <= d <= 9,
{
    if d == 0 {
        '0'
    } else if d == 1 {
        '1'
    } else if d == 2 {
        '2'
    } else if d == 3 {
        '3'
    } else if d == 4 {
        '4'
    } else if d == 5 {
        '5'
    } else if d == 6 {
        '6'
    } else if d == 7 {
        '7'
    } else if d == 8 {
        '8'
    } else {
        '9'
    }
}

/// `n` rendered as exactly two decimal digits, zero-padded.
pub open spec fn two_digits(n: int) -> Seq<char>
    recommends
        0 <= n <= 99,
{
    seq![digit_char(n / 10), digit_char(n % 10)]
}

/// `n` rendered as exactly four decimal digits, zero-padded.
pub open spec fn four_digits(n: int) -> Seq<char>
    recommends
        0 <= n <= 9999,
{
    seq![
        digit_char(n / 1000),
        digit_char((n / 100) % 10),
        digit_char((n / 10) % 10),
        digit_char(n % 10),
    ]
}

/// The file-name rendering: `YYYY-MM-DD-HH-MM`, hyphens throughout.
pub open spec fn filename_date(t: Timestamp) -> Seq<char> {
    four_digits(t.year as int) + seq!['-'] + two_digits(t.month as int) + seq!['-'] + two_digits(
        t.day as int,
    ) + seq!['-'] + two_digits(t.hour as int) + seq!['-'] + two_digits(t.minute as int)
}

/// The frontmatter rendering: `YYYY-MM-DD HH:MM`.
pub open spec fn frontmatter_date(t: Timestamp) -> Seq<char> {
    four_digits(t.year as int) + seq!['-'] + two_digits(t.month as int) + seq!['-'] + two_digits(
        t.day as int,
    ) + seq![' '] + two_digits(t.hour as int) + seq![':'] + two_digits(t.minute as int)
}

fn digit(d: u8) -> (r: char)
    requires
        d <= 9,
    ensures
        r == digit_char(d as int),
{
    match d {
        0 => '0',
        1 => '1',
        2 => '2',
        3 => '3',
        4 => '4',
        5 => '5',
        6 => '6',
        7 => '7',
        8 => '8',
        _ => '9',
    }
}

fn push_two_digits(s: &mut String, n: u8)
    requires
        n <= 99,
    ensures
        final(s)@ == old(s)@ + two_digits(n as int),
{
    push_char(s, digit(n / 10));
    push_char(s, digit(n % 10));
    assert(s@ =~= old(s)@ + two_digits(n as int));
}

fn push_four_digits(s: &mut String, n: u16)
    requires
        n <= 9999,
    ensures
        final(s)@ == old(s)@ + four_digits(n as int),
{
    push_char(s, digit((n / 1000) as u8));
    push_char(s, digit(((n / 100) % 10) as u8));
    push_char(s, digit(((n / 10) % 10) as u8));
    push_char(s, digit((n % 10) as u8));
    assert(s@ =~= old(s)@ + four_digits(n as int));
}

/// Renders `t` as `YYYY-MM-DD-HH-MM`.
pub fn format_filename_date(t: &Timestamp) -> (r: String)
    requires
        t.wf(),
    ensures
        r@ == filename_date(*t),
{
    let mut s = String::new();
    push_four_digits(&mut s, t.year);
    push_char(&mut s, '-');
    push_two_digits(&mut s, t.month);
    push_char(&mut s, '-');
    push_two_digits(&mut s, t.day);
    push_char(&mut s, '-');
    push_two_digits(&mut s, t.hour);
    push_char(&mut s, '-');
    push_two_digits(&mut s, t.minute);
    assert(s@ =~= filename_date(*t));
    s
}

/// Renders `t` as `YYYY-MM-DD HH:MM`.
pub fn format_frontmatter_date(t: &Timestamp) -> (r: String)
    requires
        t.wf(),
    ensures
        r@ == frontmatter_date(*t),
{
    let mut s = String::new();
    push_four_digits(&mut s, t.year);
    push_char(&mut s, '-');
    push_two_digits(&mut s, t.month);
    push_char(&mut s, '-');
    push_two_digits(&mut s, t.day);
    push_char(&mut s, ' ');
    push_two_digits(&mut s, t.hour);
    push_char(&mut s, ':');
    push_two_digits(&mut s, t.minute);
    assert(s@ =~= frontmatter_date(*t));
    s
}

/// Relies on `chrono::Utc::now` and chrono's `Datelike`/`Timelike`
/// accessors: of the current UTC time, the month is in 1..=12, the day in
/// 1..=31, the hour at most 23 and the minute at most 59; the year is
/// whatever the clock reports.
#[verifier::external_body]
fn utc_now_parts() -> (r: (i64, u8, u8, u8, u8))
    ensures
        1 <= r.1 <= 12,
        1 <= r.2 <= 31,
        r.3 <= 23,
        r.4 <= 59,
{
    let now = Utc::now();
    (now.year() as i64, now.month() as u8, now.day() as u8, now.hour() as u8, now.minute() as u8)
}

/// Reads the current UTC time. Returns `None` only when the process clock
/// reports a year outside the four-digit range.
pub fn current_timestamp() -> (r: Option<Timestamp>)
    ensures
        r matches Some(t) ==> t.wf(),
{
    let (year, month, day, hour, minute) = utc_now_parts();
    if 1000 <= year && year <= 9999 {
        Timestamp::new(year as u16, month, day, hour, minute)
    } else {
        None
    }
}

} // verus!
