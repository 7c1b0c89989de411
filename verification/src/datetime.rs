//! Calendar date-times as plain values, and their text forms, which chrono
//! reads and writes.

use vstd::prelude::*;
use chrono::{Datelike, Timelike};
use crate::text::{digit_char, digits};
use crate::layout::has_no;

verus! {

/// A calendar date and time of day, without a time zone.
#[derive(Clone, Copy, PartialEq, Eq, Structural, Debug)]
pub struct DateTime {
    pub year: i32,
    pub month: u32,
    pub day: u32,
    pub hour: u32,
    pub minute: u32,
    pub second: u32,
    pub nanosecond: u32,
}

/// A leap year of the proleptic Gregorian calendar.
pub open spec fn is_leap_year(y: int) -> bool {
    (y % 4 == 0 && y % 100 != 0) || y % 400 == 0
}

/// The number of days of month `m` of year `y`.
pub open spec fn days_in_month(y: int, m: int) -> int {
    if m == 2 {
        if is_leap_year(y) {
            29
        } else {
            28
        }
    } else if m == 4 || m == 6 || m == 9 || m == 11 {
        30
    } else {
        31
    }
}

impl DateTime {
    /// The date-times that chrono's `NaiveDateTime` can hold: a real calendar
    /// day in years -262143 to 262142, a time of day, and a nanosecond part
    /// that reaches into a second only during a leap second (`:59`).
    pub open spec fn wf(self) -> bool {
        &&& -262143 <= self.year <= 262142
        &&& 1 <= self.month <= 12
        &&& 1 <= self.day <= days_in_month(self.year as int, self.month as int)
        &&& self.hour < 24
        &&& self.minute < 60
        &&& self.second < 60
        &&& self.nanosecond < 2_000_000_000
        &&& (self.nanosecond >= 1_000_000_000 ==> self.second == 59)
    }
}

/// `%Y-%m-%d %H:%M:%S`, the form of date-times in note headers.
pub open spec fn full_format() -> Seq<char> {
    seq!['%', 'Y', '-', '%', 'm', '-', '%', 'd', ' ', '%', 'H', ':', '%', 'M', ':', '%', 'S']
}

/// `%Y-%m-%dT%H:%M:%S`, the other form that note headers may use.
pub open spec fn iso_format() -> Seq<char> {
    seq!['%', 'Y', '-', '%', 'm', '-', '%', 'd', 'T', '%', 'H', ':', '%', 'M', ':', '%', 'S']
}

/// `%Y-%m-%d`, a date alone.
pub open spec fn day_format() -> Seq<char> {
    seq!['%', 'Y', '-', '%', 'm', '-', '%', 'd']
}

/// What `NaiveDateTime::parse_from_str(text, format)` gives.
pub uninterp spec fn chrono_parsed(text: Seq<char>, format: Seq<char>) -> Option<DateTime>;

/// `v` in decimal, with zeros before it up to `width` digits.
pub open spec fn padded(v: nat, width: nat) -> Seq<char> {
    let d = digits(v);
    if d.len() >= width {
        d
    } else {
        Seq::new((width - d.len()) as nat, |i: int| '0') + d
    }
}

/// chrono's `%Y`: the year in four digits at least, with a sign before it
/// outside years 0 to 9999.
pub open spec fn year_text(y: int) -> Seq<char> {
    if 0 <= y <= 9999 {
        padded(y as nat, 4)
    } else if y < 0 {
        seq!['-'] + padded((-y) as nat, 4)
    } else {
        seq!['+'] + padded(y as nat, 4)
    }
}

/// `%Y-%m-%d` written for `dt`.
pub open spec fn day_text(dt: DateTime) -> Seq<char> {
    year_text(dt.year as int) + seq!['-'] + padded(dt.month as nat, 2) + seq!['-'] + padded(
        dt.day as nat,
        2,
    )
}

/// `%Y-%m-%d %H:%M:%S` written for `dt`; during a leap second the seconds
/// read 60.
pub open spec fn full_text(dt: DateTime) -> Seq<char> {
    day_text(dt) + seq![' '] + padded(dt.hour as nat, 2) + seq![':'] + padded(dt.minute as nat, 2)
        + seq![':'] + padded((dt.second + dt.nanosecond / 1_000_000_000) as nat, 2)
}

pub proof fn lemma_digits_no_nl(n: nat)
    ensures
        has_no(digits(n), '\n'),
    decreases n,
{
    if n >= 10 {
        lemma_digits_no_nl(n / 10);
        assert(digit_char((n % 10) as int) != '\n');
    } else {
        assert(digit_char(n as int) != '\n');
    }
}

proof fn lemma_padded_no_nl(v: nat, width: nat)
    ensures
        has_no(padded(v, width), '\n'),
{
    lemma_digits_no_nl(v);
}

/// A written date-time keeps to one line.
pub proof fn lemma_full_text_one_line(dt: DateTime)
    ensures
        has_no(full_text(dt), '\n'),
{
    lemma_padded_no_nl(dt.year as nat, 4);
    lemma_padded_no_nl((-dt.year) as nat, 4);
    lemma_padded_no_nl(dt.month as nat, 2);
    lemma_padded_no_nl(dt.day as nat, 2);
    lemma_padded_no_nl(dt.hour as nat, 2);
    lemma_padded_no_nl(dt.minute as nat, 2);
    lemma_padded_no_nl((dt.second + dt.nanosecond / 1_000_000_000) as nat, 2);
    assert(has_no(year_text(dt.year as int), '\n'));
    assert(has_no(day_text(dt), '\n'));
}

/// Reads `text` in the chrono `format` (`NaiveDateTime::parse_from_str`).
/// The result is named, not described: chrono's parsing rules are not
/// restated here. What is stated: a result is a date-time that chrono can
/// hold.
#[verifier::external_body]
pub fn parse_datetime(text: &str, format: &str) -> (r: Option<DateTime>)
    ensures
        r == chrono_parsed(text@, format@),
        r matches Some(d) ==> d.wf(),
{
    match chrono::NaiveDateTime::parse_from_str(text, format) {
        Ok(d) => Some(
            DateTime {
                year: d.year(),
                month: d.month(),
                day: d.day(),
                hour: d.hour(),
                minute: d.minute(),
                second: d.second(),
                nanosecond: d.nanosecond(),
            },
        ),
        Err(_) => None,
    }
}

/// Writes `dt` in one of the two formats the notes use
/// (`NaiveDateTime::format` then `to_string`). Claimed, from chrono's
/// documentation of these specifiers: `%Y` is the year in at least four
/// digits, signed outside 0 to 9999; `%m`, `%d`, `%H`, `%M` and `%S` are two
/// digits each, and `%S` reads 60 during a leap second.
#[verifier::external_body]
pub fn format_datetime(dt: &DateTime, format: &str) -> (r: String)
    requires
        dt.wf(),
        format@ == full_format() || format@ == day_format(),
    ensures
        r@ == (if format@ == full_format() {
            full_text(*dt)
        } else {
            day_text(*dt)
        }),
{
    chrono::NaiveDate::from_ymd_opt(dt.year, dt.month, dt.day)
        .unwrap()
        .and_hms_nano_opt(dt.hour, dt.minute, dt.second, dt.nanosecond)
        .unwrap()
        .format(format)
        .to_string()
}

impl DateTime {
    /// The date-time written in `%Y-%m-%d %H:%M:%S` or `%Y-%m-%d`.
    pub fn format(&self, format: &str) -> (r: String)
        requires
            self.wf(),
            format@ == full_format() || format@ == day_format(),
        ensures
            r@ == (if format@ == full_format() {
                full_text(*self)
            } else {
                day_text(*self)
            }),
    {
        format_datetime(self, format)
    }
}

} // verus!
