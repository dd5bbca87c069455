//! The creation time of a comment, and the two ways it is written.

use chrono::{Datelike, Timelike};
use vstd::prelude::*;

verus! {

/// A civil date and time of day.
#[derive(Clone, Copy, Debug, PartialEq, Eq)]
pub struct Civil {
    pub year: i32,
    pub month: u32,
    pub day: u32,
    pub hour: u32,
    pub minute: u32,
    pub second: u32,
    pub nanosecond: u32,
}

/// Whether `year` is a leap year of the proleptic Gregorian calendar.
pub open spec fn leap_year(year: int) -> bool {
    year % 4 == 0 && (year % 100 != 0 || year % 400 == 0)
}

/// The number of days in a month; 0 where there is no such month.
pub open spec fn days_in_month(year: int, month: int) -> int {
    if month == 2 {
        if leap_year(year) {
            29
        } else {
            28
        }
    } else if month == 4 || month == 6 || month == 9 || month == 11 {
        30
    } else if 1 <= month <= 12 {
        31
    } else {
        0
    }
}

impl Civil {
    /// Whether the fields name a moment that exists. A nanosecond count of a
    /// second or more stands for a leap second.
    pub open spec fn valid(self) -> bool {
        &&& -262143 <= self.year <= 262142
        &&& 1 <= self.month <= 12
        &&& 1 <= self.day <= days_in_month(self.year as int, self.month as int)
        &&& self.hour < 24
        &&& self.minute < 60
        &&& self.second < 60
        &&& self.nanosecond < 2_000_000_000
    }

    /// Whether this moment lies before another.
    pub open spec fn before(self, other: Civil) -> bool {
        if self.year != other.year {
            self.year < other.year
        } else if self.month != other.month {
            self.month < other.month
        } else if self.day != other.day {
            self.day < other.day
        } else if self.hour != other.hour {
            self.hour < other.hour
        } else if self.minute != other.minute {
            self.minute < other.minute
        } else if self.second != other.second {
            self.second < other.second
        } else {
            self.nanosecond < other.nanosecond
        }
    }
}

/// A moment in UTC. Only moments that exist can be held.
#[derive(Clone, Copy, Debug, PartialEq, Eq)]
pub struct Timestamp {
    fields: Civil,
}

impl View for Timestamp {
    type V = Civil;

    closed spec fn view(&self) -> Civil {
        self.fields
    }
}

/// Whether `year` is a leap year.
fn is_leap_year(year: i32) -> (r: bool)
    requires
        -262143 <= year <= 262142,
    ensures
        r == leap_year(year as int),
{
    // Leap years repeat every 400 years; 656 such spans make any year positive.
    let y: u32 = (year + 262400) as u32;
    y % 4 == 0 && (y % 100 != 0 || y % 400 == 0)
}

/// The number of days in a month; 0 where there is no such month.
fn month_length(year: i32, month: u32) -> (r: u32)
    requires
        -262143 <= year <= 262142,
    ensures
        r == days_in_month(year as int, month as int),
{
    if month == 2 {
        if is_leap_year(year) {
            29
        } else {
            28
        }
    } else if month == 4 || month == 6 || month == 9 || month == 11 {
        30
    } else if 1 <= month && month <= 12 {
        31
    } else {
        0
    }
}

impl Timestamp {
    #[verifier::type_invariant]
    spec fn exists_in_calendar(&self) -> bool {
        self@.valid()
    }

    /// The moment with these fields, if there is one.
    pub fn new(fields: Civil) -> (r: Option<Timestamp>)
        ensures
            r is Some <==> fields.valid(),
            r is Some ==> r->0@ == fields,
    {
        if -262143 <= fields.year && fields.year <= 262142 && 1 <= fields.month && fields.month
            <= 12 && 1 <= fields.day && fields.day <= month_length(fields.year, fields.month)
            && fields.hour < 24 && fields.minute < 60 && fields.second < 60 && fields.nanosecond
            < 2_000_000_000 {
            Some(Timestamp { fields })
        } else {
            None
        }
    }

    /// The fields of the moment.
    pub fn fields(&self) -> (r: Civil)
        ensures
            r == self@,
            r.valid(),
    {
        proof {
            use_type_invariant(self);
        }
        self.fields
    }

    /// The present moment, as the system clock shows it.
    pub fn now() -> (r: Timestamp)
        ensures
            r@.valid(),
            r@.year >= 1970,
    {
        Timestamp { fields: clock_fields() }
    }
}

/// The moment that the system clock shows, from `chrono::Utc::now` and
/// `DateTime::naive_utc`, taken apart by `Datelike` and `Timelike`.
///
/// Trusted: whatever the clock shows, the fields are those of a moment that
/// exists, in 1970 or later: `chrono` stops the program where the clock stands
/// before that. Which moment it is depends on the machine and is not said.
#[verifier::external_body]
fn clock_fields() -> (r: Civil)
    ensures
        r.valid(),
        r.year >= 1970,
{
    let t = chrono::Utc::now().naive_utc();
    Civil {
        year: t.year(),
        month: t.month(),
        day: t.day(),
        hour: t.hour(),
        minute: t.minute(),
        second: t.second(),
        nanosecond: t.nanosecond(),
    }
}

/// The last `width` decimal digits of `n`.
pub open spec fn digits(n: nat, width: nat) -> Seq<char>
    decreases width,
{
    if width == 0 {
        Seq::empty()
    } else {
        digits(n / 10, (width - 1) as nat).push((48 + n % 10) as char)
    }
}

/// A year: four digits, or more where it has more; with a sign where it lies
/// outside of 0 to 9999.
pub open spec fn year_text(year: int) -> Seq<char> {
    let size = if year < 0 {
        -year
    } else {
        year
    };
    let sign = if 0 <= year <= 9999 {
        Seq::empty()
    } else if year < 0 {
        seq!['-']
    } else {
        seq!['+']
    };
    sign + digits(
        size as nat,
        if size <= 9999 {
            4
        } else if size <= 99999 {
            5
        } else {
            6
        },
    )
}

/// The three-letter English name of a month.
pub open spec fn month_name(month: int) -> Seq<char> {
    if month == 1 {
        seq!['J', 'a', 'n']
    } else if month == 2 {
        seq!['F', 'e', 'b']
    } else if month == 3 {
        seq!['M', 'a', 'r']
    } else if month == 4 {
        seq!['A', 'p', 'r']
    } else if month == 5 {
        seq!['M', 'a', 'y']
    } else if month == 6 {
        seq!['J', 'u', 'n']
    } else if month == 7 {
        seq!['J', 'u', 'l']
    } else if month == 8 {
        seq!['A', 'u', 'g']
    } else if month == 9 {
        seq!['S', 'e', 'p']
    } else if month == 10 {
        seq!['O', 'c', 't']
    } else if month == 11 {
        seq!['N', 'o', 'v']
    } else {
        seq!['D', 'e', 'c']
    }
}

/// What `%` and `letter` stand for in a date pattern, for the
/// six that are used here.
pub open spec fn date_field(t: Civil, letter: char) -> Option<Seq<char>> {
    if letter == 'Y' {
        Some(year_text(t.year as int))
    } else if letter == 'm' {
        Some(digits(t.month as nat, 2))
    } else if letter == 'd' {
        Some(digits(t.day as nat, 2))
    } else if letter == 'H' {
        Some(digits(t.hour as nat, 2))
    } else if letter == 'M' {
        Some(digits(t.minute as nat, 2))
    } else if letter == 'b' {
        Some(month_name(t.month as int))
    } else {
        None
    }
}

/// `t` written by a date pattern: `%` and a letter give a field of `t`, any
/// other character stands for itself. `None` where the pattern holds a field
/// that is not among the six.
pub open spec fn formatted(t: Civil, pattern: Seq<char>) -> Option<Seq<char>>
    decreases pattern.len(),
{
    if pattern.len() == 0 {
        Some(Seq::empty())
    } else if pattern[0] != '%' {
        match formatted(t, pattern.skip(1)) {
            Some(rest) => Some(seq![pattern[0]] + rest),
            None => None,
        }
    } else if pattern.len() == 1 {
        None
    } else {
        match (date_field(t, pattern[1]), formatted(t, pattern.skip(2))) {
            (Some(field), Some(rest)) => Some(field + rest),
            _ => None,
        }
    }
}

/// The text that `chrono::NaiveDateTime::format` gives for a pattern, on the
/// value made by `NaiveDate::from_ymd_opt`, `NaiveDate::and_hms_opt` and
/// `Timelike::with_nanosecond`.
///
/// Trusted: for fields that name a moment in `chrono`'s range and a pattern of
/// plain characters and the fields `%Y`, `%m`, `%d`, `%H`, `%M` and `%b`, the
/// text is the one that [`formatted`] says.
#[verifier::external_body]
fn format_fields(t: Civil, pattern: &str) -> (r: String)
    requires
        t.valid(),
        formatted(t, pattern@) is Some,
    ensures
        Some(r@) == formatted(t, pattern@),
{
    chrono::NaiveDate::from_ymd_opt(t.year, t.month, t.day)
        .unwrap()
        .and_hms_opt(t.hour, t.minute, t.second)
        .unwrap()
        .with_nanosecond(t.nanosecond)
        .unwrap()
        .format(pattern)
        .to_string()
}

/// How a visitor sees the time of a comment, such as `Mar 05, 2024 at 14:07`.
pub open spec fn visitor_date(t: Civil) -> Seq<char> {
    month_name(t.month as int) + seq![' '] + digits(t.day as nat, 2) + seq![',', ' '] + year_text(
        t.year as int,
    ) + seq![' ', 'a', 't', ' '] + digits(t.hour as nat, 2) + seq![':'] + digits(
        t.minute as nat,
        2,
    )
}

/// How the administrator sees the time of a comment, such as
/// `2024-03-05 14:07`.
pub open spec fn admin_date(t: Civil) -> Seq<char> {
    year_text(t.year as int) + seq!['-'] + digits(t.month as nat, 2) + seq!['-'] + digits(
        t.day as nat,
        2,
    ) + seq![' '] + digits(t.hour as nat, 2) + seq![':'] + digits(t.minute as nat, 2)
}

/// Reads a plain character of the pattern.
proof fn lemma_plain(t: Civil, p: Seq<char>, i: int)
    requires
        0 <= i < p.len(),
        p[i] != '%',
        formatted(t, p.skip(i + 1)) is Some,
    ensures
        formatted(t, p.skip(i)) == Some(seq![p[i]] + formatted(t, p.skip(i + 1))->0),
{
    assert(p.skip(i).skip(1) == p.skip(i + 1));
}

/// Reads a field of the pattern.
proof fn lemma_field(t: Civil, p: Seq<char>, i: int)
    requires
        0 <= i < p.len() - 1,
        p[i] == '%',
        date_field(t, p[i + 1]) is Some,
        formatted(t, p.skip(i + 2)) is Some,
    ensures
        formatted(t, p.skip(i)) == Some(date_field(t, p[i + 1])->0 + formatted(t, p.skip(i + 2))->0),
{
    assert(p.skip(i).skip(2) == p.skip(i + 2));
}

proof fn lemma_visitor_pattern(t: Civil)
    ensures
        formatted(t, "%b %d, %Y at %H:%M"@) == Some(visitor_date(t)),
{
    reveal_strlit("%b %d, %Y at %H:%M");
    let p = "%b %d, %Y at %H:%M"@;
    assert(p.skip(0) == p);
    lemma_field(t, p, 16);
    lemma_plain(t, p, 15);
    lemma_field(t, p, 13);
    lemma_plain(t, p, 12);
    lemma_plain(t, p, 11);
    lemma_plain(t, p, 10);
    lemma_plain(t, p, 9);
    lemma_field(t, p, 7);
    lemma_plain(t, p, 6);
    lemma_plain(t, p, 5);
    lemma_field(t, p, 3);
    lemma_plain(t, p, 2);
    lemma_field(t, p, 0);
    assert(formatted(t, p)->0 == visitor_date(t));
}

proof fn lemma_admin_pattern(t: Civil)
    ensures
        formatted(t, "%Y-%m-%d %H:%M"@) == Some(admin_date(t)),
{
    reveal_strlit("%Y-%m-%d %H:%M");
    let p = "%Y-%m-%d %H:%M"@;
    assert(p.skip(0) == p);
    lemma_field(t, p, 12);
    lemma_plain(t, p, 11);
    lemma_field(t, p, 9);
    lemma_plain(t, p, 8);
    lemma_field(t, p, 6);
    lemma_plain(t, p, 5);
    lemma_field(t, p, 3);
    lemma_plain(t, p, 2);
    lemma_field(t, p, 0);
    assert(formatted(t, p)->0 == admin_date(t));
}

impl Timestamp {
    /// The time as a visitor sees it.
    pub fn visitor_date(&self) -> (r: String)
        ensures
            r@ == visitor_date(self@),
    {
        proof {
            lemma_visitor_pattern(self@);
        }
        format_fields(self.fields(), "%b %d, %Y at %H:%M")
    }

    /// The time as the administrator sees it.
    pub fn admin_date(&self) -> (r: String)
        ensures
            r@ == admin_date(self@),
    {
        proof {
            lemma_admin_pattern(self@);
        }
        format_fields(self.fields(), "%Y-%m-%d %H:%M")
    }
}

} // verus!
