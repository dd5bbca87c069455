//! What a written date tells.

use crate::time::{
    admin_date, days_in_month, digits, month_name, visitor_date, year_text, Civil,
    Timestamp,
};
use vstd::prelude::*;

verus! {

/// The number that decimal digits stand for.
pub open spec fn value_of(s: Seq<char>) -> int
    decreases s.len(),
{
    if s.len() == 0 {
        0
    } else {
        10 * value_of(s.drop_last()) + (s.last() as int - 48)
    }
}

/// Whether a text is nothing but decimal digits, and stands for this number.
pub open spec fn reads_as(s: Seq<char>, n: int) -> bool {
    &&& forall|i: int| 0 <= i < s.len() ==> '0' <= #[trigger] s[i] <= '9'
    &&& value_of(s) == n
}

/// Whether a text is this year: four digits, or as many as it takes, with a sign
/// where the year is not one of 0 to 9999.
pub open spec fn reads_as_year(s: Seq<char>, year: int) -> bool {
    if 0 <= year <= 9999 {
        s.len() == 4 && reads_as(s, year)
    } else {
        let rest = s.skip(1);
        &&& s.len() >= 5
        &&& s[0] == if year < 0 {
            '-'
        } else {
            '+'
        }
        &&& reads_as(
            rest,
            if year < 0 {
                -year
            } else {
                year
            },
        )
        &&& rest.len() > 4 ==> rest[0] != '0'
    }
}

spec fn power_of_ten(w: nat) -> nat
    decreases w,
{
    if w == 0 {
        1
    } else {
        10 * power_of_ten((w - 1) as nat)
    }
}

proof fn lemma_digits(n: nat, w: nat)
    requires
        n < power_of_ten(w),
    ensures
        digits(n, w).len() == w,
        reads_as(digits(n, w), n as int),
    decreases w,
{
    if w > 0 {
        let m = (w - 1) as nat;
        assert(power_of_ten(w) == 10 * power_of_ten(m));
        lemma_digits(n / 10, m);
        let rest = digits(n / 10, m);
        let last = (48 + n % 10) as char;
        let s = rest.push(last);
        assert(s.drop_last() =~= rest);
        assert(last as int == 48 + n % 10);
        assert(value_of(s) == 10 * (n / 10) + n % 10);
        assert forall|i: int| 0 <= i < s.len() implies '0' <= #[trigger] s[i] <= '9' by {
            if i < rest.len() {
                assert(s[i] == rest[i]);
            }
        }
    }
}

proof fn lemma_first_digit(n: nat, w: nat)
    requires
        w > 0,
        power_of_ten((w - 1) as nat) <= n < power_of_ten(w),
    ensures
        digits(n, w)[0] != '0',
    decreases w,
{
    let m = (w - 1) as nat;
    let rest = digits(n / 10, m);
    let last = (48 + n % 10) as char;
    if w == 1 {
        assert(power_of_ten(0) == 1 && power_of_ten(1) == 10);
        assert(rest =~= Seq::<char>::empty());
        assert(digits(n, w)[0] == last);
    } else {
        assert(power_of_ten(w) == 10 * power_of_ten(m));
        assert(power_of_ten(m) == 10 * power_of_ten((m - 1) as nat));
        lemma_first_digit(n / 10, m);
        lemma_digits(n / 10, m);
        assert(digits(n, w)[0] == rest[0]);
    }
}

proof fn lemma_powers()
    ensures
        power_of_ten(2) == 100,
        power_of_ten(4) == 10000,
        power_of_ten(5) == 100000,
        power_of_ten(6) == 1000000,
{
    assert(power_of_ten(0) == 1);
    assert(power_of_ten(1) == 10);
    assert(power_of_ten(2) == 100);
    assert(power_of_ten(3) == 1000);
    assert(power_of_ten(4) == 10000);
    assert(power_of_ten(5) == 100000);
    assert(power_of_ten(6) == 1000000);
}

proof fn lemma_year(year: int)
    requires
        -262143 <= year <= 262142,
    ensures
        reads_as_year(year_text(year), year),
{
    lemma_powers();
    let size = (if year < 0 {
        -year
    } else {
        year
    }) as nat;
    let text = year_text(year);
    let width: nat = if size <= 9999 {
        4
    } else if size <= 99999 {
        5
    } else {
        6
    };
    lemma_digits(size, width);
    if width > 4 {
        lemma_first_digit(size, width);
    }
    if 0 <= year <= 9999 {
        assert(text =~= digits(size, 4));
    } else {
        assert(text.skip(1) =~= digits(size, width));
    }
}

proof fn lemma_pair(n: nat)
    requires
        n < 100,
    ensures
        digits(n, 2).len() == 2,
        reads_as(digits(n, 2), n as int),
{
    lemma_powers();
    lemma_digits(n, 2);
}

/// The names of the months, one after the other.
pub open spec fn month_names() -> Seq<char> {
    "JanFebMarAprMayJunJulAugSepOctNovDec"@
}

proof fn lemma_month(month: int)
    requires
        1 <= month <= 12,
    ensures
        month_name(month) == month_names().subrange(3 * month - 3, 3 * month),
{
    reveal_strlit("JanFebMarAprMayJunJulAugSepOctNovDec");
    let s = month_names().subrange(3 * month - 3, 3 * month);
    let name = month_name(month);
    assert(name.len() == 3);
    assert(s[0] == name[0] && s[1] == name[1] && s[2] == name[2]);
    assert(s =~= name);
}

/// A date as visitors see it tells, at fixed places, the name of the month, the
/// day, the year, the hour and the minute of the moment, and nothing else of it.
pub proof fn law_visitor_dates_tell_the_moment(t: Timestamp, f: Civil, r: String)
    requires
        call_ensures(Timestamp::fields, (&t,), f),
        call_ensures(Timestamp::visitor_date, (&t,), r),
    ensures
        ({
            let s = r@;
            let n = s.len() as int;
            &&& n >= 21
            &&& s.subrange(0, 3) == month_names().subrange(3 * f.month - 3, 3 * f.month as int)
            &&& s[3] == ' '
            &&& reads_as(s.subrange(4, 6), f.day as int)
            &&& s[6] == ',' && s[7] == ' '
            &&& reads_as_year(s.subrange(8, n - 9), f.year as int)
            &&& s.subrange(n - 9, n - 5) == seq![' ', 'a', 't', ' ']
            &&& reads_as(s.subrange(n - 5, n - 3), f.hour as int)
            &&& s[n - 3] == ':'
            &&& reads_as(s.subrange(n - 2, n), f.minute as int)
        }),
{
    let s = r@;
    let n = s.len() as int;
    let month = month_name(f.month as int);
    let day = digits(f.day as nat, 2);
    let year = year_text(f.year as int);
    let hour = digits(f.hour as nat, 2);
    let minute = digits(f.minute as nat, 2);
    lemma_month(f.month as int);
    lemma_pair(f.day as nat);
    lemma_pair(f.hour as nat);
    lemma_pair(f.minute as nat);
    lemma_year(f.year as int);
    assert(month.len() == 3);
    assert(year.len() >= 4);
    assert(s == visitor_date(f));
    assert(n == 17 + year.len());
    assert(s.subrange(0, 3) =~= month);
    assert(s.subrange(4, 6) =~= day);
    assert(s.subrange(8, n - 9) =~= year);
    assert(s.subrange(n - 9, n - 5) =~= seq![' ', 'a', 't', ' ']);
    assert(s.subrange(n - 5, n - 3) =~= hour);
    assert(s.subrange(n - 2, n) =~= minute);
}

/// A date as the administrator sees it tells, at fixed places, the year, the
/// month, the day, the hour and the minute of the moment, and nothing else of it.
pub proof fn law_admin_dates_tell_the_moment(t: Timestamp, f: Civil, r: String)
    requires
        call_ensures(Timestamp::fields, (&t,), f),
        call_ensures(Timestamp::admin_date, (&t,), r),
    ensures
        ({
            let s = r@;
            let n = s.len() as int;
            &&& n >= 16
            &&& reads_as_year(s.subrange(0, n - 12), f.year as int)
            &&& s[n - 12] == '-'
            &&& reads_as(s.subrange(n - 11, n - 9), f.month as int)
            &&& s[n - 9] == '-'
            &&& reads_as(s.subrange(n - 8, n - 6), f.day as int)
            &&& s[n - 6] == ' '
            &&& reads_as(s.subrange(n - 5, n - 3), f.hour as int)
            &&& s[n - 3] == ':'
            &&& reads_as(s.subrange(n - 2, n), f.minute as int)
        }),
{
    let s = r@;
    let n = s.len() as int;
    let year = year_text(f.year as int);
    let month = digits(f.month as nat, 2);
    let day = digits(f.day as nat, 2);
    let hour = digits(f.hour as nat, 2);
    let minute = digits(f.minute as nat, 2);
    lemma_pair(f.month as nat);
    lemma_pair(f.day as nat);
    lemma_pair(f.hour as nat);
    lemma_pair(f.minute as nat);
    lemma_year(f.year as int);
    assert(year.len() >= 4);
    assert(s == admin_date(f));
    assert(n == 12 + year.len());
    assert(s.subrange(0, n - 12) =~= year);
    assert(s.subrange(n - 11, n - 9) =~= month);
    assert(s.subrange(n - 8, n - 6) =~= day);
    assert(s.subrange(n - 5, n - 3) =~= hour);
    assert(s.subrange(n - 2, n) =~= minute);
}

/// The number of days in a month of the Gregorian calendar.
pub open spec fn month_has(year: int, month: int) -> int {
    let usual = seq![31int, 28, 31, 30, 31, 30, 31, 31, 30, 31, 30, 31][month - 1];
    let long_year = year % 400 == 0 || (year % 4 == 0 && year % 100 != 0);
    if month == 2 && long_year {
        usual + 1
    } else {
        usual
    }
}

/// A moment is made of fields exactly where the calendar and the clock have it,
/// and its fields are those.
pub proof fn law_moments_are_those_of_the_calendar(
    fields: Civil,
    r: Option<Timestamp>,
    found: Civil,
)
    requires
        call_ensures(Timestamp::new, (fields,), r),
        r is Some ==> call_ensures(Timestamp::fields, (&r->0,), found),
    ensures
        r is Some <==> {
            &&& -262143 <= fields.year <= 262142
            &&& 1 <= fields.month <= 12
            &&& 1 <= fields.day <= month_has(fields.year as int, fields.month as int)
            &&& fields.hour <= 23
            &&& fields.minute <= 59
            &&& fields.second <= 59
            &&& fields.nanosecond <= 1_999_999_999
        },
        r is Some ==> found == fields,
{
    if 1 <= fields.month <= 12 {
        assert(month_has(fields.year as int, fields.month as int) == days_in_month(
            fields.year as int,
            fields.month as int,
        ));
    }
}

} // verus!
