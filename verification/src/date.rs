//! Date keys: the grammar `YYYY-M-D` of a digest's identifier, and its label
//! for readers.

use crate::numeral::{
    all_digits, decimal, digits_value, is_digit, parse_unsigned, push_decimal, read_unsigned,
    unsigned_body,
};
use crate::text::{
    chars_of, lemma_split_charset, lemma_split_last_part, lemma_split_single, parts_models,
    split_chars, split_on,
};
use vstd::prelude::*;
use vstd::string::*;

verus! {

/// The character between the fields of a date key.
pub const SEPARATOR: char = '-';

/// The largest number that a month or day field may spell.
pub const FIELD_MAX: u32 = 255;

/// A year field: exactly four digits.
pub open spec fn year_field(s: Seq<char>) -> bool {
    s.len() == 4 && all_digits(s)
}

/// A month field: a number from 1 to 12.
pub open spec fn month_field(s: Seq<char>) -> bool {
    parse_unsigned(s, FIELD_MAX as int) matches Some(m) && 1 <= m <= 12
}

/// A day field: a number from 1 to 31. The month is not consulted.
pub open spec fn day_field(s: Seq<char>) -> bool {
    parse_unsigned(s, FIELD_MAX as int) matches Some(d) && 1 <= d <= 31
}

/// Whether `s` is a date key: three fields between two separators, a year,
/// a month and a day.
pub open spec fn valid_date(s: Seq<char>) -> bool {
    let parts = split_on(s, SEPARATOR);
    &&& parts.len() == 3
    &&& year_field(parts[0])
    &&& month_field(parts[1])
    &&& day_field(parts[2])
}

/// Year, month and day of a date key.
pub open spec fn date_fields(s: Seq<char>) -> (int, int, int) {
    let parts = split_on(s, SEPARATOR);
    (
        digits_value(parts[0]),
        digits_value(unsigned_body(parts[1])),
        digits_value(unsigned_body(parts[2])),
    )
}

/// `a` divided by a positive `b`, rounded toward zero.
pub open spec fn quotient(a: int, b: int) -> int {
    if a >= 0 {
        a / b
    } else {
        -((-a) / b)
    }
}

/// What is left of `a` after `quotient(a, b)` times `b`. It has the sign of `a`.
pub open spec fn remainder(a: int, b: int) -> int {
    a - b * quotient(a, b)
}

/// Zeller's congruence for the Gregorian calendar: 0 for a Saturday, 1 for a
/// Sunday and so on, counted with the sign of the sum it is taken from.
/// January and February count as months 13 and 14 of the year before.
pub open spec fn zeller(year: int, month: int, day: int) -> int {
    let y = if month < 3 {
        year - 1
    } else {
        year
    };
    let m = if month < 3 {
        month + 12
    } else {
        month
    };
    let k = remainder(y, 100);
    let j = quotient(y, 100);
    remainder(day + quotient(13 * (m + 1), 5) + k + quotient(k, 4) + quotient(j, 4) - 2 * j, 7)
}

/// The day of the week of a date, from 0 for Sunday to 6 for Saturday.
pub open spec fn weekday(year: int, month: int, day: int) -> int {
    (zeller(year, month, day) + 6) % 7
}

/// The English name of a day of the week.
pub open spec fn weekday_name(w: int) -> Seq<char> {
    if w == 0 {
        "Sunday"@
    } else if w == 1 {
        "Monday"@
    } else if w == 2 {
        "Tuesday"@
    } else if w == 3 {
        "Wednesday"@
    } else if w == 4 {
        "Thursday"@
    } else if w == 5 {
        "Friday"@
    } else {
        "Saturday"@
    }
}

/// The English name of a month; empty for a number that is no month.
pub open spec fn month_name(m: int) -> Seq<char> {
    if m == 1 {
        "January"@
    } else if m == 2 {
        "February"@
    } else if m == 3 {
        "March"@
    } else if m == 4 {
        "April"@
    } else if m == 5 {
        "May"@
    } else if m == 6 {
        "June"@
    } else if m == 7 {
        "July"@
    } else if m == 8 {
        "August"@
    } else if m == 9 {
        "September"@
    } else if m == 10 {
        "October"@
    } else if m == 11 {
        "November"@
    } else if m == 12 {
        "December"@
    } else {
        Seq::empty()
    }
}

/// The label of a date key, such as `Saturday, January 24`: weekday, month
/// and the day without padding. What is no date key is its own label.
pub open spec fn date_label(s: Seq<char>) -> Seq<char> {
    if valid_date(s) {
        let (year, month, day) = date_fields(s);
        weekday_name(weekday(year, month, day)) + ", "@ + month_name(month) + " "@ + decimal(day)
    } else {
        s
    }
}

/// Whether `s` holds exactly four digits.
fn is_year_field(s: &Vec<char>) -> (ok: bool)
    ensures
        ok == year_field(s@),
{
    if s.len() != 4 {
        return false;
    }
    let mut i: usize = 0;
    while i < 4
        invariant
            i <= 4,
            s.len() == 4,
            forall|k: int| 0 <= k < i ==> is_digit(#[trigger] s@[k]),
        decreases 4 - i,
    {
        let c = s[i];
        if !(c >= '0' && c <= '9') {
            return false;
        }
        i += 1;
    }
    true
}

/// The number that a field spells, if it lies between `low` and `high`.
fn read_field(s: &Vec<char>, low: u32, high: u32) -> (r: Option<u32>)
    ensures
        match r {
            Some(n) => parse_unsigned(s@, FIELD_MAX as int) == Some(n as int) && low <= n <= high,
            None => !(parse_unsigned(s@, FIELD_MAX as int) matches Some(n) && low <= n <= high),
        },
{
    match read_unsigned(s, FIELD_MAX) {
        Some(n) => if low <= n && n <= high {
            Some(n)
        } else {
            None
        },
        None => None,
    }
}

/// Year, month and day of `s`, if it is a date key.
pub fn read_date(s: &str) -> (r: Option<(u32, u32, u32)>)
    ensures
        r is Some <==> valid_date(s@),
        r matches Some(f) ==> date_fields(s@) == (f.0 as int, f.1 as int, f.2 as int) && f.0
            <= 9999 && 1 <= f.1 <= 12 && 1 <= f.2 <= 31,
{
    let chars = chars_of(s);
    let parts = split_chars(&chars, SEPARATOR);
    let ghost models = parts_models(parts@);
    if parts.len() != 3 {
        return None;
    }
    assert(models[0] == parts[0]@);
    assert(models[1] == parts[1]@);
    assert(models[2] == parts[2]@);
    if !is_year_field(&parts[0]) {
        return None;
    }
    let month = match read_field(&parts[1], 1, 12) {
        Some(m) => m,
        None => {
            return None;
        },
    };
    let day = match read_field(&parts[2], 1, 31) {
        Some(d) => d,
        None => {
            return None;
        },
    };
    let year = match read_unsigned(&parts[0], 9999) {
        Some(y) => y,
        None => {
            proof {
                lemma_four_digits_value(parts[0]@);
            }
            return None;
        },
    };
    Some((year, month, day))
}

/// Four digits spell a number below ten thousand.
proof fn lemma_four_digits_value(s: Seq<char>)
    requires
        year_field(s),
    ensures
        parse_unsigned(s, 9999) == Some(digits_value(s)),
        0 <= digits_value(s) <= 9999,
{
    reveal_with_fuel(digits_value, 5);
    assert(is_digit(s[0]) && is_digit(s[1]) && is_digit(s[2]) && is_digit(s[3]));
    let s3 = s.drop_last();
    let s2 = s3.drop_last();
    let s1 = s2.drop_last();
    assert(s1.drop_last().len() == 0);
}

/// Whether `s` is a date key.
pub fn is_valid_date(s: &str) -> (ok: bool)
    ensures
        ok == valid_date(s@),
{
    read_date(s).is_some()
}

/// `a` divided by `b`, rounded toward zero.
fn divide(a: i64, b: i64) -> (q: i64)
    requires
        b > 0,
        a > i64::MIN,
    ensures
        q == quotient(a as int, b as int),
{
    if a >= 0 {
        a / b
    } else {
        let q = (-a) / b;
        assert(0 <= q <= -a) by (nonlinear_arith)
            requires
                q == (-a) / (b as int),
                -a >= 0,
                b > 0,
        ;
        -q
    }
}

/// What is left of `a` after `divide(a, b)` times `b`.
fn remain(a: i64, b: i64) -> (r: i64)
    requires
        b > 0,
        a > i64::MIN,
    ensures
        r == remainder(a as int, b as int),
        -b < r < b,
{
    if a >= 0 {
        proof {
            vstd::arithmetic::div_mod::lemma_fundamental_div_mod(a as int, b as int);
            vstd::arithmetic::div_mod::lemma_mod_bound(a as int, b as int);
        }
        a % b
    } else {
        let m = (-a) % b;
        proof {
            let q = (-a) / (b as int);
            vstd::arithmetic::div_mod::lemma_fundamental_div_mod(-a as int, b as int);
            vstd::arithmetic::div_mod::lemma_mod_bound(-a as int, b as int);
            assert(b * (-q) == -(b * q)) by (nonlinear_arith);
        }
        -m
    }
}

/// The day of the week of a date, from 0 for Sunday to 6 for Saturday.
pub fn day_of_week(year: u32, month: u32, day: u32) -> (w: u8)
    ensures
        w == weekday(year as int, month as int, day as int),
        w < 7,
{
    let y: i64 = if month < 3 {
        year as i64 - 1
    } else {
        year as i64
    };
    let m: i64 = if month < 3 {
        month as i64 + 12
    } else {
        month as i64
    };
    let k = remain(y, 100);
    let j = divide(y, 100);
    assert(-1 <= j <= 42949672);
    let t = divide(13 * (m + 1), 5);
    let k4 = divide(k, 4);
    let j4 = divide(j, 4);
    assert(-1 <= j4 <= 42949672);
    let h = remain(day as i64 + t + k + k4 + j4 - 2 * j, 7);
    ((h + 6) % 7) as u8
}

/// The English name of the day of the week `w`.
fn weekday_str(w: u8) -> (name: &'static str)
    ensures
        name@ == weekday_name(w as int),
{
    match w {
        0 => "Sunday",
        1 => "Monday",
        2 => "Tuesday",
        3 => "Wednesday",
        4 => "Thursday",
        5 => "Friday",
        _ => "Saturday",
    }
}

/// The English name of the month `m`.
fn month_str(m: u32) -> (name: &'static str)
    ensures
        name@ == month_name(m as int),
{
    proof {
        reveal_strlit("");
    }
    match m {
        1 => "January",
        2 => "February",
        3 => "March",
        4 => "April",
        5 => "May",
        6 => "June",
        7 => "July",
        8 => "August",
        9 => "September",
        10 => "October",
        11 => "November",
        12 => "December",
        _ => "",
    }
}

/// The label of a date key, such as `Saturday, January 24`. A string that
/// is no date key comes back unchanged.
pub fn format_date(date_str: &str) -> (label: String)
    ensures
        label@ == date_label(date_str@),
        !valid_date(date_str@) ==> label@ == date_str@,
{
    match read_date(date_str) {
        Some((year, month, day)) => {
            let mut label = weekday_str(day_of_week(year, month, day)).to_owned();
            label.append(", ");
            label.append(month_str(month));
            label.append(" ");
            push_decimal(&mut label, day as i128);
            label
        },
        None => date_str.to_owned(),
    }
}

/// From one day of a month to the next, the day of the week moves on by one,
/// and Sunday follows Saturday.
pub proof fn lemma_weekday_advances(year: int, month: int, day: int)
    ensures
        0 <= weekday(year, month, day) < 7,
        weekday(year, month, day + 1) == (weekday(year, month, day) + 1) % 7,
{
    let y = if month < 3 {
        year - 1
    } else {
        year
    };
    let m = if month < 3 {
        month + 12
    } else {
        month
    };
    let k = remainder(y, 100);
    let j = quotient(y, 100);
    let base = quotient(13 * (m + 1), 5) + k + quotient(k, 4) + quotient(j, 4) - 2 * j;
    lemma_remainder_congruent(day + base);
    lemma_remainder_congruent(day + 1 + base);
}

/// The remainder by seven differs from the number by a multiple of seven.
proof fn lemma_remainder_congruent(a: int)
    ensures
        (remainder(a, 7) + 6) % 7 == (a + 6) % 7,
        -7 < remainder(a, 7) < 7,
{
    if a >= 0 {
        assert(remainder(a, 7) == a % 7);
    } else {
        let q = (-a) / 7;
        assert(remainder(a, 7) == a + 7 * q);
        assert(-a == 7 * q + (-a) % 7);
    }
}

/// A date key holds digits, separators and plus signs only: nothing that
/// has a meaning of its own in a path, in markup or in a query.
pub proof fn lemma_valid_date_charset(s: Seq<char>, i: int)
    requires
        valid_date(s),
        0 <= i < s.len(),
    ensures
        is_digit(s[i]) || s[i] == SEPARATOR || s[i] == '+',
{
    lemma_split_charset(s, SEPARATOR, i);
    let parts = split_on(s, SEPARATOR);
    if s[i] != SEPARATOR {
        let (p, k) = choose|p: int, k: int|
            0 <= p < parts.len() && 0 <= k < parts[p].len() && parts[p][k] == s[i];
        if p == 0 {
            assert(is_digit(parts[0][k]));
        } else if parts[p][0] == '+' && k > 0 {
            assert(is_digit(unsigned_body(parts[p])[k - 1]));
        }
    }
}

/// A string without a separator is no date key, whatever else stands
/// between its fields.
pub proof fn lemma_date_needs_separators(s: Seq<char>)
    requires
        forall|i: int| 0 <= i < s.len() ==> s[i] != SEPARATOR,
    ensures
        !valid_date(s),
{
    lemma_split_single(s, SEPARATOR);
}

/// A number written plainly: one or two digits, with or without a leading
/// zero, that spell a number from `low` to `high`.
pub open spec fn plain_number(s: Seq<char>, low: int, high: int) -> bool {
    &&& s.len() == 1 || s.len() == 2
    &&& all_digits(s)
    &&& low <= digits_value(s) <= high
}

/// Four digits, a month from 1 to 12 and a day from 1 to 31, each of the two
/// written with or without a leading zero, joined by separators, make a date
/// key.
pub proof fn lemma_plain_dates_are_valid(year: Seq<char>, month: Seq<char>, day: Seq<char>)
    requires
        year_field(year),
        plain_number(month, 1, 12),
        plain_number(day, 1, 31),
    ensures
        valid_date(year + seq![SEPARATOR] + month + seq![SEPARATOR] + day),
        date_fields(year + seq![SEPARATOR] + month + seq![SEPARATOR] + day) == (
            digits_value(year),
            digits_value(month),
            digits_value(day),
        ),
{
    assert forall|i: int| 0 <= i < year.len() implies year[i] != SEPARATOR by {}
    assert forall|i: int| 0 <= i < month.len() implies month[i] != SEPARATOR by {}
    assert forall|i: int| 0 <= i < day.len() implies day[i] != SEPARATOR by {}
    lemma_split_single(year, SEPARATOR);
    lemma_split_last_part(year, month, SEPARATOR);
    lemma_split_last_part(year + seq![SEPARATOR] + month, day, SEPARATOR);
    let parts = split_on(year + seq![SEPARATOR] + month + seq![SEPARATOR] + day, SEPARATOR);
    assert(parts =~= seq![year, month, day]);
    assert(unsigned_body(month) == month);
}

/// Whether `year` has a 29th of February in the Gregorian calendar.
pub open spec fn is_leap_year(year: int) -> bool {
    year % 4 == 0 && (year % 100 != 0 || year % 400 == 0)
}

/// The number of days of a month.
pub open spec fn days_in_month(year: int, month: int) -> int {
    if month == 2 {
        if is_leap_year(year) {
            29
        } else {
            28
        }
    } else if month == 4 || month == 6 || month == 9 || month == 11 {
        30
    } else {
        31
    }
}

/// The number of days of a year that lie before its month `month`.
pub open spec fn days_before_month(year: int, month: int) -> int
    decreases month,
{
    if month <= 1 {
        0
    } else {
        days_before_month(year, month - 1) + days_in_month(year, month - 1)
    }
}

/// The number of days between the first day of the year 1 and the first day
/// of `year`.
pub open spec fn days_before_year(year: int) -> int {
    let past = year - 1;
    365 * past + past / 4 - past / 100 + past / 400
}

/// The place of a day in the Gregorian calendar, counted from the first of
/// January of the year 1, which is day 1 and a Monday.
pub open spec fn day_number(year: int, month: int, day: int) -> int {
    days_before_year(year) + days_before_month(year, month) + day
}

/// The leap days up to and with `year`.
pub open spec fn leap_days(year: int) -> int {
    year / 4 - year / 100 + year / 400
}

/// A leap year adds one leap day, another year none.
proof fn lemma_leap_days_step(year: int)
    ensures
        leap_days(year) == leap_days(year - 1) + if is_leap_year(year) {
            1int
        } else {
            0int
        },
{
    let past = year - 1;
    assert(year / 4 - past / 4 == if year % 4 == 0 {
        1int
    } else {
        0int
    });
    assert(year / 100 - past / 100 == if year % 100 == 0 {
        1int
    } else {
        0int
    });
    assert(year / 400 - past / 400 == if year % 400 == 0 {
        1int
    } else {
        0int
    });
}

/// The number of days of a common year that lie before its month `month`.
pub open spec fn common_days_before(month: int) -> int {
    if month <= 1 {
        0
    } else if month == 2 {
        31
    } else if month == 3 {
        59
    } else if month == 4 {
        90
    } else if month == 5 {
        120
    } else if month == 6 {
        151
    } else if month == 7 {
        181
    } else if month == 8 {
        212
    } else if month == 9 {
        243
    } else if month == 10 {
        273
    } else if month == 11 {
        304
    } else {
        334
    }
}

/// The days before a month are those of a common year and, from March on in
/// a leap year, one more.
proof fn lemma_days_before_month(year: int, month: int)
    requires
        1 <= month <= 12,
    ensures
        days_before_month(year, month) == common_days_before(month) + if month > 2
            && is_leap_year(year) {
            1int
        } else {
            0int
        },
    decreases month,
{
    if month > 1 {
        lemma_days_before_month(year, month - 1);
    }
}

/// Day numbers run on across the end of a month and across the end of a
/// year.
pub proof fn lemma_day_number_runs_on(year: int, month: int)
    requires
        1 <= month <= 12,
    ensures
        month < 12 ==> day_number(year, month + 1, 1) == day_number(
            year,
            month,
            days_in_month(year, month),
        ) + 1,
        day_number(year + 1, 1, 1) == day_number(year, 12, 31) + 1,
{
    lemma_days_before_month(year, 12);
    lemma_leap_days_step(year);
    assert(days_before_year(year + 1) == 365 * year + leap_days(year));
    assert(days_before_year(year) == 365 * (year - 1) + leap_days(year - 1));
}

/// The leap days of a year from its century and its year of the century.
proof fn lemma_leap_days_by_century(y: int)
    requires
        y >= 0,
    ensures
        leap_days(y) == 24 * (y / 100) + (y % 100) / 4 + (y / 100) / 4,
{
}

/// The sum that the congruence is taken from, for a year that is not
/// negative once January and February are counted to the year before.
proof fn lemma_zeller_sum(year: int, month: int, day: int)
    requires
        1 <= month <= 12,
        year >= 1 || (year == 0 && month >= 3),
    ensures
        weekday(year, month, day) == ({
            let y = if month < 3 {
                year - 1
            } else {
                year
            };
            let m = if month < 3 {
                month + 12
            } else {
                month
            };
            (day + (13 * (m + 1)) / 5 + y + leap_days(y) - 126 * (y / 100) + 6) % 7
        }),
{
    let y = if month < 3 {
        year - 1
    } else {
        year
    };
    let m = if month < 3 {
        month + 12
    } else {
        month
    };
    let k = y % 100;
    let j = y / 100;
    let sum = day + (13 * (m + 1)) / 5 + k + k / 4 + j / 4 - 2 * j;
    lemma_remainder_congruent(sum);
    lemma_leap_days_by_century(y);
}

/// The congruence gives the day of the week of the calendar: for every
/// month from March of the year 0 on, `weekday` is the day number modulo
/// seven. (In January and February of the year 0 the congruence counts from
/// the year before, which is below zero, and is one day ahead.)
pub proof fn lemma_weekday_is_calendar_day(year: int, month: int, day: int)
    requires
        1 <= month <= 12,
        year >= 1 || (year == 0 && month >= 3),
    ensures
        weekday(year, month, day) == day_number(year, month, day) % 7,
{
    lemma_zeller_sum(year, month, day);
    lemma_leap_days_step(year);
    lemma_days_before_month(year, month);
    let y = if month < 3 {
        year - 1
    } else {
        year
    };
    let m = if month < 3 {
        month + 12
    } else {
        month
    };
    let j = y / 100;
    let sum = day + (13 * (m + 1)) / 5 + y + leap_days(y) - 126 * j + 6;
    let weeks = 52 * y + 18 * j + 4 * month - if month < 3 {
        10int
    } else {
        58int
    };
    assert(days_before_year(year) == 365 * (year - 1) + leap_days(year - 1));
    assert(day_number(year, month, day) == 7 * weeks + sum);
    vstd::arithmetic::div_mod::lemma_mod_multiples_vanish(weeks, sum, 7);
}

} // verus!
