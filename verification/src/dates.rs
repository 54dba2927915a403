//! Calendar dates in the proleptic Gregorian calendar, years 1 through 9999.
//!
//! A [`Date`] holds a year, month and day as plain numbers. Its position in
//! the calendar is captured by [`Date::day_index`]: the number of days since
//! the first supported day. Day zero, the first of January of year 1, is a
//! Monday, so the weekday of any date is its day index modulo seven.

use vstd::prelude::*;
use crate::error::AuthError;

verus! {

/// A calendar date; [`Date::valid`] ties the fields to the calendar rules.
#[derive(Clone, Copy, Debug, PartialEq, Eq, Structural)]
pub struct Date {
    pub year: u16,
    pub month: u8,
    pub day: u8,
}

/// The Gregorian leap-year rule.
pub open spec fn is_leap_year(y: int) -> bool {
    y % 4 == 0 && (y % 100 != 0 || y % 400 == 0)
}

/// Days in a year.
pub open spec fn days_in_year(y: int) -> int {
    if is_leap_year(y) {
        366
    } else {
        365
    }
}

/// Days in a month of a year.
pub open spec fn days_in_month(y: int, m: int) -> int {
    if m == 2 {
        if is_leap_year(y) {
            29
        } else {
            28
        }
    } else if m == 4 || m == 6 || m == 9 || m == 11 {
        30
    } else {
        31
    }
}

/// Days in all supported years before `y`.
pub open spec fn days_before_year(y: int) -> int
    decreases y,
{
    if y <= 1 {
        0
    } else {
        days_before_year(y - 1) + days_in_year(y - 1)
    }
}

/// Days in all months of year `y` before month `m`.
pub open spec fn days_before_month(y: int, m: int) -> int
    decreases m,
{
    if m <= 1 {
        0
    } else {
        days_before_month(y, m - 1) + days_in_month(y, m - 1)
    }
}

/// One day past the highest supported day index.
pub open spec fn day_index_limit() -> int {
    days_before_year(10000)
}

impl Date {
    /// The calendar rules: a supported year, a real month, and a day the
    /// month has.
    pub open spec fn valid(self) -> bool {
        &&& 1 <= self.year <= 9999
        &&& 1 <= self.month <= 12
        &&& 1 <= self.day <= days_in_month(self.year as int, self.month as int)
    }

    /// Days since the first supported day; the first of January of year 1
    /// has index zero.
    pub open spec fn day_index(self) -> int {
        days_before_year(self.year as int) + days_before_month(
            self.year as int,
            self.month as int,
        ) + self.day - 1
    }

    /// The weekday as a number, zero for Monday through six for Sunday.
    pub open spec fn weekday(self) -> int {
        self.day_index() % 7
    }

    /// Whether the date falls on a Monday.
    pub open spec fn is_monday(self) -> bool {
        self.weekday() == 0
    }
}

/// Per-year day counts stay between 365 and 366, so the running count over
/// years is pinned between linear bounds.
pub proof fn lemma_days_before_year_bounds(y: int)
    requires
        1 <= y,
    ensures
        365 * (y - 1) <= days_before_year(y) <= 366 * (y - 1),
    decreases y,
{
    if y > 1 {
        lemma_days_before_year_bounds(y - 1);
    }
}

/// The running count over years grows with the year.
pub proof fn lemma_days_before_year_mono(y1: int, y2: int)
    requires
        y1 <= y2,
    ensures
        days_before_year(y1) <= days_before_year(y2),
    decreases y2 - y1,
{
    if y1 < y2 {
        lemma_days_before_year_mono(y1, y2 - 1);
        if y2 > 1 {
            assert(days_before_year(y2) == days_before_year(y2 - 1) + days_in_year(y2 - 1));
        }
    }
}

/// The running count over months grows with the month.
pub proof fn lemma_days_before_month_mono(y: int, m1: int, m2: int)
    requires
        m1 <= m2,
    ensures
        days_before_month(y, m1) <= days_before_month(y, m2),
    decreases m2 - m1,
{
    if m1 < m2 {
        lemma_days_before_month_mono(y, m1, m2 - 1);
    }
}

/// All twelve months of a year add up to exactly the year's day count.
pub proof fn lemma_months_fill_year(y: int)
    ensures
        days_before_month(y, 13) == days_in_year(y),
{
    reveal_with_fuel(days_before_month, 13);
}

/// A valid date's day index lies within the supported range.
pub proof fn lemma_day_index_in_range(d: Date)
    requires
        d.valid(),
    ensures
        0 <= d.day_index() < day_index_limit(),
{
    lemma_days_before_year_bounds(d.year as int);
    lemma_days_before_month_mono(d.year as int, 1, d.month as int);
    lemma_days_before_month_mono(d.year as int, d.month as int + 1, 13);
    lemma_months_fill_year(d.year as int);
    assert(days_before_month(d.year as int, d.month as int + 1) == days_before_month(
        d.year as int,
        d.month as int,
    ) + days_in_month(d.year as int, d.month as int));
    lemma_days_before_year_mono(d.year as int + 1, 10000);
    assert(days_before_year(d.year as int + 1) == days_before_year(d.year as int) + days_in_year(
        d.year as int,
    ));
}

/// Whether a year is a leap year.
pub fn leap_year(y: u16) -> (r: bool)
    ensures
        r == is_leap_year(y as int),
{
    y % 4 == 0 && (y % 100 != 0 || y % 400 == 0)
}

/// Days in a month of a year.
pub fn month_length(y: u16, m: u8) -> (r: u8)
    ensures
        r == days_in_month(y as int, m as int),
{
    if m == 2 {
        if leap_year(y) {
            29
        } else {
            28
        }
    } else if m == 4 || m == 6 || m == 9 || m == 11 {
        30
    } else {
        31
    }
}

/// Days in all supported years before `y`.
fn days_before_year_exec(y: u32) -> (r: u32)
    requires
        y <= 10000,
    ensures
        r == days_before_year(y as int),
{
    let mut acc: u32 = 0;
    let mut i: u32 = 1;
    if y <= 1 {
        return 0;
    }
    while i < y
        invariant
            1 <= i <= y,
            y <= 10000,
            acc == days_before_year(i as int),
        decreases y - i,
    {
        proof {
            lemma_days_before_year_bounds(i as int);
        }
        let leap = i % 4 == 0 && (i % 100 != 0 || i % 400 == 0);
        acc = acc + if leap {
            366
        } else {
            365
        };
        i = i + 1;
    }
    acc
}

/// One day past the highest supported day index, as a number.
pub fn day_index_limit_exec() -> (r: u32)
    ensures
        r == day_index_limit(),
{
    days_before_year_exec(10000)
}

/// The day index of a valid date.
pub fn day_index_of(d: &Date) -> (r: u32)
    requires
        d.valid(),
    ensures
        r == d.day_index(),
{
    proof {
        lemma_day_index_in_range(*d);
        lemma_days_before_year_bounds(10000);
    }
    let base = days_before_year_exec(d.year as u32);
    let mut acc: u32 = 0;
    let mut m: u8 = 1;
    while m < d.month
        invariant
            d.valid(),
            1 <= m <= d.month,
            acc == days_before_month(d.year as int, m as int),
        decreases d.month - m,
    {
        proof {
            lemma_days_before_month_mono(d.year as int, 1, m as int);
            lemma_days_before_month_bound(d.year as int, m as int);
        }
        acc = acc + month_length(d.year, m) as u32;
        m = m + 1;
    }
    base + acc + (d.day - 1) as u32
}

/// The running count over months never exceeds a year's worth of days.
proof fn lemma_days_before_month_bound(y: int, m: int)
    requires
        1 <= m <= 13,
    ensures
        days_before_month(y, m) <= 366,
    decreases m,
{
    lemma_days_before_month_mono(y, m, 13);
    lemma_months_fill_year(y);
}

/// The valid date at a given day index.
pub fn date_from_index(n: u32) -> (r: Date)
    requires
        n < day_index_limit(),
    ensures
        r.valid(),
        r.day_index() == n,
{
    let mut y: u16 = 1;
    let mut acc: u32 = 0;
    loop
        invariant
            1 <= y <= 9999,
            acc == days_before_year(y as int),
            acc <= n,
            n < day_index_limit(),
        ensures
            1 <= y <= 9999,
            acc == days_before_year(y as int),
            acc <= n,
            n - acc < days_in_year(y as int),
        decreases 10000 - y,
    {
        proof {
            lemma_days_before_year_bounds(y as int);
        }
        let len: u32 = if leap_year(y) {
            366
        } else {
            365
        };
        if acc + len > n {
            break;
        }
        proof {
            assert(days_before_year(y as int + 1) == days_before_year(y as int) + days_in_year(
                y as int,
            ));
            if y == 9999 {
                assert(days_before_year(10000) <= n);
                assert(false);
            }
        }
        acc = acc + len;
        y = y + 1;
    }
    let rem: u32 = n - acc;
    let mut m: u8 = 1;
    let mut macc: u32 = 0;
    loop
        invariant
            1 <= m <= 12,
            macc == days_before_month(y as int, m as int),
            macc <= rem,
            rem < days_in_year(y as int),
        ensures
            1 <= m <= 12,
            macc == days_before_month(y as int, m as int),
            macc <= rem,
            rem - macc < days_in_month(y as int, m as int),
        decreases 13 - m,
    {
        proof {
            lemma_days_before_month_bound(y as int, m as int);
        }
        let len: u32 = month_length(y, m) as u32;
        if macc + len > rem {
            break;
        }
        proof {
            assert(days_before_month(y as int, m as int + 1) == days_before_month(
                y as int,
                m as int,
            ) + days_in_month(y as int, m as int));
            if m == 12 {
                lemma_months_fill_year(y as int);
                assert(days_in_year(y as int) <= rem);
                assert(false);
            }
        }
        macc = macc + len;
        m = m + 1;
    }
    let day: u8 = ((rem - macc) + 1) as u8;
    Date { year: y, month: m, day }
}

/// The date a signed number of days away, or `None` when the result would
/// leave the supported range.
pub fn add_days(d: &Date, delta: i64) -> (r: Option<Date>)
    requires
        d.valid(),
    ensures
        r is Some <==> 0 <= d.day_index() + delta < day_index_limit(),
        r is Some ==> (r->0.valid() && r->0.day_index() == d.day_index() + delta),
{
    proof {
        lemma_day_index_in_range(*d);
    }
    let idx = day_index_of(d);
    let limit = day_index_limit_exec();
    let target: i128 = idx as i128 + delta as i128;
    if target < 0 || target >= limit as i128 {
        None
    } else {
        Some(date_from_index(target as u32))
    }
}

/// How many days lie from `a` to `b`; negative when `b` is earlier.
pub fn days_between(a: &Date, b: &Date) -> (r: i64)
    requires
        a.valid(),
        b.valid(),
    ensures
        r == b.day_index() - a.day_index(),
{
    proof {
        lemma_day_index_in_range(*a);
        lemma_day_index_in_range(*b);
    }
    day_index_of(b) as i64 - day_index_of(a) as i64
}

/// The weekday of a valid date, zero for Monday through six for Sunday.
pub fn weekday_of(d: &Date) -> (r: u8)
    requires
        d.valid(),
    ensures
        r == d.weekday(),
{
    proof {
        lemma_day_index_in_range(*d);
    }
    (day_index_of(d) % 7) as u8
}

/// Whether a character is a decimal digit.
pub open spec fn is_digit(c: char) -> bool {
    48 <= c as int <= 57
}

/// The value of a digit character.
pub open spec fn digit_val(c: char) -> int {
    c as int - 48
}

/// Whether a character sequence has the shape of an ISO date: ten
/// characters, digits in the year, month and day positions, dashes between.
pub open spec fn date_str_shape(s: Seq<char>) -> bool {
    &&& s.len() == 10
    &&& is_digit(s[0])
    &&& is_digit(s[1])
    &&& is_digit(s[2])
    &&& is_digit(s[3])
    &&& s[4] as int == 45
    &&& is_digit(s[5])
    &&& is_digit(s[6])
    &&& s[7] as int == 45
    &&& is_digit(s[8])
    &&& is_digit(s[9])
}

/// The date a well-shaped character sequence spells.
pub open spec fn date_of_str(s: Seq<char>) -> Date {
    Date {
        year: (digit_val(s[0]) * 1000 + digit_val(s[1]) * 100 + digit_val(s[2]) * 10 + digit_val(
            s[3],
        )) as u16,
        month: (digit_val(s[5]) * 10 + digit_val(s[6])) as u8,
        day: (digit_val(s[8]) * 10 + digit_val(s[9])) as u8,
    }
}

/// Whether a character sequence spells a valid ISO date.
pub open spec fn valid_date_str(s: Seq<char>) -> bool {
    date_str_shape(s) && date_of_str(s).valid()
}

/// Reads one digit of a string.
fn read_digit(s: &str, i: usize) -> (r: Option<u32>)
    requires
        i < s@.len(),
    ensures
        r is Some <==> is_digit(s@[i as int]),
        r is Some ==> r->0 == digit_val(s@[i as int]),
{
    let c = s.get_char(i);
    let v = c as u32;
    if 48 <= v && v <= 57 {
        Some(v - 48)
    } else {
        None
    }
}

/// Parses an ISO `YYYY-MM-DD` date string; anything that does not spell a
/// valid date of the supported range fails fast with a validation error.
pub fn parse_date(s: &str) -> (r: Result<Date, AuthError>)
    ensures
        r is Ok <==> valid_date_str(s@),
        r is Ok ==> r->Ok_0 == date_of_str(s@),
        r is Err ==> r->Err_0 is ValidationError,
{
    if s.unicode_len() != 10 {
        return Err(AuthError::ValidationError);
    }
    let d0 = match read_digit(s, 0) {
        Some(v) => v,
        None => {
            return Err(AuthError::ValidationError);
        },
    };
    let d1 = match read_digit(s, 1) {
        Some(v) => v,
        None => {
            return Err(AuthError::ValidationError);
        },
    };
    let d2 = match read_digit(s, 2) {
        Some(v) => v,
        None => {
            return Err(AuthError::ValidationError);
        },
    };
    let d3 = match read_digit(s, 3) {
        Some(v) => v,
        None => {
            return Err(AuthError::ValidationError);
        },
    };
    if s.get_char(4) as u32 != 45 {
        return Err(AuthError::ValidationError);
    }
    let d5 = match read_digit(s, 5) {
        Some(v) => v,
        None => {
            return Err(AuthError::ValidationError);
        },
    };
    let d6 = match read_digit(s, 6) {
        Some(v) => v,
        None => {
            return Err(AuthError::ValidationError);
        },
    };
    if s.get_char(7) as u32 != 45 {
        return Err(AuthError::ValidationError);
    }
    let d8 = match read_digit(s, 8) {
        Some(v) => v,
        None => {
            return Err(AuthError::ValidationError);
        },
    };
    let d9 = match read_digit(s, 9) {
        Some(v) => v,
        None => {
            return Err(AuthError::ValidationError);
        },
    };
    let year_n: u32 = d0 * 1000 + d1 * 100 + d2 * 10 + d3;
    let month_n: u32 = d5 * 10 + d6;
    let day_n: u32 = d8 * 10 + d9;
    let d = Date { year: year_n as u16, month: month_n as u8, day: day_n as u8 };
    if year_n < 1 || month_n < 1 || month_n > 12 {
        return Err(AuthError::ValidationError);
    }
    if day_n < 1 || day_n > month_length(d.year, d.month) as u32 {
        return Err(AuthError::ValidationError);
    }
    Ok(d)
}

} // verus!
