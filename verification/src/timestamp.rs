//! Reading an ISO-8601 instant as seconds since the Unix epoch.
//!
//! The accepted form is `YYYY-MM-DDThh:mm:ss`, then optionally a `.` and one
//! or more digits, then either `Z` or an offset `+hh:mm` / `-hh:mm`.
//! Fractions of a second are dropped.

use vstd::prelude::*;
use crate::text::chars_of;

verus! {

/// Whether `y` is a leap year of the Gregorian calendar.
pub open spec fn is_leap_year(y: int) -> bool {
    y % 4 == 0 && (y % 100 != 0 || y % 400 == 0)
}

/// The number of days of year `y`.
pub open spec fn days_in_year(y: int) -> int {
    if is_leap_year(y) {
        366
    } else {
        365
    }
}

/// The number of days of month `m` (1 to 12) of year `y`.
pub open spec fn days_in_month(y: int, m: int) -> int {
    if m == 2 {
        if is_leap_year(y) {
            29
        } else {
            28
        }
    } else if m == 4 || m == 6 || m == 9 || m == 11 {
        30
    } else {
        31
    }
}

/// The number of days from 1 January 1970 to 1 January of year `y`: the sum
/// of the lengths of the years in between, negative before 1970.
pub open spec fn days_to_year(y: int) -> int
    decreases
            (if y >= 1970 {
                y - 1970
            } else {
                1970 - y
            }),
{
    if y == 1970 {
        0
    } else if y > 1970 {
        days_to_year(y - 1) + days_in_year(y - 1)
    } else {
        days_to_year(y + 1) - days_in_year(y)
    }
}

/// The number of days from the start of year `y` to the start of its month `m`.
pub open spec fn days_to_month(y: int, m: int) -> int
    decreases m,
{
    if m <= 1 {
        0
    } else {
        days_to_month(y, m - 1) + days_in_month(y, m - 1)
    }
}

/// Seconds from the epoch to the given civil date and time of day in UTC.
pub open spec fn epoch_seconds(y: int, mo: int, d: int, h: int, mi: int, s: int) -> int {
    (days_to_year(y) + days_to_month(y, mo) + (d - 1)) * 86400 + h * 3600 + mi * 60 + s
}

/// Whether `c` is one of `0` to `9`.
pub open spec fn is_digit(c: char) -> bool {
    '0' <= c && c <= '9'
}

/// The value of the digit `c`.
pub open spec fn digit_value(c: char) -> int {
    c as int - '0' as int
}

/// The number written by the two digits at `at`, if both are digits.
pub open spec fn two_digits(s: Seq<char>, at: int) -> Option<int> {
    if 0 <= at && at + 2 <= s.len() && is_digit(s[at]) && is_digit(s[at + 1]) {
        Some(digit_value(s[at]) * 10 + digit_value(s[at + 1]))
    } else {
        None
    }
}

/// The number written by the four digits at `at`, if all are digits.
pub open spec fn four_digits(s: Seq<char>, at: int) -> Option<int> {
    match (two_digits(s, at), two_digits(s, at + 2)) {
        (Some(hi), Some(lo)) => Some(hi * 100 + lo),
        _ => None,
    }
}

/// Whether the six numbers name a date of the calendar and a time of day.
pub open spec fn is_civil_time(y: int, mo: int, d: int, h: int, mi: int, s: int) -> bool {
    &&& 1 <= mo <= 12
    &&& 1 <= d <= days_in_month(y, mo)
    &&& 0 <= h <= 23
    &&& 0 <= mi <= 59
    &&& 0 <= s <= 59
}

/// The date and time of day written in the first nineteen characters of `s`,
/// read as UTC, in seconds since the epoch.
pub open spec fn civil_seconds(s: Seq<char>) -> Option<int> {
    if s.len() >= 19 && s[4] == '-' && s[7] == '-' && s[10] == 'T' && s[13] == ':' && s[16]
        == ':' {
        match (
            four_digits(s, 0),
            two_digits(s, 5),
            two_digits(s, 8),
            two_digits(s, 11),
            two_digits(s, 14),
            two_digits(s, 17),
        ) {
            (Some(y), Some(mo), Some(d), Some(h), Some(mi), Some(sec)) => if is_civil_time(
                y,
                mo,
                d,
                h,
                mi,
                sec,
            ) {
                Some(epoch_seconds(y, mo, d, h, mi, sec))
            } else {
                None
            },
            _ => None,
        }
    } else {
        None
    }
}

/// The number of consecutive digits of `s` that start at `from`.
pub open spec fn digit_run(s: Seq<char>, from: int) -> int
    decreases s.len() - from,
{
    if 0 <= from < s.len() && is_digit(s[from]) {
        1 + digit_run(s, from + 1)
    } else {
        0
    }
}

/// Where the zone designator starts: right after the seconds, or after a
/// fraction if one is written. A `.` must be followed by a digit.
pub open spec fn zone_start(s: Seq<char>) -> Option<int> {
    if s.len() > 19 && s[19] == '.' {
        if digit_run(s, 20) >= 1 {
            Some(20 + digit_run(s, 20))
        } else {
            None
        }
    } else {
        Some(19)
    }
}

/// The offset from UTC, in seconds, that the zone designator `z` names.
pub open spec fn zone_offset(z: Seq<char>) -> Option<int> {
    if z.len() == 1 && z[0] == 'Z' {
        Some(0)
    } else if z.len() == 6 && (z[0] == '+' || z[0] == '-') && z[3] == ':' {
        match (two_digits(z, 1), two_digits(z, 4)) {
            (Some(h), Some(m)) => if h <= 23 && m <= 59 {
                if z[0] == '+' {
                    Some(h * 3600 + m * 60)
                } else {
                    Some(-(h * 3600 + m * 60))
                }
            } else {
                None
            },
            _ => None,
        }
    } else {
        None
    }
}

/// The instant that `s` writes, in seconds since the epoch, or `None` if `s`
/// is not of the accepted form.
pub open spec fn timestamp_of(s: Seq<char>) -> Option<int> {
    match (civil_seconds(s), zone_start(s)) {
        (Some(t), Some(p)) => match zone_offset(s.subrange(p, s.len() as int)) {
            Some(offset) => Some(t - offset),
            None => None,
        },
        _ => None,
    }
}

/// The number of leap years from year 0 up to, but not including, year `y`.
pub open spec fn leap_years_before(y: int) -> int {
    if y <= 0 {
        0
    } else {
        1 + (y - 1) / 4 - (y - 1) / 100 + (y - 1) / 400
    }
}

/// The sum of year lengths from 1970 has a closed form.
pub proof fn lemma_days_to_year(y: int)
    requires
        0 <= y,
    ensures
        days_to_year(y) == 365 * (y - 1970) + leap_years_before(y) - 478,
    decreases
            (if y >= 1970 {
                y - 1970
            } else {
                1970 - y
            }),
{
    if y == 1970 {
    } else if y > 1970 {
        lemma_days_to_year(y - 1);
    } else {
        lemma_days_to_year(y + 1);
    }
}

/// The days before a month, month by month.
pub proof fn lemma_days_to_month(y: int, m: int)
    requires
        1 <= m <= 12,
    ensures
        days_to_month(y, m) == (if m == 1 {
            0int
        } else if m == 2 {
            31
        } else {
            (if is_leap_year(y) {
                1int
            } else {
                0
            }) + (if m == 3 {
                59int
            } else if m == 4 {
                90
            } else if m == 5 {
                120
            } else if m == 6 {
                151
            } else if m == 7 {
                181
            } else if m == 8 {
                212
            } else if m == 9 {
                243
            } else if m == 10 {
                273
            } else if m == 11 {
                304
            } else {
                334
            })
        }),
    decreases m,
{
    if m > 1 {
        lemma_days_to_month(y, m - 1);
    }
}

fn leap_year(y: i64) -> (r: bool)
    requires
        0 <= y <= 9999,
    ensures
        r == is_leap_year(y as int),
{
    y % 4 == 0 && (y % 100 != 0 || y % 400 == 0)
}

fn month_length(y: i64, m: i64) -> (r: i64)
    requires
        0 <= y <= 9999,
    ensures
        r == days_in_month(y as int, m as int),
{
    if m == 2 {
        if leap_year(y) {
            29
        } else {
            28
        }
    } else if m == 4 || m == 6 || m == 9 || m == 11 {
        30
    } else {
        31
    }
}

fn month_start(y: i64, m: i64) -> (r: i64)
    requires
        0 <= y <= 9999,
        1 <= m <= 12,
    ensures
        r == days_to_month(y as int, m as int),
        0 <= r <= 335,
{
    proof {
        lemma_days_to_month(y as int, m as int);
    }
    let leap: i64 = if leap_year(y) {
        1
    } else {
        0
    };
    if m == 1 {
        0
    } else if m == 2 {
        31
    } else if m == 3 {
        59 + leap
    } else if m == 4 {
        90 + leap
    } else if m == 5 {
        120 + leap
    } else if m == 6 {
        151 + leap
    } else if m == 7 {
        181 + leap
    } else if m == 8 {
        212 + leap
    } else if m == 9 {
        243 + leap
    } else if m == 10 {
        273 + leap
    } else if m == 11 {
        304 + leap
    } else {
        334 + leap
    }
}

fn year_start(y: i64) -> (r: i64)
    requires
        0 <= y <= 9999,
    ensures
        r == days_to_year(y as int),
        -719528 <= r <= 2932532,
{
    proof {
        lemma_days_to_year(y as int);
    }
    let leaps: i64 = if y == 0 {
        0
    } else {
        1 + (y - 1) / 4 - (y - 1) / 100 + (y - 1) / 400
    };
    365 * (y - 1970) + leaps - 478
}

fn seconds_from_civil(y: i64, mo: i64, d: i64, h: i64, mi: i64, s: i64) -> (r: i64)
    requires
        0 <= y <= 9999,
        is_civil_time(y as int, mo as int, d as int, h as int, mi as int, s as int),
    ensures
        r == epoch_seconds(y as int, mo as int, d as int, h as int, mi as int, s as int),
        -62167219200 <= r < 253402387200,
{
    let days: i64 = year_start(y) + month_start(y, mo) + (d - 1);
    proof {
        lemma_days_to_month(y as int, mo as int);
    }
    days * 86400 + h * 3600 + mi * 60 + s
}

fn digit_at(s: &Vec<char>, at: usize) -> (r: Option<i64>)
    requires
        at < s.len(),
    ensures
        r is Some <==> is_digit(s@[at as int]),
        r is Some ==> r.unwrap() == digit_value(s@[at as int]),
{
    let c: char = s[at];
    if c >= '0' && c <= '9' {
        Some((c as u32 - '0' as u32) as i64)
    } else {
        None
    }
}

fn two_digits_at(s: &Vec<char>, at: usize) -> (r: Option<i64>)
    requires
        at + 2 <= s.len(),
    ensures
        r is Some <==> two_digits(s@, at as int) is Some,
        r is Some ==> r.unwrap() == two_digits(s@, at as int).unwrap() && 0 <= r.unwrap() <= 99,
{
    match (digit_at(s, at), digit_at(s, at + 1)) {
        (Some(hi), Some(lo)) => Some(hi * 10 + lo),
        _ => None,
    }
}

fn four_digits_at(s: &Vec<char>, at: usize) -> (r: Option<i64>)
    requires
        at + 4 <= s.len(),
    ensures
        r is Some <==> four_digits(s@, at as int) is Some,
        r is Some ==> r.unwrap() == four_digits(s@, at as int).unwrap() && 0 <= r.unwrap()
            <= 9999,
{
    match (two_digits_at(s, at), two_digits_at(s, at + 2)) {
        (Some(hi), Some(lo)) => Some(hi * 100 + lo),
        _ => None,
    }
}

fn civil_seconds_of(s: &Vec<char>) -> (r: Option<i64>)
    ensures
        r is Some <==> civil_seconds(s@) is Some,
        r is Some ==> r.unwrap() == civil_seconds(s@).unwrap() && -62167219200 <= r.unwrap()
            < 253402387200,
{
    if s.len() < 19 {
        return None;
    }
    if s[4] != '-' || s[7] != '-' || s[10] != 'T' || s[13] != ':' || s[16] != ':' {
        return None;
    }
    let y = four_digits_at(s, 0);
    let mo = two_digits_at(s, 5);
    let d = two_digits_at(s, 8);
    let h = two_digits_at(s, 11);
    let mi = two_digits_at(s, 14);
    let sec = two_digits_at(s, 17);
    match (y, mo, d, h, mi, sec) {
        (Some(y), Some(mo), Some(d), Some(h), Some(mi), Some(sec)) => {
            if 1 <= mo && mo <= 12 && 1 <= d && d <= month_length(y, mo) && h <= 23 && mi <= 59
                && sec <= 59 {
                Some(seconds_from_civil(y, mo, d, h, mi, sec))
            } else {
                None
            }
        },
        _ => None,
    }
}

fn zone_start_of(s: &Vec<char>) -> (r: Option<usize>)
    requires
        s.len() >= 19,
    ensures
        r is Some <==> zone_start(s@) is Some,
        r is Some ==> r.unwrap() == zone_start(s@).unwrap() && 19 <= r.unwrap() <= s.len(),
{
    if s.len() > 19 && s[19] == '.' {
        let mut p: usize = 20;
        while p < s.len() && digit_at(s, p).is_some()
            invariant
                20 <= p <= s.len(),
                digit_run(s@, 20) == (p - 20) + digit_run(s@, p as int),
            decreases s.len() - p,
        {
            p += 1;
        }
        if p > 20 {
            Some(p)
        } else {
            None
        }
    } else {
        Some(19)
    }
}

fn zone_offset_of(s: &Vec<char>, from: usize) -> (r: Option<i64>)
    requires
        from <= s.len(),
    ensures
        r is Some <==> zone_offset(s@.subrange(from as int, s.len() as int)) is Some,
        r is Some ==> r.unwrap() == zone_offset(s@.subrange(from as int, s.len() as int)).unwrap()
            && -86400 < r.unwrap() < 86400,
{
    let ghost z = s@.subrange(from as int, s.len() as int);
    let n: usize = s.len() - from;
    if n == 1 && s[from] == 'Z' {
        assert(z[0] == s@[from as int]);
        Some(0)
    } else if n == 6 && (s[from] == '+' || s[from] == '-') && s[from + 3] == ':' {
        assert(z[0] == s@[from as int]);
        assert(z[1] == s@[from + 1]);
        assert(z[2] == s@[from + 2]);
        assert(z[3] == s@[from + 3]);
        assert(z[4] == s@[from + 4]);
        assert(z[5] == s@[from + 5]);
        match (two_digits_at(s, from + 1), two_digits_at(s, from + 4)) {
            (Some(h), Some(m)) => {
                if h <= 23 && m <= 59 {
                    if s[from] == '+' {
                        Some(h * 3600 + m * 60)
                    } else {
                        Some(-(h * 3600 + m * 60))
                    }
                } else {
                    None
                }
            },
            _ => None,
        }
    } else {
        proof {
            if n >= 1 {
                assert(z[0] == s@[from as int]);
            }
            if n == 6 {
                assert(z[3] == s@[from + 3]);
            }
        }
        None
    }
}

/// Reads the instant that `text` writes, in seconds since the epoch.
pub fn parse_timestamp(text: &str) -> (r: Option<i64>)
    ensures
        r is Some <==> timestamp_of(text@) is Some,
        r is Some ==> r.unwrap() == timestamp_of(text@).unwrap(),
{
    let s = chars_of(text);
    let civil = match civil_seconds_of(&s) {
        Some(t) => t,
        None => {
            return None;
        },
    };
    let start = match zone_start_of(&s) {
        Some(p) => p,
        None => {
            return None;
        },
    };
    match zone_offset_of(&s, start) {
        Some(offset) => Some(civil - offset),
        None => None,
    }
}

} // verus!
