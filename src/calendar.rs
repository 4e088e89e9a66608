//! Unix time as a proleptic Gregorian calendar date and time of day, in UTC.
use vstd::prelude::*;
use vstd::string::*;

verus! {

/// Whether `y` is a leap year.
pub open spec fn leap(y: int) -> bool {
    (y % 4 == 0 && y % 100 != 0) || y % 400 == 0
}

/// Days in year `y`.
pub open spec fn days_in_year(y: int) -> int {
    if leap(y) {
        366
    } else {
        365
    }
}

/// Days in month `m` (1 to 12) of a year that is a leap year or not.
pub open spec fn days_in_month(m: int, is_leap: bool) -> int {
    if m == 2 {
        if is_leap {
            29
        } else {
            28
        }
    } else if m == 4 || m == 6 || m == 9 || m == 11 {
        30
    } else {
        31
    }
}

/// The year that day `days` (counted from the first day of year `y`) falls
/// in, and the day's index within that year.
pub open spec fn year_of(days: int, y: int) -> (int, int)
    decreases days,
{
    if days < days_in_year(y) || days < 0 {
        (y, days)
    } else {
        year_of(days - days_in_year(y), y + 1)
    }
}

/// The month that day `rest` (counted from the first day of month `m`) falls
/// in, and the day's index within that month.
pub open spec fn month_of(rest: int, m: int, is_leap: bool) -> (int, int)
    decreases 13 - m,
{
    if m > 12 || rest < days_in_month(m, is_leap) {
        (m, rest)
    } else {
        month_of(rest - days_in_month(m, is_leap), m + 1, is_leap)
    }
}

/// The character of decimal digit `d`.
pub open spec fn digit(d: int) -> char {
    if d == 0 {
        '0'
    } else if d == 1 {
        '1'
    } else if d == 2 {
        '2'
    } else if d == 3 {
        '3'
    } else if d == 4 {
        '4'
    } else if d == 5 {
        '5'
    } else if d == 6 {
        '6'
    } else if d == 7 {
        '7'
    } else if d == 8 {
        '8'
    } else {
        '9'
    }
}

/// `v` in decimal, padded with zeros to at least `w` digits.
pub open spec fn decimal(v: nat, w: nat) -> Seq<char>
    decreases v + w,
{
    if v < 10 && w <= 1 {
        seq![digit(v as int)]
    } else {
        decimal(v / 10, if w > 0 { (w - 1) as nat } else { 0 }) + seq![digit(v as int % 10)]
    }
}

/// `YYYY-MM-DD hh:mm:ss` for `secs` seconds after 1970-01-01 00:00:00 UTC.
pub open spec fn timestamp_text(secs: nat) -> Seq<char> {
    let (year, day_of_year) = year_of(secs as int / 86400, 1970);
    let (month, day_of_month) = month_of(day_of_year, 1, leap(year));
    let rem = secs as int % 86400;
    decimal(year as nat, 4) + "-"@ + decimal(month as nat, 2) + "-"@ + decimal(
        (day_of_month + 1) as nat,
        2,
    ) + " "@ + decimal((rem / 3600) as nat, 2) + ":"@ + decimal(((rem % 3600) / 60) as nat, 2)
        + ":"@ + decimal((rem % 60) as nat, 2)
}

/// Whether `year` is a leap year.
pub fn is_leap_year(year: u64) -> (r: bool)
    ensures
        r == leap(year as int),
{
    (year % 4 == 0 && year % 100 != 0) || (year % 400 == 0)
}

/// The text of decimal digit `d`.
fn digit_text(d: u64) -> (r: &'static str)
    requires
        d < 10,
    ensures
        r@ == seq![digit(d as int)],
{
    proof {
        reveal_strlit("0");
        reveal_strlit("1");
        reveal_strlit("2");
        reveal_strlit("3");
        reveal_strlit("4");
        reveal_strlit("5");
        reveal_strlit("6");
        reveal_strlit("7");
        reveal_strlit("8");
        reveal_strlit("9");
    }
    if d == 0 {
        "0"
    } else if d == 1 {
        "1"
    } else if d == 2 {
        "2"
    } else if d == 3 {
        "3"
    } else if d == 4 {
        "4"
    } else if d == 5 {
        "5"
    } else if d == 6 {
        "6"
    } else if d == 7 {
        "7"
    } else if d == 8 {
        "8"
    } else {
        assert(seq!['9'] =~= "9"@);
        "9"
    }
}

/// Appends `v` in decimal, padded with zeros to at least `w` digits.
fn push_decimal(out: &mut String, v: u64, w: u64)
    ensures
        final(out)@ == old(out)@ + decimal(v as nat, w as nat),
    decreases v + w,
{
    if !(v < 10 && w <= 1) {
        let next_w = if w > 0 {
            w - 1
        } else {
            0
        };
        push_decimal(out, v / 10, next_w);
    }
    out.append(digit_text(v % 10));
    proof {
        assert(final(out)@ =~= old(out)@ + decimal(v as nat, w as nat));
    }
}

/// `YYYY-MM-DD hh:mm:ss` for `unix_secs` seconds after 1970-01-01 00:00:00
/// UTC.
pub fn chrono_lite(unix_secs: u64) -> (r: String)
    ensures
        r@ == timestamp_text(unix_secs as nat),
{
    let days = unix_secs / 86400;
    let rem = unix_secs % 86400;
    let mut year: u64 = 1970;
    let mut remaining = days;
    loop
        invariant
            remaining <= days,
            days <= u64::MAX / 86400,
            year as int <= 1970 + days - remaining,
            year_of(days as int, 1970) == year_of(remaining as int, year as int),
        ensures
            year_of(days as int, 1970) == (year as int, remaining as int),
        decreases remaining,
    {
        let len: u64 = if is_leap_year(year) {
            366
        } else {
            365
        };
        if remaining < len {
            break;
        }
        remaining = remaining - len;
        year = year + 1;
    }
    let is_leap = is_leap_year(year);
    let ghost day_of_year = remaining as int;
    let mut month: u64 = 1;
    loop
        invariant
            1 <= month <= 13,
            remaining <= day_of_year,
            day_of_year <= days,
            days <= u64::MAX / 86400,
            month_of(day_of_year, 1, is_leap) == month_of(remaining as int, month as int, is_leap),
            is_leap == leap(year as int),
        ensures
            month_of(day_of_year, 1, is_leap) == (month as int, remaining as int),
        decreases 13 - month,
    {
        if month > 12 {
            break;
        }
        let len: u64 = if month == 2 {
            if is_leap {
                29
            } else {
                28
            }
        } else if month == 4 || month == 6 || month == 9 || month == 11 {
            30
        } else {
            31
        };
        if remaining < len {
            break;
        }
        remaining = remaining - len;
        month = month + 1;
    }
    let mut out = String::new();
    push_decimal(&mut out, year, 4);
    out.append("-");
    push_decimal(&mut out, month, 2);
    out.append("-");
    push_decimal(&mut out, remaining + 1, 2);
    out.append(" ");
    push_decimal(&mut out, rem / 3600, 2);
    out.append(":");
    push_decimal(&mut out, (rem % 3600) / 60, 2);
    out.append(":");
    push_decimal(&mut out, rem % 60, 2);
    proof {
        assert(days as int == unix_secs as int / 86400);
        assert(year_of(unix_secs as int / 86400, 1970) == (year as int, day_of_year));
        assert(rem as int == unix_secs as int % 86400);
        assert(out@ =~= timestamp_text(unix_secs as nat));
    }
    out
}

} // verus!
