//! Local calendar times: the `YYYY-MM-DD HH:MM` stamps that accounts carry, and the
//! reset time that a pasted `HH:MM` stands for.
use vstd::prelude::*;

use crate::text::{decimal, push_char, push_decimal, push_two_digits, two_digits};

verus! {

/// A local wall-clock time, as the application reads it from the system clock.
#[derive(Debug, Clone, Copy, PartialEq, Eq, Structural)]
pub struct LocalDateTime {
    pub year: i32,
    pub month: u32,
    pub day: u32,
    pub hour: u32,
    pub minute: u32,
    pub second: u32,
}

/// The moment at which the application acts: its local wall-clock reading together
/// with the instant as seconds and nanoseconds since the Unix epoch.
#[derive(Debug, Clone, Copy, PartialEq, Eq, Structural)]
pub struct Now {
    pub local: LocalDateTime,
    pub unix_seconds: i64,
    pub subsec_nanos: u32,
}

/// Leap years of the proleptic Gregorian calendar.
pub open spec fn is_leap_year(y: int) -> bool {
    (y % 4 == 0 && y % 100 != 0) || y % 400 == 0
}

pub open spec fn days_in_month(y: int, m: int) -> int {
    if m == 2 {
        if is_leap_year(y) {
            29
        } else {
            28
        }
    } else if m == 4 || m == 6 || m == 9 || m == 11 {
        30
    } else {
        31
    }
}

/// The smallest and largest years that the clock can report.
pub const MIN_YEAR: i32 = -262_144;

pub const MAX_YEAR: i32 = 262_143;

impl LocalDateTime {
    /// A real calendar date and a time of day.
    pub open spec fn wf(self) -> bool {
        &&& MIN_YEAR <= self.year <= MAX_YEAR
        &&& 1 <= self.month <= 12
        &&& 1 <= self.day <= days_in_month(self.year as int, self.month as int)
        &&& self.hour < 24
        &&& self.minute < 60
        &&& self.second < 60
    }

    /// Seconds since midnight.
    pub open spec fn seconds_of_day(self) -> int {
        self.hour * 3600 + self.minute * 60 + self.second
    }
}

fn leap(y: i32) -> (r: bool)
    ensures
        r == is_leap_year(y as int),
{
    (y % 4 == 0 && y % 100 != 0) || y % 400 == 0
}

fn month_length(y: i32, m: u32) -> (r: u32)
    ensures
        r == days_in_month(y as int, m as int),
{
    if m == 2 {
        if leap(y) {
            29
        } else {
            28
        }
    } else if m == 4 || m == 6 || m == 9 || m == 11 {
        30
    } else {
        31
    }
}

/// The calendar date after `(y, m, d)`, as `(year, month, day)`.
pub open spec fn next_date(y: int, m: int, d: int) -> (int, int, int) {
    if d < days_in_month(y, m) {
        (y, m, d + 1)
    } else if m < 12 {
        (y, m + 1, 1)
    } else {
        (y + 1, 1, 1)
    }
}

/// The reset moment for the clock time `hour:minute` seen at `now`: today at that
/// time if it is still ahead, else tomorrow at that time.
pub open spec fn reset_moment(now: LocalDateTime, hour: int, minute: int) -> LocalDateTime {
    let ahead = hour * 3600 + minute * 60 > now.seconds_of_day();
    let (y, m, d) = if ahead {
        (now.year as int, now.month as int, now.day as int)
    } else {
        next_date(now.year as int, now.month as int, now.day as int)
    };
    LocalDateTime {
        year: y as i32,
        month: m as u32,
        day: d as u32,
        hour: hour as u32,
        minute: minute as u32,
        second: 0,
    }
}

/// Combines today's date with the clock time `hour:minute`, moving to tomorrow when
/// that time has already passed today.
pub fn combine_reset_datetime(now: &LocalDateTime, hour: u32, minute: u32) -> (r: LocalDateTime)
    requires
        now.wf(),
        now.year < MAX_YEAR,
        hour < 24,
        minute < 60,
    ensures
        r == reset_moment(*now, hour as int, minute as int),
        r.wf(),
{
    let target = hour * 3600 + minute * 60;
    let current = now.hour * 3600 + now.minute * 60 + now.second;
    if target > current {
        LocalDateTime {
            year: now.year,
            month: now.month,
            day: now.day,
            hour,
            minute,
            second: 0,
        }
    } else {
        let len = month_length(now.year, now.month);
        if now.day < len {
            LocalDateTime {
                year: now.year,
                month: now.month,
                day: now.day + 1,
                hour,
                minute,
                second: 0,
            }
        } else if now.month < 12 {
            LocalDateTime {
                year: now.year,
                month: now.month + 1,
                day: 1,
                hour,
                minute,
                second: 0,
            }
        } else {
            LocalDateTime { year: now.year + 1, month: 1, day: 1, hour, minute, second: 0 }
        }
    }
}

// ---------------------------------------------------------------------------
// Text form
// ---------------------------------------------------------------------------

/// Four digits of `n < 10000`, zero-padded.
pub open spec fn four_digits(n: nat) -> Seq<char> {
    two_digits(n / 100) + two_digits(n % 100)
}

/// The year as `%Y` shows it: four zero-padded digits for years 0 to 9999, otherwise
/// a sign followed by at least four digits.
pub open spec fn year_text(y: int) -> Seq<char> {
    if 0 <= y <= 9999 {
        four_digits(y as nat)
    } else {
        let a: nat = if y < 0 {
            (-y) as nat
        } else {
            y as nat
        };
        let sign = if y < 0 {
            seq!['-']
        } else {
            seq!['+']
        };
        if a < 10000 {
            sign + four_digits(a)
        } else {
            sign + decimal(a)
        }
    }
}

/// `YYYY-MM-DD HH:MM`
pub open spec fn minute_stamp(t: LocalDateTime) -> Seq<char> {
    year_text(t.year as int) + seq!['-'] + two_digits(t.month as nat) + seq!['-'] + two_digits(
        t.day as nat,
    ) + seq![' '] + two_digits(t.hour as nat) + seq![':'] + two_digits(t.minute as nat)
}

fn push_four_digits(s: &mut String, n: u32)
    requires
        n < 10000,
    ensures
        final(s)@ == old(s)@ + four_digits(n as nat),
{
    push_two_digits(s, n / 100);
    push_two_digits(s, n % 100);
    assert(s@ =~= old(s)@ + four_digits(n as nat));
}

fn push_year(s: &mut String, y: i32)
    requires
        MIN_YEAR <= y <= MAX_YEAR,
    ensures
        final(s)@ == old(s)@ + year_text(y as int),
{
    if 0 <= y && y <= 9999 {
        push_four_digits(s, y as u32);
    } else {
        let a: u32 = if y < 0 {
            (-y) as u32
        } else {
            y as u32
        };
        if y < 0 {
            push_char(s, '-');
        } else {
            push_char(s, '+');
        }
        if a < 10000 {
            push_four_digits(s, a);
        } else {
            push_decimal(s, a as u64);
        }
    }
    assert(s@ =~= old(s)@ + year_text(y as int));
}

/// The stamp `YYYY-MM-DD HH:MM` of `t`.
pub fn format_minute_stamp(t: &LocalDateTime) -> (r: String)
    requires
        t.wf(),
    ensures
        r@ == minute_stamp(*t),
{
    let mut s = String::new();
    push_year(&mut s, t.year);
    push_char(&mut s, '-');
    push_two_digits(&mut s, t.month);
    push_char(&mut s, '-');
    push_two_digits(&mut s, t.day);
    push_char(&mut s, ' ');
    push_two_digits(&mut s, t.hour);
    push_char(&mut s, ':');
    push_two_digits(&mut s, t.minute);
    assert(s@ =~= minute_stamp(*t));
    s
}

/// The reset moment one hour after `now`, on the minute: the clock time an hour on,
/// placed on today's or tomorrow's date.
pub open spec fn default_reset_moment(now: LocalDateTime) -> LocalDateTime {
    let target = (now.hour * 60 + now.minute + 60) % 1440;
    reset_moment(now, target / 60, target % 60)
}

/// The moment after `reset_moment` lies strictly after `now` and within a day of it.
pub proof fn law_reset_moment_ahead(now: LocalDateTime, hour: int, minute: int)
    requires
        now.wf(),
        now.year < MAX_YEAR,
        0 <= hour < 24,
        0 <= minute < 60,
    ensures
        ({
            let r = reset_moment(now, hour, minute);
            let same_day = r.year == now.year && r.month == now.month && r.day == now.day;
            &&& r.wf()
            &&& same_day ==> r.seconds_of_day() > now.seconds_of_day()
            &&& !same_day ==> (r.year as int, r.month as int, r.day as int) == next_date(
                now.year as int,
                now.month as int,
                now.day as int,
            ) && r.seconds_of_day() <= now.seconds_of_day()
        }),
{
    let r = reset_moment(now, hour, minute);
    let (y, m, d) = next_date(now.year as int, now.month as int, now.day as int);
    assert(!(y == now.year && m == now.month && d == now.day));
}

} // verus!
