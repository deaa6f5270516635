//! The countdown that an account card shows to its reset time.
//!
//! A reset time is stored as `YYYY-MM-DD HH:MM` (read with chrono and placed in the
//! local time zone); older configurations hold a bare `HH:MM`, which counts down to
//! its next occurrence.
use vstd::prelude::*;

use chrono::{Datelike, TimeZone, Timelike};

use crate::account_ops::message;
use crate::datetime::{days_in_month, is_leap_year, next_date, Now};
use crate::i18n::I18n;
use crate::lang::Language;
use crate::text::{chars_of, decimal, decimal_string, string_of, trim, trim_bounds};
use vstd::arithmetic::div_mod::{lemma_fundamental_div_mod, lemma_fundamental_div_mod_converse};
use vstd::utf8::encode_utf8;

verus! {

/// A date and a time of day on the minute, as read from a stored reset time.
#[derive(Debug, Clone, Copy, PartialEq, Eq, Structural)]
pub struct DateFields {
    pub year: i32,
    pub month: u32,
    pub day: u32,
    pub hour: u32,
    pub minute: u32,
}

/// What `chrono::NaiveDateTime::parse_from_str(s, "%Y-%m-%d %H:%M")` reads from `s`.
pub uninterp spec fn parsed_minute_datetime(s: Seq<char>) -> Option<DateFields>;

/// `chrono::NaiveDateTime::parse_from_str` with the format `%Y-%m-%d %H:%M`, the
/// date and time read taken apart into their fields. The contract names the result;
/// chrono's parsing rules are not restated.
#[verifier::external_body]
fn parse_minute_datetime(s: &str) -> (r: Option<DateFields>)
    ensures
        r == parsed_minute_datetime(s@),
{
    match chrono::NaiveDateTime::parse_from_str(s, "%Y-%m-%d %H:%M") {
        Ok(t) => Some(
            DateFields {
                year: t.year(),
                month: t.month(),
                day: t.day(),
                hour: t.hour(),
                minute: t.minute(),
            },
        ),
        Err(_) => None,
    }
}

/// The number of days from 1970-01-01 to the date `y`-`m`-`d` of the proleptic
/// Gregorian calendar (negative before it), counted in whole 400-year eras of
/// 146097 days, then years of 365 days with a leap day every fourth year but the
/// hundredth, each year taken to begin on 1 March so that the leap day falls last.
pub open spec fn days_from_civil(y: int, m: int, d: int) -> int {
    let yy = if m <= 2 { y - 1 } else { y };
    let era = yy / 400;
    let yoe = yy - era * 400;
    let mp = if m > 2 { m - 3 } else { m + 9 };
    let doy = (153 * mp + 2) / 5 + d - 1;
    let doe = yoe * 365 + yoe / 4 - yoe / 100 + doy;
    era * 146097 + doe - 719468
}

/// The days before 1 March of the year `y` (counted from 1 March of year 0), taken era
/// by era and year by year.
spec fn days_before_march(y: int) -> int {
    let era = y / 400;
    let yoe = y - era * 400;
    era * 146097 + yoe * 365 + yoe / 4 - yoe / 100
}

/// Counting from 1 March, the year `y` (running to the end of February of `y + 1`)
/// has 366 days when `y + 1` is a leap year, else 365.
proof fn lemma_march_year_length(y: int)
    ensures
        days_before_march(y + 1) - days_before_march(y) == if is_leap_year(y + 1) {
            366int
        } else {
            365int
        },
{
    lemma_days_before_march_closed(y);
    lemma_days_before_march_closed(y + 1);
    lemma_div_step(y + 1, 4);
    lemma_div_step(y + 1, 100);
    lemma_div_step(y + 1, 400);
    let x = y + 1;
    if x % 400 == 0 {
        lemma_fundamental_div_mod_converse(x, 100, (x / 400) * 4, 0);
        lemma_fundamental_div_mod_converse(x, 4, (x / 400) * 100, 0);
    }
}

/// `days_before_march` in closed form: 365 days a year and a leap day for every
/// fourth year but the hundredth, keeping the four-hundredth.
proof fn lemma_days_before_march_closed(y: int)
    ensures
        days_before_march(y) == 365 * y + y / 4 - y / 100 + y / 400,
{
    let era = y / 400;
    let yoe = y - era * 400;
    lemma_fundamental_div_mod_converse(y, 400, era, yoe);
    assert(0 <= yoe < 400);
    lemma_fundamental_div_mod_converse(y, 4, era * 100 + yoe / 4, yoe % 4);
    lemma_fundamental_div_mod_converse(y, 100, era * 4 + yoe / 100, yoe % 100);
}

/// Stepping `x` back by one lowers `x / k` by one exactly when `k` divides `x`.
proof fn lemma_div_step(x: int, k: int)
    requires
        k > 0,
    ensures
        x / k - (x - 1) / k == if x % k == 0 {
            1int
        } else {
            0int
        },
{
    let q = x / k;
    let r = x % k;
    lemma_fundamental_div_mod(x, k);
    lemma_mod_pos_bound_any(x, k);
    if r == 0 {
        assert(x - 1 == (q - 1) * k + (k - 1)) by (nonlinear_arith)
            requires
                x == k * q + r,
                r == 0,
        ;
        lemma_fundamental_div_mod_converse(x - 1, k, q - 1, k - 1);
    } else {
        assert(x - 1 == q * k + (r - 1)) by (nonlinear_arith)
            requires
                x == k * q + r,
        ;
        lemma_fundamental_div_mod_converse(x - 1, k, q, r - 1);
    }
}

/// The remainder by a positive `k` lies in `0..k`.
proof fn lemma_mod_pos_bound_any(x: int, k: int)
    requires
        k > 0,
    ensures
        0 <= x % k < k,
{
}

/// The calendar steps one day at a time: the date after any real date
/// `y`-`m`-`d` is again a real date, and it lies exactly one day later. With
/// `days_from_civil(1970, 1, 1) == 0` this fixes every month's length: April, June,
/// September and November have 30 days, February 28 or 29, the others 31.
pub proof fn law_next_date_is_one_day_later(y: int, m: int, d: int)
    requires
        1 <= m <= 12,
        1 <= d <= days_in_month(y, m),
    ensures
        ({
            let (y2, m2, d2) = next_date(y, m, d);
            &&& 1 <= m2 <= 12
            &&& 1 <= d2 <= days_in_month(y2, m2)
            &&& days_from_civil(y2, m2, d2) == days_from_civil(y, m, d) + 1
        }),
        days_from_civil(1970, 1, 1) == 0,
{
    assert(days_from_civil(1970, 1, 1) == 0);
    if d == days_in_month(y, m) && m == 2 {
        lemma_march_year_length(y - 1);
        assert(days_from_civil(y, 2, d) == days_before_march(y - 1) + 336 + d - 719468);
        assert(days_from_civil(y, 3, 1) == days_before_march(y) - 719468);
    }
}

/// The Unix time that the wall-clock time `f` (second 0) would have in UTC.
pub open spec fn naive_seconds(f: DateFields) -> int {
    days_from_civil(f.year as int, f.month as int, f.day as int) * 86400 + f.hour * 3600
        + f.minute * 60
}

/// `target` places the stamp `t` in some time zone: when there is a target, `t` reads
/// as a date and time, and the target lies less than a day from that wall-clock time
/// taken as UTC.
pub open spec fn placed_near(t: Seq<char>, target: Option<i64>) -> bool {
    target matches Some(s) ==> (parsed_minute_datetime(t) matches Some(f) && naive_seconds(f)
        - 86400 < s < naive_seconds(f) + 86400)
}

/// `chrono::TimeZone::with_ymd_and_hms` on `chrono::Local`: the Unix time of the local
/// wall-clock time `f` (second 0), when the local time zone maps it to one instant.
/// Which instant depends on the machine's time zone and is left unsaid; the contract
/// states what every zone gives: the wall-clock time minus the zone's offset from
/// UTC, which chrono holds below a day in either direction.
#[verifier::external_body]
fn local_timestamp(f: &DateFields) -> (r: Option<i64>)
    ensures
        r matches Some(t) ==> naive_seconds(*f) - 86400 < t < naive_seconds(*f) + 86400,
{
    chrono::Local.with_ymd_and_hms(f.year, f.month, f.day, f.hour, f.minute, 0).single().map(
        |t| t.timestamp(),
    )
}

/// Whole seconds from `now` (Unix seconds `n` and `f` nanoseconds) to the Unix time
/// `t`, truncated toward zero as a time difference's `num_seconds` is.
pub open spec fn seconds_until(t: int, n: int, f: int) -> int {
    if f > 0 && t - n >= 1 {
        t - n - 1
    } else {
        t - n
    }
}

/// The countdown text for `diff` seconds: hours, minutes and seconds from an hour on,
/// minutes and seconds below.
pub open spec fn countdown_message(lang: Language, shown: Seq<char>, diff: nat) -> Seq<char> {
    if diff >= 3600 {
        message(
            lang,
            "card_reset_countdown_h"@,
            seq![shown, decimal(diff / 3600), decimal((diff / 60) % 60), decimal(diff % 60)],
        )
    } else {
        message(lang, "card_reset_countdown"@, seq![shown, decimal(diff / 60), decimal(diff % 60)])
    }
}

/// The bytes of a full stamp `YYYY-MM-DD HH:MM` sit where they should.
pub open spec fn stamp_shape(b: Seq<u8>) -> bool {
    b.len() >= 16 && b[4] == 0x2Du8 && b[7] == 0x2Du8 && b[10] == 0x20u8 && b[13] == 0x3Au8
}

pub open spec fn is_digit_byte(c: u8) -> bool {
    0x30 <= c <= 0x39
}

/// The bytes after an optional leading `+`.
pub open spec fn unsigned_digits(b: Seq<u8>) -> Seq<u8> {
    if b.len() > 0 && b[0] == 0x2Bu8 {
        b.drop_first()
    } else {
        b
    }
}

pub open spec fn all_digit_bytes(d: Seq<u8>) -> bool {
    forall|i: int| 0 <= i < d.len() ==> is_digit_byte(#[trigger] d[i])
}

pub open spec fn bytes_value(b: Seq<u8>) -> nat
    decreases b.len(),
{
    if b.len() == 0 {
        0
    } else {
        bytes_value(b.drop_last()) * 10 + (b.last() - 0x30) as nat
    }
}

/// `str::parse::<u32>` on the bytes `b`: an optional `+` and then decimal digits
/// whose value fits.
pub open spec fn u32_of_bytes(b: Seq<u8>) -> Option<u32> {
    let d = unsigned_digits(b);
    if d.len() > 0 && all_digit_bytes(d) && bytes_value(d) <= u32::MAX {
        Some(bytes_value(d) as u32)
    } else {
        None
    }
}

/// A bare clock time `HH:MM` as older configurations store it: two bytes of hour,
/// a colon, and the minute.
pub open spec fn bare_clock(b: Seq<u8>) -> Option<(u32, u32)> {
    if b.len() >= 5 && b[2] == 0x3Au8 {
        match (u32_of_bytes(b.subrange(0, 2)), u32_of_bytes(b.subrange(3, b.len() as int))) {
            (Some(h), Some(m)) => Some((h, m)),
            _ => None,
        }
    } else {
        None
    }
}

/// Seconds from `now_secs` (seconds since midnight) to the next `target` seconds since
/// midnight, where a target not ahead today counts to tomorrow.
pub open spec fn clock_diff(target: int, now_secs: int) -> int {
    if target > now_secs {
        target - now_secs
    } else {
        target + 86400 - now_secs
    }
}

/// The countdown text for `reset` at `now`, and whether the reset time has passed.
/// `target` is the Unix time of the stored stamp in the local time zone, when the
/// stamp could be placed there.
pub open spec fn reset_countdown(
    lang: Language,
    reset: Seq<char>,
    now: Now,
    target: Option<i64>,
) -> (Seq<char>, bool) {
    let t = trim(reset);
    let b = encode_utf8(t);
    if stamp_shape(b) && parsed_minute_datetime(t) is Some && target is Some {
        let d = seconds_until(target->0 as int, now.unix_seconds as int, now.subsec_nanos as int);
        if d < 0 {
            (message(lang, "card_reset_expired"@, seq![t]), true)
        } else {
            (countdown_message(lang, t, d as nat), false)
        }
    } else {
        match bare_clock(b) {
            Some((h, m)) => {
                let secs = (h * 3600 + m * 60) % 0x1_0000_0000;
                (
                    countdown_message(
                        lang,
                        t,
                        clock_diff(secs, now.local.seconds_of_day()) as nat,
                    ),
                    false,
                )
            },
            None => (message(lang, "card_reset_label"@, seq![reset]), false),
        }
    }
}

fn parse_u32_bytes(b: &[u8], lo: usize, hi: usize) -> (r: Option<u32>)
    requires
        lo <= hi <= b@.len(),
    ensures
        r == u32_of_bytes(b@.subrange(lo as int, hi as int)),
{
    let ghost s = b@.subrange(lo as int, hi as int);
    let mut i = lo;
    if i < hi && b[i] == 0x2Bu8 {
        i = i + 1;
    }
    let ghost d = b@.subrange(i as int, hi as int);
    assert(d =~= (if s.len() > 0 && s[0] == 0x2Bu8 {
        s.drop_first()
    } else {
        s
    }));
    if i == hi {
        return None;
    }
    let start = i;
    let mut acc: u32 = 0;
    while i < hi
        invariant
            lo <= start <= i <= hi <= b@.len(),
            d == b@.subrange(start as int, hi as int),
            s == b@.subrange(lo as int, hi as int),
            d == unsigned_digits(s),
            forall|k: int| start <= k < i ==> is_digit_byte(#[trigger] b@[k]),
            acc == bytes_value(d.take(i - start)),
        decreases hi - i,
    {
        let c = b[i];
        if c < 0x30u8 || c > 0x39u8 {
            assert(!is_digit_byte(d[i - start]));
            assert(!all_digit_bytes(d));
            return None;
        }
        let dv = (c - 0x30u8) as u32;
        assert(d.take(i - start + 1).drop_last() =~= d.take(i - start));
        if acc > (u32::MAX - dv) / 10 {
            proof {
                assert(bytes_value(d.take(i - start + 1)) > u32::MAX) by (nonlinear_arith)
                    requires
                        acc > (u32::MAX - dv) / 10,
                        bytes_value(d.take(i - start + 1)) == acc * 10 + dv,
                        dv <= 9,
                ;
                lemma_bytes_value_prefix(d, i - start + 1);
                if all_digit_bytes(d) {
                    assert(bytes_value(d) > u32::MAX);
                }
            }
            return None;
        }
        acc = acc * 10 + dv;
        i = i + 1;
    }
    assert(d.take(hi - start) =~= d);
    Some(acc)
}

proof fn lemma_bytes_value_prefix(s: Seq<u8>, k: int)
    requires
        0 <= k <= s.len(),
        forall|j: int| 0 <= j < k ==> is_digit_byte(#[trigger] s[j]),
    ensures
        (forall|j: int| 0 <= j < s.len() ==> is_digit_byte(#[trigger] s[j])) ==> bytes_value(
            s.take(k),
        ) <= bytes_value(s),
    decreases s.len(),
{
    if forall|j: int| 0 <= j < s.len() ==> is_digit_byte(#[trigger] s[j]) {
        if k < s.len() {
            assert(s.drop_last().take(k) =~= s.take(k));
            lemma_bytes_value_prefix(s.drop_last(), k);
        } else {
            assert(s.take(k) =~= s);
        }
    }
}

fn countdown_text(i18n: &I18n, shown: &str, diff: u64) -> (r: String)
    ensures
        r@ == countdown_message(i18n@, shown@, diff as nat),
{
    if diff >= 3600 {
        let h = decimal_string(diff / 3600);
        let m = decimal_string((diff / 60) % 60);
        let s = decimal_string(diff % 60);
        i18n.t4("card_reset_countdown_h", shown, h.as_str(), m.as_str(), s.as_str())
    } else {
        let m = decimal_string(diff / 60);
        let s = decimal_string(diff % 60);
        i18n.t3("card_reset_countdown", shown, m.as_str(), s.as_str())
    }
}

/// The countdown for `reset_time` at `now`, given the Unix time `target` at which the
/// local time zone places the stored stamp (when it can).
pub fn countdown_for(i18n: &I18n, reset_time: &str, now: &Now, target: Option<i64>) -> (r: (
    String,
    bool,
))
    requires
        now.local.seconds_of_day() < 86400,
    ensures
        (r.0@, r.1) == reset_countdown(i18n@, reset_time@, *now, target),
{
    let v = chars_of(reset_time);
    let (lo, hi) = trim_bounds(&v, 0, v.len());
    assert(v@.subrange(0, v@.len() as int) =~= v@);
    let trimmed = string_of(&v, lo, hi);
    let t = trimmed.as_str();
    let b = t.as_bytes();
    if b.len() >= 16 && b[4] == 0x2Du8 && b[7] == 0x2Du8 && b[10] == 0x20u8 && b[13] == 0x3Au8 {
        if let Some(_) = parse_minute_datetime(t) {
            if let Some(ts) = target {
                let n = now.unix_seconds as i128;
                let gap = ts as i128 - n;
                let d: i128 = if now.subsec_nanos > 0 && gap >= 1 {
                    gap - 1
                } else {
                    gap
                };
                if d < 0 {
                    return (i18n.t1("card_reset_expired", t), true);
                }
                return (countdown_text(i18n, t, d as u64), false);
            }
        }
    }
    if b.len() >= 5 && b[2] == 0x3Au8 {
        let h = parse_u32_bytes(b, 0, 2);
        let m = parse_u32_bytes(b, 3, b.len());
        if let (Some(h), Some(m)) = (h, m) {
            let secs: u64 = ((h as u64) * 3600 + (m as u64) * 60) % 0x1_0000_0000;
            let now_secs: u64 = (now.local.hour * 3600 + now.local.minute * 60
                + now.local.second) as u64;
            let diff: u64 = if secs > now_secs {
                secs - now_secs
            } else {
                secs + 86400 - now_secs
            };
            return (countdown_text(i18n, t, diff), false);
        }
    }
    (i18n.t1("card_reset_label", reset_time), false)
}

/// The countdown that the card of an account with reset time `reset_time` shows at
/// `now`, and whether the reset time has passed. Where the stored stamp lies in
/// the local time zone is asked of the system.
pub fn format_reset_countdown(i18n: &I18n, reset_time: &str, now: &Now) -> (r: (String, bool))
    requires
        now.local.seconds_of_day() < 86400,
    ensures
        exists|target: Option<i64>|
            (r.0@, r.1) == reset_countdown(i18n@, reset_time@, *now, target) && placed_near(
                trim(reset_time@),
                target,
            ),
{
    let v = chars_of(reset_time);
    let (lo, hi) = trim_bounds(&v, 0, v.len());
    assert(v@.subrange(0, v@.len() as int) =~= v@);
    let trimmed = string_of(&v, lo, hi);
    let target = match parse_minute_datetime(trimmed.as_str()) {
        Some(f) => local_timestamp(&f),
        None => None,
    };
    assert(placed_near(trim(reset_time@), target));
    countdown_for(i18n, reset_time, now, target)
}

} // verus!
