use atomcode_switch::account_ops::AtomcodeSwitchApp;
use atomcode_switch::countdown::{countdown_for, format_reset_countdown};
use atomcode_switch::datetime::{combine_reset_datetime, format_minute_stamp, LocalDateTime, Now};
use atomcode_switch::i18n::I18n;
use atomcode_switch::lang::Language;
use chrono::TimeZone;

fn dt(year: i32, month: u32, day: u32, hour: u32, minute: u32, second: u32) -> LocalDateTime {
    LocalDateTime { year, month, day, hour, minute, second }
}

#[test]
fn stamps_are_zero_padded() {
    assert_eq!(AtomcodeSwitchApp::current_time_str(&dt(2026, 6, 3, 7, 5, 59)), "2026-06-03 07:05");
    assert_eq!(format_minute_stamp(&dt(987, 1, 1, 0, 0, 0)), "0987-01-01 00:00");
    assert_eq!(format_minute_stamp(&dt(12345, 1, 1, 0, 0, 0)), "+12345-01-01 00:00");
    assert_eq!(format_minute_stamp(&dt(-44, 3, 15, 12, 0, 0)), "-0044-03-15 12:00");
}

#[test]
fn default_reset_is_an_hour_ahead() {
    assert_eq!(AtomcodeSwitchApp::default_reset_time(&dt(2026, 6, 13, 20, 30, 15)), "2026-06-13 21:30");
    assert_eq!(AtomcodeSwitchApp::default_reset_time(&dt(2026, 6, 30, 23, 10, 0)), "2026-07-01 00:10");
    assert_eq!(AtomcodeSwitchApp::default_reset_time(&dt(2026, 12, 31, 23, 59, 59)), "2027-01-01 00:59");
    assert_eq!(AtomcodeSwitchApp::default_reset_time(&dt(2024, 2, 28, 23, 0, 0)), "2024-02-29 00:00");
    assert_eq!(AtomcodeSwitchApp::default_reset_time(&dt(2100, 2, 28, 23, 0, 0)), "2100-03-01 00:00");
}

#[test]
fn combined_reset_moves_to_tomorrow_once_passed() {
    let now = dt(2026, 6, 13, 21, 4, 0);
    assert_eq!(combine_reset_datetime(&now, 21, 5), dt(2026, 6, 13, 21, 5, 0));
    assert_eq!(combine_reset_datetime(&now, 21, 4), dt(2026, 6, 14, 21, 4, 0));
    assert_eq!(combine_reset_datetime(&now, 3, 0), dt(2026, 6, 14, 3, 0, 0));
}

fn now_at(local: LocalDateTime, unix_seconds: i64, subsec_nanos: u32) -> Now {
    Now { local, unix_seconds, subsec_nanos }
}

#[test]
fn countdown_to_a_stamp() {
    let en = I18n::load(Language::EnUs);
    let now = now_at(dt(2026, 6, 13, 20, 0, 0), 1_000_000, 0);
    let (t, expired) = countdown_for(&en, " 2026-06-13 21:04 ", &now, Some(1_000_000 + 3840 + 5));
    assert_eq!(t, "Reset: 2026-06-13 21:04 (in 1h 4m 5s)");
    assert!(!expired);
    let (t, expired) = countdown_for(&en, "2026-06-13 21:04", &now, Some(1_000_000 + 59));
    assert_eq!(t, "Reset: 2026-06-13 21:04 (in 0m 59s)");
    assert!(!expired);
    let (t, expired) = countdown_for(&en, "2026-06-13 21:04", &now, Some(1_000_000 - 1));
    assert_eq!(t, "Reset: 2026-06-13 21:04 (please update)");
    assert!(expired);
}

#[test]
fn expired_reset_asks_for_an_update_in_chinese() {
    let zh = I18n::load(Language::ZhCn);
    let now = now_at(dt(2026, 6, 13, 20, 0, 0), 1_000_000, 0);
    let (t, expired) = countdown_for(&zh, "2026-06-13 21:04", &now, Some(1_000_000 - 1));
    assert_eq!(t, "重置: 2026-06-13 21:04（请更新）");
    assert!(expired);
}

#[test]
fn countdown_truncates_fractions_of_a_second() {
    let en = I18n::load(Language::EnUs);
    let now = now_at(dt(2026, 6, 13, 20, 0, 0), 1_000_000, 400_000_000);
    let (t, _) = countdown_for(&en, "2026-06-13 21:04", &now, Some(1_000_010));
    assert_eq!(t, "Reset: 2026-06-13 21:04 (in 0m 9s)");
    let (t, expired) = countdown_for(&en, "2026-06-13 21:04", &now, Some(1_000_000));
    assert_eq!(t, "Reset: 2026-06-13 21:04 (in 0m 0s)");
    assert!(!expired);
}

#[test]
fn countdown_to_a_bare_clock_time() {
    let en = I18n::load(Language::EnUs);
    let now = now_at(dt(2026, 6, 13, 20, 0, 0), 0, 0);
    let (t, expired) = countdown_for(&en, "21:04", &now, None);
    assert_eq!(t, "Reset: 21:04 (in 1h 4m 0s)");
    assert!(!expired);
    let (t, _) = countdown_for(&en, "20:00", &now, None);
    assert_eq!(t, "Reset: 20:00 (in 24h 0m 0s)");
    let (t, _) = countdown_for(&en, "+8:00", &now, None);
    assert_eq!(t, "Reset: +8:00 (in 12h 0m 0s)");
    let (t, _) = countdown_for(&en, "20:30", &now, None);
    assert_eq!(t, "Reset: 20:30 (in 30m 0s)");
}

#[test]
fn unreadable_reset_times_are_shown_as_written() {
    let en = I18n::load(Language::EnUs);
    let now = now_at(dt(2026, 6, 13, 20, 0, 0), 0, 0);
    assert_eq!(countdown_for(&en, " soon ", &now, None), ("Reset:  soon ".to_string(), false));
    assert_eq!(countdown_for(&en, "2026-13-45 99:99", &now, Some(5)).0, "Reset: 2026-13-45 99:99");
    assert_eq!(countdown_for(&en, "ab:cd", &now, None).0, "Reset: ab:cd");
}

#[test]
fn countdown_uses_the_local_time_zone() {
    let en = I18n::load(Language::EnUs);
    let target = chrono::Local.with_ymd_and_hms(2030, 1, 2, 3, 4, 0).single().unwrap().timestamp();
    let now = now_at(dt(2030, 1, 2, 2, 0, 0), target - 3600 - 240, 0);
    let (t, expired) = format_reset_countdown(&en, "2030-01-02 03:04", &now);
    assert_eq!(t, "Reset: 2030-01-02 03:04 (in 1h 4m 0s)");
    assert!(!expired);
    let a = AtomcodeSwitchApp::new(atomcode_switch::models::AppConfig::default(), None);
    let (t, _) = a.format_reset_countdown("2030-01-02 03:04", &now);
    assert_eq!(t, "重置: 2030-01-02 03:04（还有 1 小时 4 分 0 秒）");
}

#[test]
fn stamp_counts_down_to_within_a_day_of_its_wall_clock_time() {
    let en = I18n::load(Language::EnUs);
    // 2030-01-02 03:04 read as UTC, three days earlier.
    let as_utc: i64 = 1_893_553_440;
    let now = now_at(dt(2029, 12, 30, 3, 4, 0), as_utc - 3 * 86400, 0);
    let (t, expired) = format_reset_countdown(&en, "2030-01-02 03:04", &now);
    assert!(!expired);
    let rest = t.strip_prefix("Reset: 2030-01-02 03:04 (in ").expect("a countdown");
    let hours: i64 = rest.split('h').next().unwrap().parse().unwrap();
    assert!(48 <= hours && hours < 96, "{}", t);
}
