use atomcode_switch::account_ops::AtomcodeSwitchApp;
use atomcode_switch::datetime::LocalDateTime;
use atomcode_switch::login::{read_login_name, usage_number};
use atomcode_switch::models::{AuthToml, ManagedAccount, Percent, User};

fn blank() -> ManagedAccount {
    ManagedAccount {
        id: "u1".to_string(),
        auth_data: AuthToml {
            access_token: String::new(),
            refresh_token: String::new(),
            token_type: String::new(),
            expires_in: 0,
            created_at: 0,
            user: User {
                id: "u1".to_string(),
                username: "bob".to_string(),
                name: "Bob".to_string(),
                email: String::new(),
                avatar_url: String::new(),
            },
        },
        plan_name: "old plan".to_string(),
        usage_percent: Percent { bits: 1.0f32.to_bits() },
        reset_time: "old reset".to_string(),
        is_valid: false,
        remaining_days: 1,
        last_updated: "then".to_string(),
    }
}

fn at(hour: u32, minute: u32) -> LocalDateTime {
    LocalDateTime { year: 2026, month: 12, day: 31, hour, minute, second: 0 }
}

#[test]
fn chinese_output_fills_every_field() {
    let mut a = blank();
    let text = "套餐：CodingPlan Lite · 续费中\n剩余 27 天\n用量约 12.5%\n重置于 08:15\n";
    AtomcodeSwitchApp::apply_parsed_fields(&mut a, text, &at(9, 0), Some(Percent { bits: 12.5f32.to_bits() }));
    assert_eq!(a.plan_name, "CodingPlan Lite");
    assert_eq!(a.remaining_days, 27);
    assert_eq!(a.usage_percent.bits, 12.5f32.to_bits());
    // 08:15 has passed at 09:00 on New Year's Eve: the next one is on 1 January.
    assert_eq!(a.reset_time, "2027-01-01 08:15");
    assert!(!a.is_valid);
    assert_eq!(a.last_updated, "then");
}

#[test]
fn english_output_is_read_too() {
    let mut a = blank();
    let text = "Plan: CodingPlan Pro\n27d / 30d\nresets 23:59\n";
    AtomcodeSwitchApp::apply_parsed_fields(&mut a, text, &at(9, 0), None);
    assert_eq!(a.plan_name, "CodingPlan Pro");
    assert_eq!(a.remaining_days, 27);
    assert_eq!(a.usage_percent.bits, 1.0f32.to_bits());
    assert_eq!(a.reset_time, "2026-12-31 23:59");
}

#[test]
fn missing_fields_leave_the_account_alone() {
    let mut a = blank();
    AtomcodeSwitchApp::apply_parsed_fields(&mut a, "nothing to see", &at(9, 0), None);
    assert_eq!(a.plan_name, "old plan");
    assert_eq!(a.remaining_days, 1);
    assert_eq!(a.reset_time, "old reset");
}

#[test]
fn plan_without_separator_or_line_end_is_not_taken() {
    let mut a = blank();
    AtomcodeSwitchApp::apply_parsed_fields(&mut a, "套餐：Pro", &at(9, 0), None);
    assert_eq!(a.plan_name, "old plan");
    AtomcodeSwitchApp::apply_parsed_fields(&mut a, "套餐：  Pro Max \r\nx", &at(9, 0), None);
    assert_eq!(a.plan_name, "Pro Max");
}

#[test]
fn day_counts_that_do_not_fit_are_ignored() {
    let mut a = blank();
    AtomcodeSwitchApp::apply_parsed_fields(&mut a, "剩余 99999999999 天", &at(9, 0), None);
    assert_eq!(a.remaining_days, 1);
    AtomcodeSwitchApp::apply_parsed_fields(&mut a, "剩余 4294967295 天", &at(9, 0), None);
    assert_eq!(a.remaining_days, 4294967295);
    AtomcodeSwitchApp::apply_parsed_fields(&mut a, "剩余 x天", &at(9, 0), None);
    assert_eq!(a.remaining_days, 4294967295);
}

#[test]
fn reset_text_that_is_no_clock_time_is_kept_as_written() {
    let mut a = blank();
    AtomcodeSwitchApp::apply_parsed_fields(&mut a, "重置于 明天 重置于 后天\n", &at(9, 0), None);
    assert_eq!(a.reset_time, "明天");
    AtomcodeSwitchApp::apply_parsed_fields(&mut a, "重置于 25:00", &at(9, 0), None);
    assert_eq!(a.reset_time, "25:00");
    AtomcodeSwitchApp::apply_parsed_fields(&mut a, "line\n重置于 10:30\r\n", &at(9, 0), None);
    assert_eq!(a.reset_time, "2026-12-31 10:30");
}

#[test]
fn usage_figure_is_handed_out_as_written() {
    assert_eq!(usage_number("当前用量约 37.5% 了").as_deref(), Some("37.5"));
    assert_eq!(usage_number("用量约\u{3000}8%").as_deref(), Some("8"));
    assert_eq!(usage_number("用量约 1.2.3").as_deref(), Some("1.2.3"));
    assert_eq!(usage_number("用量约 %"), None);
    assert_eq!(usage_number("no usage"), None);
}

#[test]
fn login_name_stops_at_space_or_parenthesis() {
    assert_eq!(read_login_name("✓ logged in as Bob (b@x.com)").as_deref(), Some("Bob"));
    assert_eq!(read_login_name("logged in as Bob(b@x.com)").as_deref(), Some("Bob"));
    assert_eq!(read_login_name("logged in as 张三。欢迎").as_deref(), Some("张三"));
    assert_eq!(read_login_name("logged in as alice\u{3000}").as_deref(), Some("alice"));
    assert_eq!(read_login_name("logged in as \nBob").as_deref(), Some(""));
    assert_eq!(read_login_name("not logged in"), None);
}
