use atomcode_switch::account_ops::AtomcodeSwitchApp;
use atomcode_switch::datetime::LocalDateTime;
use atomcode_switch::models::{
    AppConfig, AuthToml, AutoSwitchRules, ManagedAccount, Percent, User, PERCENT_NINETY_FIVE_BITS,
};

fn auth(id: &str, name: &str, username: &str) -> AuthToml {
    AuthToml {
        access_token: format!("at-{}", id),
        refresh_token: format!("rt-{}", id),
        token_type: "Bearer".to_string(),
        expires_in: 3600,
        created_at: 1_700_000_000,
        user: User {
            id: id.to_string(),
            username: username.to_string(),
            name: name.to_string(),
            email: format!("{}@example.com", username),
            avatar_url: String::new(),
        },
    }
}

fn pct(v: f32) -> Percent {
    Percent { bits: v.to_bits() }
}

fn account(id: &str, name: &str, usage: f32, valid: bool) -> ManagedAccount {
    ManagedAccount {
        id: id.to_string(),
        auth_data: auth(id, name, &name.to_lowercase()),
        plan_name: "Plan".to_string(),
        usage_percent: pct(usage),
        reset_time: "2026-06-13 21:04".to_string(),
        is_valid: valid,
        remaining_days: 10,
        last_updated: "2026-06-01 08:00".to_string(),
    }
}

fn config(accounts: Vec<ManagedAccount>, active: Option<&str>) -> AppConfig {
    let mut c = AppConfig::default();
    c.accounts = accounts;
    c.active_account_id = active.map(|s| s.to_string());
    c.language = "en_us".to_string();
    c
}

fn app(c: AppConfig) -> AtomcodeSwitchApp {
    AtomcodeSwitchApp::new(c, None)
}

fn now() -> LocalDateTime {
    LocalDateTime { year: 2026, month: 6, day: 13, hour: 20, minute: 30, second: 15 }
}

fn ids(a: &AtomcodeSwitchApp) -> Vec<String> {
    a.config.accounts.iter().map(|x| x.id.clone()).collect()
}

#[test]
fn default_config_is_empty_with_a_ninety_five_percent_rule() {
    let c = AppConfig::default();
    assert!(c.accounts.is_empty());
    assert_eq!(c.active_account_id, None);
    assert_eq!(c.custom_atomcode_dir, None);
    assert!(!c.auto_switch_rules.enabled);
    assert_eq!(c.auto_switch_rules.max_usage_percent.bits, 95.0f32.to_bits());
    assert_eq!(PERCENT_NINETY_FIVE_BITS, 95.0f32.to_bits());
    assert_eq!(c.language, "zh_cn");
}

#[test]
fn new_app_is_ready_and_synchronised() {
    let c = config(vec![account("u1", "Alice", 10.0, true), account("u2", "Bob", 20.0, true)], Some("u1"));
    let a = AtomcodeSwitchApp::new(c, Some(auth("u2", "Bobby", "bob")));
    assert_eq!(a.status_message, "Ready");
    assert_eq!(a.config.active_account_id.as_deref(), Some("u2"));
    assert_eq!(a.config.accounts[1].auth_data.user.name, "Bobby");
    assert!(!a.show_settings && !a.is_auto_updating && !a.show_manual_update);
    let zh = AtomcodeSwitchApp::new(AppConfig::default(), None);
    assert_eq!(zh.status_message, "就绪");
}

#[test]
fn sync_ignores_unknown_users_and_missing_files() {
    let c = config(vec![account("u1", "Alice", 10.0, true)], Some("u1"));
    let mut a = app(c);
    a.sync_active_account_status(Some(auth("u9", "Zed", "zed")));
    assert_eq!(a.config.active_account_id.as_deref(), Some("u1"));
    assert_eq!(a.config.accounts[0].auth_data.user.name, "Alice");
    a.sync_active_account_status(None);
    assert_eq!(a.config.active_account_id.as_deref(), Some("u1"));
}

#[test]
fn switching_activates_on_success_only() {
    let c = config(vec![account("u1", "Alice", 10.0, true), account("u2", "Bob", 20.0, true)], Some("u1"));
    let mut a = app(c);
    assert_eq!(a.auth_for("u2").unwrap().user.name, "Bob");
    assert!(a.auth_for("u3").is_none());
    assert!(!a.switch_to_account("u2", Err("disk full".to_string())));
    assert_eq!(a.config.active_account_id.as_deref(), Some("u1"));
    assert_eq!(a.status_message, "Switch failed: disk full");
    assert!(a.switch_to_account("u2", Ok(())));
    assert_eq!(a.config.active_account_id.as_deref(), Some("u2"));
    assert_eq!(a.status_message, "Switched to: Bob");
    let before = a.status_message.clone();
    assert!(!a.switch_to_account("nobody", Ok(())));
    assert_eq!(a.status_message, before);
    assert_eq!(a.config.active_account_id.as_deref(), Some("u2"));
}

#[test]
fn importing_a_new_user_appends_an_account() {
    let c = config(vec![account("u1", "Alice", 10.0, true)], Some("u1"));
    let mut a = app(c);
    assert!(a.import_current_auth(Some(auth("u2", "Bob", "bob")), &now()));
    assert_eq!(ids(&a), vec!["u1", "u2"]);
    let b = &a.config.accounts[1];
    assert_eq!(b.plan_name, "CodingPlan Lite");
    assert_eq!(b.usage_percent.bits, 0.0f32.to_bits());
    assert_eq!(b.remaining_days, 27);
    assert!(b.is_valid);
    assert_eq!(b.last_updated, "2026-06-13 20:30");
    assert_eq!(b.reset_time, "2026-06-13 21:30");
    assert_eq!(a.config.active_account_id.as_deref(), Some("u2"));
    assert_eq!(a.status_message, "Imported: Bob");
}

#[test]
fn importing_a_known_user_refreshes_its_account() {
    let c = config(vec![account("u1", "Alice", 10.0, true), account("u2", "Bob", 20.0, false)], Some("u1"));
    let mut a = app(c);
    assert!(a.import_current_auth(Some(auth("u2", "Robert", "bob")), &now()));
    assert_eq!(ids(&a), vec!["u1", "u2"]);
    let b = &a.config.accounts[1];
    assert_eq!(b.auth_data.user.name, "Robert");
    assert_eq!(b.last_updated, "2026-06-13 20:30");
    assert_eq!(b.plan_name, "Plan");
    assert!(!b.is_valid);
    assert_eq!(a.config.active_account_id.as_deref(), Some("u2"));
}

#[test]
fn importing_without_auth_file_reports_it() {
    let mut a = app(config(vec![], None));
    assert!(!a.import_current_auth(None, &now()));
    assert_eq!(a.status_message, "Auth file not found");
    assert!(a.config.accounts.is_empty());
}

#[test]
fn deleting_the_active_account_activates_the_first_remaining() {
    let c = config(
        vec![account("u1", "Alice", 10.0, true), account("u2", "Bob", 20.0, true), account("u3", "Cy", 5.0, true)],
        Some("u2"),
    );
    let mut a = app(c);
    let next = a.delete_account("u2");
    assert_eq!(next.as_deref(), Some("u1"));
    assert_eq!(ids(&a), vec!["u1", "u3"]);
    assert_eq!(a.config.active_account_id.as_deref(), Some("u1"));
    assert_eq!(a.status_message, "Account deleted");
}

#[test]
fn deleting_another_account_keeps_the_active_one() {
    let c = config(
        vec![account("u1", "Alice", 10.0, true), account("u2", "Bob", 20.0, true), account("u2", "Bob2", 20.0, true)],
        Some("u1"),
    );
    let mut a = app(c);
    assert_eq!(a.delete_account("u2"), None);
    assert_eq!(ids(&a), vec!["u1"]);
    assert_eq!(a.config.active_account_id.as_deref(), Some("u1"));
}

#[test]
fn deleting_the_last_account_leaves_none_active() {
    let mut a = app(config(vec![account("u1", "Alice", 10.0, true)], Some("u1")));
    assert_eq!(a.delete_account("u1"), None);
    assert!(a.config.accounts.is_empty());
    assert_eq!(a.config.active_account_id, None);
}

fn auto_config(active_usage: f32, others: Vec<ManagedAccount>) -> AppConfig {
    let mut accounts = vec![account("a", "Active", active_usage, true)];
    accounts.extend(others);
    let mut c = config(accounts, Some("a"));
    c.auto_switch_rules = AutoSwitchRules { enabled: true, max_usage_percent: pct(90.0) };
    c
}

#[test]
fn auto_switch_picks_the_first_valid_account_of_lowest_usage() {
    let c = auto_config(
        95.0,
        vec![
            account("b", "B", 40.0, true),
            account("c", "C", 10.0, false),
            account("d", "D", 20.0, true),
            account("e", "E", 20.0, true),
        ],
    );
    let mut a = app(c);
    assert_eq!(a.check_auto_switch(), Some(3));
    a.note_auto_switch(3);
    assert_eq!(a.status_message, "Auto-switched to: D");
}

#[test]
fn auto_switch_waits_below_the_threshold_and_when_disabled() {
    let c = auto_config(89.5, vec![account("b", "B", 1.0, true)]);
    assert_eq!(app(c).check_auto_switch(), None);
    // A usage equal to the threshold does not exceed it.
    let c = auto_config(90.0, vec![account("b", "B", 1.0, true)]);
    assert_eq!(app(c).check_auto_switch(), None);
    let c = auto_config(90.5, vec![account("b", "B", 1.0, true)]);
    assert_eq!(app(c).check_auto_switch(), Some(1));
    let mut c = auto_config(99.0, vec![account("b", "B", 1.0, true)]);
    c.auto_switch_rules.enabled = false;
    assert_eq!(app(c).check_auto_switch(), None);
}

#[test]
fn auto_switch_never_picks_the_active_or_an_invalid_account() {
    let c = auto_config(99.0, vec![account("a", "Twin", 0.0, true), account("b", "B", 0.0, false)]);
    assert_eq!(app(c).check_auto_switch(), None);
    let mut c = auto_config(99.0, vec![account("b", "B", 5.0, true)]);
    c.active_account_id = Some("missing".to_string());
    assert_eq!(app(c).check_auto_switch(), None);
}

#[test]
fn auto_switch_follows_float_comparisons() {
    // A usage that is not a number never exceeds the threshold.
    let c = auto_config(f32::NAN, vec![account("b", "B", 5.0, true)]);
    assert_eq!(app(c).check_auto_switch(), None);
    // A first candidate that is not a number is never replaced.
    let c = auto_config(99.0, vec![account("b", "B", f32::NAN, true), account("c", "C", 5.0, true)]);
    assert_eq!(app(c).check_auto_switch(), Some(1));
    // Negative zero is not lower than zero.
    let c = auto_config(99.0, vec![account("b", "B", 0.0, true), account("c", "C", -0.0, true)]);
    assert_eq!(app(c).check_auto_switch(), Some(1));
    let c = auto_config(99.0, vec![account("b", "B", 3.0, true), account("c", "C", -1.0, true)]);
    assert_eq!(app(c).check_auto_switch(), Some(2));
}

#[test]
fn percent_comparisons_match_f32() {
    let values = [0.0f32, -0.0, 1.5, 50.0, 80.0, 95.0, -3.0, f32::INFINITY, f32::NEG_INFINITY, f32::NAN, 1e-40];
    for x in values {
        for y in values {
            assert_eq!(pct(x).less_than(&pct(y)), x < y, "{} < {}", x, y);
            assert_eq!(pct(x).greater_than(&pct(y)), x > y, "{} > {}", x, y);
        }
    }
}

const LOGIN_ZH: &str = "✓ logged in as Bob (bob@example.com)\n套餐：CodingPlan Pro · 月付\n剩余 12 天\n当前窗口用量约 37.5%\n重置于 21:04\n";

#[test]
fn login_output_updates_the_account_it_names() {
    let c = config(vec![account("u1", "Alice", 10.0, true), account("u2", "Bob", 20.0, false)], Some("u1"));
    let mut a = app(c);
    let r = a.parse_login_output_and_update(LOGIN_ZH, &now(), Some(pct(37.5)));
    assert_eq!(r, Ok(()));
    assert_eq!(a.config.active_account_id.as_deref(), Some("u2"));
    let b = &a.config.accounts[1];
    assert_eq!(b.plan_name, "CodingPlan Pro");
    assert_eq!(b.remaining_days, 12);
    assert_eq!(b.usage_percent.bits, 37.5f32.to_bits());
    assert_eq!(b.reset_time, "2026-06-13 21:04");
    assert!(b.is_valid);
    assert_eq!(b.last_updated, "2026-06-13 20:30");
    assert_eq!(a.status_message, "Updated from paste: Bob");
    assert_eq!(a.config.accounts[0].plan_name, "Plan");
}

#[test]
fn login_output_for_the_active_name_updates_the_active_account() {
    let c = config(vec![account("u1", "Bob", 10.0, false), account("u2", "Other", 20.0, true)], Some("u1"));
    let mut a = app(c);
    assert_eq!(a.parse_login_output_and_update(LOGIN_ZH, &now(), None), Ok(()));
    assert_eq!(a.config.active_account_id.as_deref(), Some("u1"));
    let b = &a.config.accounts[0];
    assert_eq!(b.plan_name, "CodingPlan Pro");
    assert_eq!(b.usage_percent.bits, 10.0f32.to_bits());
    assert!(b.is_valid);
    assert_eq!(a.status_message, "Account info updated (manual paste)");
}

#[test]
fn login_output_for_an_unknown_name_updates_the_active_account() {
    let c = config(vec![account("u1", "Alice", 10.0, true)], Some("u1"));
    let mut a = app(c);
    assert_eq!(a.parse_login_output_and_update(LOGIN_ZH, &now(), None), Ok(()));
    assert_eq!(a.config.active_account_id.as_deref(), Some("u1"));
    assert_eq!(a.config.accounts[0].remaining_days, 12);
}

#[test]
fn login_output_needs_an_active_account() {
    let mut a = app(config(vec![account("u1", "Alice", 10.0, true)], None));
    assert_eq!(a.parse_login_output_and_update(LOGIN_ZH, &now(), None), Err("No active account".to_string()));
    let mut a = app(config(vec![account("u1", "Alice", 10.0, true)], Some("gone")));
    assert_eq!(
        a.parse_login_output_and_update(LOGIN_ZH, &now(), None),
        Err("Active account data not found".to_string())
    );
    assert_eq!(a.config.accounts[0].plan_name, "Plan");
}

#[test]
fn matching_by_user_name_works_too() {
    let mut alice = account("u2", "Alice", 20.0, true);
    alice.auth_data.user.username = "Bob".to_string();
    let c = config(vec![account("u1", "Carol", 10.0, true), alice], Some("u1"));
    let mut a = app(c);
    assert_eq!(a.parse_login_output_and_update(LOGIN_ZH, &now(), None), Ok(()));
    assert_eq!(a.config.active_account_id.as_deref(), Some("u2"));
}
