use atomcode_switch::account_ops::{AtomcodeSwitchApp, SettingsState};
use atomcode_switch::datetime::LocalDateTime;
use atomcode_switch::models::{AppConfig, AuthToml, AutoSwitchRules, ManagedAccount, Percent, User};
use atomcode_switch::lang::Language;
use atomcode_switch::ui_state::{combine_fetch_output, FetchPoll};

fn account(id: &str, name: &str, username: &str, valid: bool) -> ManagedAccount {
    ManagedAccount {
        id: id.to_string(),
        auth_data: AuthToml {
            access_token: String::new(),
            refresh_token: String::new(),
            token_type: String::new(),
            expires_in: 0,
            created_at: 0,
            user: User {
                id: id.to_string(),
                username: username.to_string(),
                name: name.to_string(),
                email: String::new(),
                avatar_url: String::new(),
            },
        },
        plan_name: "Plan".to_string(),
        usage_percent: Percent { bits: 0 },
        reset_time: String::new(),
        is_valid: valid,
        remaining_days: 3,
        last_updated: String::new(),
    }
}

fn app(accounts: Vec<ManagedAccount>, active: Option<&str>, language: &str) -> AtomcodeSwitchApp {
    let mut c = AppConfig::default();
    c.accounts = accounts;
    c.active_account_id = active.map(|s| s.to_string());
    c.language = language.to_string();
    AtomcodeSwitchApp::new(c, None)
}

fn now() -> LocalDateTime {
    LocalDateTime { year: 2026, month: 6, day: 13, hour: 9, minute: 0, second: 0 }
}

#[test]
fn fetch_output_joins_error_output_on_a_new_line() {
    assert_eq!(combine_fetch_output("out", ""), "out");
    assert_eq!(combine_fetch_output("out", "err"), "out\nerr");
    assert_eq!(combine_fetch_output("", "err"), "\nerr");
}

#[test]
fn automatic_fetch_runs_until_an_answer() {
    let mut a = app(vec![], None, "en_us");
    a.start_auto_update();
    assert!(a.is_auto_updating);
    assert_eq!(a.status_message, "Fetching login info...");
    assert!(a.poll_auto_fetch(FetchPoll::Pending));
    assert!(a.is_auto_updating);
    assert!(!a.poll_auto_fetch(FetchPoll::Received("套餐：X\n".to_string())));
    assert!(!a.is_auto_updating);
    assert_eq!(a.manual_update_text, "套餐：X\n");
    assert_eq!(a.status_message, "Login info fetched, click \"Parse & Update\" to apply");
    a.start_auto_update();
    assert!(!a.poll_auto_fetch(FetchPoll::Disconnected));
    assert!(!a.is_auto_updating);
    assert_eq!(a.status_message, "Auto-fetch failed: process exited abnormally");
    a.start_auto_update();
    a.cancel_auto_fetch();
    assert!(!a.is_auto_updating);
    assert_eq!(a.status_message, "Auto-fetch cancelled");
}

#[test]
fn language_button_switches_and_persists() {
    let mut a = app(vec![], None, "zh_cn");
    a.toggle_language();
    assert_eq!(a.i18n.language(), Language::EnUs);
    assert_eq!(a.config.language, "en_us");
    assert_eq!(a.status_message, "Ready");
    a.toggle_language();
    assert_eq!(a.config.language, "zh_cn");
    assert_eq!(a.status_message, "就绪");
}

#[test]
fn clearing_the_login_deactivates_on_success() {
    let mut a = app(vec![account("u1", "A", "a", true)], Some("u1"), "en_us");
    assert!(!a.finish_clear_auth(Err("busy".to_string())));
    assert_eq!(a.status_message, "Clear failed: busy");
    assert_eq!(a.config.active_account_id.as_deref(), Some("u1"));
    assert!(a.finish_clear_auth(Ok(())));
    assert_eq!(a.config.active_account_id, None);
    assert_eq!(a.status_message, "Auth cleared");
}

#[test]
fn bottom_bar_shows_whether_the_active_account_is_valid() {
    assert!(app(vec![account("u1", "A", "a", true)], Some("u1"), "en_us").active_account_valid());
    assert!(!app(vec![account("u1", "A", "a", false)], Some("u1"), "en_us").active_account_valid());
    assert!(!app(vec![account("u1", "A", "a", true)], Some("u2"), "en_us").active_account_valid());
    assert!(!app(vec![account("u1", "A", "a", true)], None, "en_us").active_account_valid());
}

#[test]
fn delete_dialog_names_the_account() {
    let mut a = app(vec![account("u1", "Alice", "a", true)], None, "en_us");
    assert_eq!(a.delete_confirm_name(), "");
    a.delete_confirm_id = Some("u1".to_string());
    assert_eq!(a.delete_confirm_name(), "Alice");
    a.delete_confirm_id = Some("gone".to_string());
    assert_eq!(a.delete_confirm_name(), "");
}

#[test]
fn update_dialog_reports_each_outcome() {
    let mut a = app(vec![account("u1", "Bob", "bob", false)], Some("u1"), "en_us");
    a.show_manual_update = true;
    a.manual_update_text = "  \n".to_string();
    assert!(!a.submit_manual_update(&now(), None));
    assert_eq!(a.status_message, "Paste content is empty");
    assert!(!a.show_manual_update);
    assert_eq!(a.manual_update_text, "");

    a.manual_update_text = "剩余 5 天\n".to_string();
    assert!(a.submit_manual_update(&now(), None));
    assert_eq!(a.status_message, "Account info updated");
    assert_eq!(a.config.accounts[0].remaining_days, 5);
    assert!(a.config.accounts[0].is_valid);

    let mut b = app(vec![account("u1", "Bob", "bob", false)], None, "en_us");
    b.manual_update_text = "剩余 5 天\n".to_string();
    assert!(!b.submit_manual_update(&now(), None));
    assert_eq!(b.status_message, "No active account, please import one first");

    let mut c = app(vec![account("u1", "Bob", "bob", false)], Some("u9"), "en_us");
    c.manual_update_text = "剩余 5 天\n".to_string();
    assert!(!c.submit_manual_update(&now(), None));
    assert_eq!(c.status_message, "Update failed: Active account data not found");
}

#[test]
fn settings_dialog_round_trip() {
    let mut a = app(vec![], None, "en_us");
    a.config.custom_atomcode_dir = Some("/x".to_string());
    let st = a.settings_state_for(None);
    assert_eq!(st.data_dir, "");
    assert_eq!(st.atomcode_dir, "/x");
    assert!(!st.auto_switch_enabled);
    a.settings_state = Some(SettingsState {
        data_dir: "/data".to_string(),
        atomcode_dir: String::new(),
        auto_switch_enabled: true,
        max_usage_percent: Percent { bits: 80.0f32.to_bits() },
    });
    a.show_settings = true;
    let saved = a.apply_settings();
    assert_eq!(saved, Some(Some("/data".to_string())));
    assert_eq!(a.config.custom_atomcode_dir, None);
    assert_eq!(
        a.config.auto_switch_rules,
        AutoSwitchRules { enabled: true, max_usage_percent: Percent { bits: 80.0f32.to_bits() } }
    );
    assert_eq!(a.status_message, "Settings saved");
    assert!(a.settings_state.is_none() && !a.show_settings);
    a.show_settings = true;
    assert_eq!(a.apply_settings(), None);
    assert!(!a.show_settings);
}

#[test]
fn adopting_accounts_from_another_directory() {
    let mut a = app(vec![account("u1", "A", "a", true)], Some("u1"), "en_us");
    let mut other = AppConfig::default();
    other.accounts = vec![account("x", "X", "x", true), account("y", "Y", "y", true)];
    other.active_account_id = Some("y".to_string());
    a.adopt_accounts(other);
    assert_eq!(a.config.accounts.len(), 2);
    assert_eq!(a.config.active_account_id.as_deref(), Some("y"));
    assert_eq!(a.status_message, "Imported 2 accounts");
    assert_eq!(a.config.language, "en_us");
}

#[test]
fn account_lists_for_the_dialogs() {
    let a = app(vec![], None, "zh_cn");
    assert_eq!(a.account_list_text(&vec![]), "（无）");
    let list = vec![account("u1", "Alice", "alice", true), account("u2", "Bob", "bob", true)];
    assert_eq!(a.account_list_text(&list), "  - Alice（alice）\n  - Bob（bob）");
}

#[test]
fn export_reports_what_happened_to_the_file() {
    let mut a = app(vec![account("u1", "A", "a", true)], Some("u1"), "en_us");
    a.status_message = "before".to_string();
    a.finish_export(true, false);
    assert_eq!(a.status_message, "before");
    a.finish_export(false, false);
    assert_eq!(a.status_message, "Kept original file");
    a.finish_export(true, true);
    assert_eq!(a.status_message, "Export succeeded");
}
