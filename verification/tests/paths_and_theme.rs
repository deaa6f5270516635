use atomcode_switch::models::Percent;
use atomcode_switch::paths::{
    get_accounts_file_path, get_atomcode_dir, get_auth_file_path, get_custom_data_dir,
    get_data_dir_path, get_exe_dir, get_local_config_path, old_config_path, plan_migration,
    save_local_config, set_custom_data_dir, AppPath, LocalConfig, LocalConfigStore,
    MigrationStep,
};
use atomcode_switch::theme::{progress_bar_color, usage_color, ThemeColor};

fn parts(p: &AppPath) -> (String, Vec<String>) {
    (p.base.clone(), p.parts.clone())
}

fn some(s: &str) -> Option<String> {
    Some(s.to_string())
}

#[test]
fn atomcode_dir_prefers_the_custom_one() {
    assert_eq!(parts(&get_atomcode_dir(&some("/wsl/.atomcode"), &some("/home/u"))), ("/wsl/.atomcode".to_string(), vec![]));
    assert_eq!(parts(&get_atomcode_dir(&None, &some("/home/u"))), ("/home/u".to_string(), vec![".atomcode".to_string()]));
    assert_eq!(parts(&get_atomcode_dir(&None, &None)), (".atomcode".to_string(), vec![]));
}

#[test]
fn auth_file_is_in_the_atomcode_dir() {
    assert_eq!(
        parts(&get_auth_file_path(&None, &some("/home/u"))),
        ("/home/u".to_string(), vec![".atomcode".to_string(), "auth.toml".to_string()])
    );
    assert_eq!(parts(&get_auth_file_path(&some("D:\\x"), &None)), ("D:\\x".to_string(), vec!["auth.toml".to_string()]));
}

#[test]
fn data_files_follow_the_local_configuration() {
    let default = LocalConfig::default();
    assert_eq!(default.custom_data_dir, None);
    assert_eq!(
        parts(&get_accounts_file_path(&default, &some("/home/u"))),
        ("/home/u".to_string(), vec![".atomcode-switch".to_string(), "atomcode-accounts.yaml".to_string()])
    );
    assert_eq!(parts(&get_data_dir_path(&default, &None)), (".atomcode-switch".to_string(), vec![]));
    let custom = set_custom_data_dir(default, some("/data"));
    assert_eq!(get_custom_data_dir(&custom), some("/data"));
    assert_eq!(parts(&get_accounts_file_path(&custom, &some("/home/u"))), ("/data".to_string(), vec!["atomcode-accounts.yaml".to_string()]));
    assert_eq!(parts(&old_config_path(&"/home/u".to_string())), ("/home/u".to_string(), vec![".atomcode-switch".to_string(), "config.yaml".to_string()]));
}

#[test]
fn local_configuration_file_exists_only_when_needed() {
    match save_local_config(&LocalConfig { custom_data_dir: some("/data") }) {
        LocalConfigStore::Write(c) => assert_eq!(c.custom_data_dir, some("/data")),
        LocalConfigStore::Remove => panic!("expected a write"),
    }
    assert!(matches!(save_local_config(&LocalConfig { custom_data_dir: None }), LocalConfigStore::Remove));
    let cleared = set_custom_data_dir(LocalConfig { custom_data_dir: some("/data") }, None);
    assert_eq!(get_custom_data_dir(&cleared), None);
}

#[test]
fn program_dir_falls_back_to_the_working_directory() {
    assert_eq!(parts(&get_exe_dir(None)), (".".to_string(), vec![]));
    assert_eq!(parts(&get_local_config_path(get_exe_dir(some("/opt/app")))), ("/opt/app".to_string(), vec!["config.yaml".to_string()]));
}

#[test]
fn migration_only_moves_into_an_empty_place() {
    assert_eq!(plan_migration(false, false, None), MigrationStep::Nothing);
    assert_eq!(plan_migration(true, true, Some("accounts: []")), MigrationStep::Nothing);
    assert_eq!(plan_migration(true, false, None), MigrationStep::Nothing);
    assert_eq!(plan_migration(true, false, Some(" \n\t")), MigrationStep::RemoveOld);
    assert_eq!(plan_migration(true, false, Some("accounts: []")), MigrationStep::MoveIfValid);
}

fn pct(v: f32) -> Percent {
    Percent { bits: v.to_bits() }
}

#[test]
fn usage_colours_rise_with_usage() {
    assert_eq!(usage_color(pct(0.0)), ThemeColor::Green);
    assert_eq!(usage_color(pct(49.9)), ThemeColor::Green);
    assert_eq!(usage_color(pct(50.0)), ThemeColor::Yellow);
    assert_eq!(usage_color(pct(79.99)), ThemeColor::Yellow);
    assert_eq!(usage_color(pct(80.0)), ThemeColor::Red);
    assert_eq!(usage_color(pct(f32::NAN)), ThemeColor::Red);
    assert_eq!(progress_bar_color(pct(10.0)), ThemeColor::Blue);
    assert_eq!(progress_bar_color(pct(60.0)), ThemeColor::Yellow);
    assert_eq!(progress_bar_color(pct(100.0)), ThemeColor::Red);
    assert_eq!(progress_bar_color(pct(-5.0)), ThemeColor::Blue);
}
