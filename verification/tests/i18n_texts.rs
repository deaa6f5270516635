use atomcode_switch::en_us;
use atomcode_switch::i18n::I18n;
use atomcode_switch::lang::Language;
use atomcode_switch::zh_cn;

#[test]
fn english_table_gives_its_texts() {
    assert_eq!(en_us::get("toolbar_settings"), "Settings");
    assert_eq!(en_us::get("card_reset_expired"), "Reset: {0} (please update)");
    assert_eq!(en_us::get("status_settings_saved"), "Settings saved");
}

#[test]
fn chinese_table_gives_its_texts() {
    assert_eq!(zh_cn::get("toolbar_settings"), "设置");
    assert_eq!(zh_cn::get("status_auto_switched"), "自动切换至账号: {0}");
    assert_eq!(zh_cn::get("card_reset_expired"), "重置: {0}（请更新）");
    assert_eq!(zh_cn::get("card_reset_countdown_h"), "重置: {0}（还有 {1} 小时 {2} 分 {3} 秒）");
}

#[test]
fn unknown_key_comes_back_unchanged() {
    assert_eq!(en_us::get("no_such_key"), "no_such_key");
    assert_eq!(zh_cn::get("no_such_key"), "no_such_key");
    assert_eq!(en_us::get(""), "");
}

#[test]
fn language_names_round_trip() {
    assert_eq!(Language::from_str(Language::ZhCn.as_str()), Language::ZhCn);
    assert_eq!(Language::from_str(Language::EnUs.as_str()), Language::EnUs);
    assert_eq!(Language::ZhCn.as_str(), "zh_cn");
    assert_eq!(Language::EnUs.as_str(), "en_us");
}

#[test]
fn language_names_are_read_loosely() {
    assert_eq!(Language::from_str("en"), Language::EnUs);
    assert_eq!(Language::from_str("  English \n"), Language::EnUs);
    assert_eq!(Language::from_str("EN-US"), Language::EnUs);
    assert_eq!(Language::from_str("En_Us"), Language::EnUs);
    assert_eq!(Language::from_str(""), Language::ZhCn);
    assert_eq!(Language::from_str("fr"), Language::ZhCn);
    assert_eq!(Language::from_str("eng"), Language::ZhCn);
    // Unicode white space around the name is trimmed too.
    assert_eq!(Language::from_str("\u{3000}en\u{a0}"), Language::EnUs);
}

#[test]
fn toggling_twice_gives_the_language_back() {
    assert_eq!(Language::ZhCn.toggled(), Language::EnUs);
    assert_eq!(Language::EnUs.toggled(), Language::ZhCn);
    assert_eq!(Language::ZhCn.toggled().toggled(), Language::ZhCn);
}

#[test]
fn lookup_goes_through_the_language_table() {
    assert_eq!(Language::EnUs.lookup("btn_export"), "Export");
    assert_eq!(Language::ZhCn.lookup("btn_export"), "导出");
}

#[test]
fn placeholders_are_filled_in() {
    let en = I18n::load(Language::EnUs);
    assert_eq!(en.language(), Language::EnUs);
    assert_eq!(en.t1("status_switched", "Alice"), "Switched to: Alice");
    assert_eq!(en.t3("card_reset_countdown", "21:04", "5", "9"), "Reset: 21:04 (in 5m 9s)");
    assert_eq!(
        en.t4("card_reset_countdown_h", "2026-06-13 21:04", "23", "35", "59"),
        "Reset: 2026-06-13 21:04 (in 23h 35m 59s)"
    );
    assert_eq!(en.t2("bottom_accounts", "3", "x"), "3 accounts");
    let zh = I18n::load(Language::ZhCn);
    assert_eq!(zh.t1("bottom_accounts", "3"), "3 个账户");
    assert_eq!(zh.t3("card_reset_countdown", "21:04", "5", "9"), "重置: 21:04（还有 5 分 9 秒）");
}

#[test]
fn texts_without_arguments_keep_their_placeholders() {
    let en = I18n::load(Language::EnUs);
    assert_eq!(en.t0("status_switched"), "Switched to: {0}");
    assert_eq!(en.raw("status_switched"), "Switched to: {0}");
    assert_eq!(en.t("status_switched", &[]), "Switched to: {0}");
    assert_eq!(en.t("toolbar_sync", &["unused"]), "Sync Login Info");
}

#[test]
fn every_occurrence_is_replaced_in_argument_order() {
    let en = I18n::load(Language::EnUs);
    // An argument that itself holds a later placeholder is filled in again.
    assert_eq!(en.t("{0}-{1}-{0}", &["a{1}", "b"]), "ab-b-ab");
    assert_eq!(en.t("{1}{0}", &["x", "y"]), "yx");
    assert_eq!(en.t("{10}{1}", &["a", "b", "c", "d", "e", "f", "g", "h", "i", "j", "k"]), "kb");
}

#[test]
fn dialog_messages_fill_four_places() {
    let en = I18n::load(Language::EnUs);
    assert_eq!(
        en.t4("dialog_overwrite_msg", "1", "  - a（b）", "0", "(none)"),
        "Target file has 1 accounts:\n  - a（b）\n\nExporting 0 accounts:\n(none)\n\nOverwrite?"
    );
}
