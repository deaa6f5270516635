//! English user-interface texts.
use vstd::prelude::*;

use crate::text::{chars_of, eq_literal};

verus! {

/// The English text stored under `key`, if the table has one.
pub open spec fn entry(key: Seq<char>) -> Option<Seq<char>> {
    if key == "toolbar_settings"@ {
        Some("Settings"@)
    } else if key == "toolbar_sync"@ {
        Some("Sync Login Info"@)
    } else if key == "bottom_accounts"@ {
        Some("{0} accounts"@)
    } else if key == "status_normal"@ {
        Some("Normal"@)
    } else if key == "status_error"@ {
        Some("Error"@)
    } else if key == "btn_export"@ {
        Some("Export"@)
    } else if key == "btn_clear_auth"@ {
        Some("Clear Auth"@)
    } else if key == "card_in_use"@ {
        Some("· Currently in use"@)
    } else if key == "card_activated"@ {
        Some("Activated"@)
    } else if key == "card_update_info"@ {
        Some("Update Info"@)
    } else if key == "card_activate"@ {
        Some("Activate"@)
    } else if key == "card_delete"@ {
        Some("Delete"@)
    } else if key == "card_valid"@ {
        Some("● Valid"@)
    } else if key == "card_invalid"@ {
        Some("● Invalid"@)
    } else if key == "card_remaining_days"@ {
        Some("{0} days remaining"@)
    } else if key == "card_usage_label"@ {
        Some("Current window usage"@)
    } else if key == "card_reset_label"@ {
        Some("Reset: {0}"@)
    } else if key == "card_reset_countdown"@ {
        Some("Reset: {0} (in {1}m {2}s)"@)
    } else if key == "card_reset_countdown_h"@ {
        Some("Reset: {0} (in {1}h {2}m {3}s)"@)
    } else if key == "card_reset_expired"@ {
        Some("Reset: {0} (please update)"@)
    } else if key == "empty_no_accounts"@ {
        Some("No accounts"@)
    } else if key == "empty_hint"@ {
        Some("Click \"Import\" to add current system account"@)
    } else if key == "empty_import"@ {
        Some("Import Current Account"@)
    } else if key == "settings_title"@ {
        Some("Settings"@)
    } else if key == "settings_export_dir"@ {
        Some("Export Directory"@)
    } else if key == "settings_export_dir_desc"@ {
        Some("Custom data directory (default ~/.atomcode-switch)"@)
    } else if key == "settings_browse"@ {
        Some("Browse…"@)
    } else if key == "settings_export_dir_hint"@ {
        Some("Default: ~/.atomcode-switch"@)
    } else if key == "settings_atomcode_dir"@ {
        Some("Atomcode Directory"@)
    } else if key == "settings_atomcode_dir_desc"@ {
        Some("Custom auth.toml directory (default ~/.atomcode)"@)
    } else if key == "settings_atomcode_hint"@ {
        Some("Default: ~/.atomcode"@)
    } else if key == "settings_auto_switch"@ {
        Some("Auto-Switch Rules"@)
    } else if key == "settings_enable_auto_switch"@ {
        Some("Enable auto-switch"@)
    } else if key == "settings_usage_exceeds"@ {
        Some("Switch when usage exceeds"@)
    } else if key == "settings_auto_switch_to"@ {
        Some("to the lowest-usage account"@)
    } else if key == "btn_confirm"@ {
        Some("OK"@)
    } else if key == "btn_cancel"@ {
        Some("Cancel"@)
    } else if key == "update_title"@ {
        Some("Update Account Info"@)
    } else if key == "update_desc"@ {
        Some("Clear the text area and click \"Auto Fetch\" to fill automatically:"@)
    } else if key == "update_auto_fetch"@ {
        Some("Auto Fetch"@)
    } else if key == "update_fetching"@ {
        Some("Fetching..."@)
    } else if key == "update_cancel"@ {
        Some("Cancel"@)
    } else if key == "update_parse"@ {
        Some("Parse & Update"@)
    } else if key == "update_hint"@ {
        Some("Paste /login output here, or click \"Auto Fetch\" above..."@)
    } else if key == "delete_confirm_title"@ {
        Some("Confirm Delete"@)
    } else if key == "delete_confirm_msg"@ {
        Some("Are you sure to delete account \"{0}\"? This cannot be undone."@)
    } else if key == "btn_delete"@ {
        Some("Delete"@)
    } else if key == "dialog_select_data_dir"@ {
        Some("Select data directory"@)
    } else if key == "dialog_select_atomcode_dir"@ {
        Some("Select Atomcode directory"@)
    } else if key == "dialog_export_title"@ {
        Some("Export config"@)
    } else if key == "dialog_switch_dir_title"@ {
        Some("Switch export directory"@)
    } else if key == "dialog_overwrite_title"@ {
        Some("Export conflict"@)
    } else if key == "dialog_switch_dir_msg"@ {
        Some("Target directory has {0} accounts:\n{1}\n\nCurrent app has {2} accounts:\n{3}\n\nReplace current accounts with target directory ones?"@)
    } else if key == "dialog_overwrite_msg"@ {
        Some("Target file has {0} accounts:\n{1}\n\nExporting {2} accounts:\n{3}\n\nOverwrite?"@)
    } else if key == "dialog_none"@ {
        Some("(none)"@)
    } else if key == "status_ready"@ {
        Some("Ready"@)
    } else if key == "status_auto_switched"@ {
        Some("Auto-switched to: {0}"@)
    } else if key == "status_switched"@ {
        Some("Switched to: {0}"@)
    } else if key == "status_switch_failed"@ {
        Some("Switch failed: {0}"@)
    } else if key == "status_imported"@ {
        Some("Imported: {0}"@)
    } else if key == "status_auth_not_found"@ {
        Some("Auth file not found"@)
    } else if key == "status_account_deleted"@ {
        Some("Account deleted"@)
    } else if key == "status_no_active_account"@ {
        Some("No active account"@)
    } else if key == "status_active_account_not_found"@ {
        Some("Active account data not found"@)
    } else if key == "status_updated_from_paste"@ {
        Some("Updated from paste: {0}"@)
    } else if key == "status_updated_manual"@ {
        Some("Account info updated (manual paste)"@)
    } else if key == "status_fetching"@ {
        Some("Fetching login info..."@)
    } else if key == "status_fetched"@ {
        Some("Login info fetched, click \"Parse & Update\" to apply"@)
    } else if key == "status_fetch_failed"@ {
        Some("Auto-fetch failed: process exited abnormally"@)
    } else if key == "status_paste_empty"@ {
        Some("Paste content is empty"@)
    } else if key == "status_no_active_import"@ {
        Some("No active account, please import one first"@)
    } else if key == "status_updated"@ {
        Some("Account info updated"@)
    } else if key == "status_update_failed"@ {
        Some("Update failed: {0}"@)
    } else if key == "status_auth_cleared"@ {
        Some("Auth cleared"@)
    } else if key == "status_clear_failed"@ {
        Some("Clear failed: {0}"@)
    } else if key == "status_auto_fetch_cancelled"@ {
        Some("Auto-fetch cancelled"@)
    } else if key == "status_imported_count"@ {
        Some("Imported {0} accounts"@)
    } else if key == "status_kept_current"@ {
        Some("Kept current accounts"@)
    } else if key == "status_exported"@ {
        Some("Export succeeded"@)
    } else if key == "status_kept_original"@ {
        Some("Kept original file"@)
    } else if key == "status_settings_saved"@ {
        Some("Settings saved"@)
    } else {
        None
    }
}

/// The English text for `key`; a key the table lacks is handed back unchanged.
pub fn get(key: &str) -> (r: &str)
    ensures
        r@ == (match entry(key@) {
            Some(t) => t,
            None => key@,
        }),
{
    let k = chars_of(key);
    if eq_literal(&k, "toolbar_settings") {
        "Settings"
    } else if eq_literal(&k, "toolbar_sync") {
        "Sync Login Info"
    } else if eq_literal(&k, "bottom_accounts") {
        "{0} accounts"
    } else if eq_literal(&k, "status_normal") {
        "Normal"
    } else if eq_literal(&k, "status_error") {
        "Error"
    } else if eq_literal(&k, "btn_export") {
        "Export"
    } else if eq_literal(&k, "btn_clear_auth") {
        "Clear Auth"
    } else if eq_literal(&k, "card_in_use") {
        "· Currently in use"
    } else if eq_literal(&k, "card_activated") {
        "Activated"
    } else if eq_literal(&k, "card_update_info") {
        "Update Info"
    } else if eq_literal(&k, "card_activate") {
        "Activate"
    } else if eq_literal(&k, "card_delete") {
        "Delete"
    } else if eq_literal(&k, "card_valid") {
        "● Valid"
    } else if eq_literal(&k, "card_invalid") {
        "● Invalid"
    } else if eq_literal(&k, "card_remaining_days") {
        "{0} days remaining"
    } else if eq_literal(&k, "card_usage_label") {
        "Current window usage"
    } else if eq_literal(&k, "card_reset_label") {
        "Reset: {0}"
    } else if eq_literal(&k, "card_reset_countdown") {
        "Reset: {0} (in {1}m {2}s)"
    } else if eq_literal(&k, "card_reset_countdown_h") {
        "Reset: {0} (in {1}h {2}m {3}s)"
    } else if eq_literal(&k, "card_reset_expired") {
        "Reset: {0} (please update)"
    } else if eq_literal(&k, "empty_no_accounts") {
        "No accounts"
    } else if eq_literal(&k, "empty_hint") {
        "Click \"Import\" to add current system account"
    } else if eq_literal(&k, "empty_import") {
        "Import Current Account"
    } else if eq_literal(&k, "settings_title") {
        "Settings"
    } else if eq_literal(&k, "settings_export_dir") {
        "Export Directory"
    } else if eq_literal(&k, "settings_export_dir_desc") {
        "Custom data directory (default ~/.atomcode-switch)"
    } else if eq_literal(&k, "settings_browse") {
        "Browse…"
    } else if eq_literal(&k, "settings_export_dir_hint") {
        "Default: ~/.atomcode-switch"
    } else if eq_literal(&k, "settings_atomcode_dir") {
        "Atomcode Directory"
    } else if eq_literal(&k, "settings_atomcode_dir_desc") {
        "Custom auth.toml directory (default ~/.atomcode)"
    } else if eq_literal(&k, "settings_atomcode_hint") {
        "Default: ~/.atomcode"
    } else if eq_literal(&k, "settings_auto_switch") {
        "Auto-Switch Rules"
    } else if eq_literal(&k, "settings_enable_auto_switch") {
        "Enable auto-switch"
    } else if eq_literal(&k, "settings_usage_exceeds") {
        "Switch when usage exceeds"
    } else if eq_literal(&k, "settings_auto_switch_to") {
        "to the lowest-usage account"
    } else if eq_literal(&k, "btn_confirm") {
        "OK"
    } else if eq_literal(&k, "btn_cancel") {
        "Cancel"
    } else if eq_literal(&k, "update_title") {
        "Update Account Info"
    } else if eq_literal(&k, "update_desc") {
        "Clear the text area and click \"Auto Fetch\" to fill automatically:"
    } else if eq_literal(&k, "update_auto_fetch") {
        "Auto Fetch"
    } else if eq_literal(&k, "update_fetching") {
        "Fetching..."
    } else if eq_literal(&k, "update_cancel") {
        "Cancel"
    } else if eq_literal(&k, "update_parse") {
        "Parse & Update"
    } else if eq_literal(&k, "update_hint") {
        "Paste /login output here, or click \"Auto Fetch\" above..."
    } else if eq_literal(&k, "delete_confirm_title") {
        "Confirm Delete"
    } else if eq_literal(&k, "delete_confirm_msg") {
        "Are you sure to delete account \"{0}\"? This cannot be undone."
    } else if eq_literal(&k, "btn_delete") {
        "Delete"
    } else if eq_literal(&k, "dialog_select_data_dir") {
        "Select data directory"
    } else if eq_literal(&k, "dialog_select_atomcode_dir") {
        "Select Atomcode directory"
    } else if eq_literal(&k, "dialog_export_title") {
        "Export config"
    } else if eq_literal(&k, "dialog_switch_dir_title") {
        "Switch export directory"
    } else if eq_literal(&k, "dialog_overwrite_title") {
        "Export conflict"
    } else if eq_literal(&k, "dialog_switch_dir_msg") {
        "Target directory has {0} accounts:\n{1}\n\nCurrent app has {2} accounts:\n{3}\n\nReplace current accounts with target directory ones?"
    } else if eq_literal(&k, "dialog_overwrite_msg") {
        "Target file has {0} accounts:\n{1}\n\nExporting {2} accounts:\n{3}\n\nOverwrite?"
    } else if eq_literal(&k, "dialog_none") {
        "(none)"
    } else if eq_literal(&k, "status_ready") {
        "Ready"
    } else if eq_literal(&k, "status_auto_switched") {
        "Auto-switched to: {0}"
    } else if eq_literal(&k, "status_switched") {
        "Switched to: {0}"
    } else if eq_literal(&k, "status_switch_failed") {
        "Switch failed: {0}"
    } else if eq_literal(&k, "status_imported") {
        "Imported: {0}"
    } else if eq_literal(&k, "status_auth_not_found") {
        "Auth file not found"
    } else if eq_literal(&k, "status_account_deleted") {
        "Account deleted"
    } else if eq_literal(&k, "status_no_active_account") {
        "No active account"
    } else if eq_literal(&k, "status_active_account_not_found") {
        "Active account data not found"
    } else if eq_literal(&k, "status_updated_from_paste") {
        "Updated from paste: {0}"
    } else if eq_literal(&k, "status_updated_manual") {
        "Account info updated (manual paste)"
    } else if eq_literal(&k, "status_fetching") {
        "Fetching login info..."
    } else if eq_literal(&k, "status_fetched") {
        "Login info fetched, click \"Parse & Update\" to apply"
    } else if eq_literal(&k, "status_fetch_failed") {
        "Auto-fetch failed: process exited abnormally"
    } else if eq_literal(&k, "status_paste_empty") {
        "Paste content is empty"
    } else if eq_literal(&k, "status_no_active_import") {
        "No active account, please import one first"
    } else if eq_literal(&k, "status_updated") {
        "Account info updated"
    } else if eq_literal(&k, "status_update_failed") {
        "Update failed: {0}"
    } else if eq_literal(&k, "status_auth_cleared") {
        "Auth cleared"
    } else if eq_literal(&k, "status_clear_failed") {
        "Clear failed: {0}"
    } else if eq_literal(&k, "status_auto_fetch_cancelled") {
        "Auto-fetch cancelled"
    } else if eq_literal(&k, "status_imported_count") {
        "Imported {0} accounts"
    } else if eq_literal(&k, "status_kept_current") {
        "Kept current accounts"
    } else if eq_literal(&k, "status_exported") {
        "Export succeeded"
    } else if eq_literal(&k, "status_kept_original") {
        "Kept original file"
    } else if eq_literal(&k, "status_settings_saved") {
        "Settings saved"
    } else {
        key
    }
}

} // verus!
