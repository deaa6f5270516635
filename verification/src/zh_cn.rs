//! Simplified Chinese user-interface texts.
use vstd::prelude::*;

use crate::text::{chars_of, eq_literal};

verus! {

/// The Simplified Chinese text stored under `key`, if the table has one.
pub open spec fn entry(key: Seq<char>) -> Option<Seq<char>> {
    if key == "toolbar_settings"@ {
        Some("设置"@)
    } else if key == "toolbar_sync"@ {
        Some("同步登录信息"@)
    } else if key == "bottom_accounts"@ {
        Some("{0} 个账户"@)
    } else if key == "status_normal"@ {
        Some("正常"@)
    } else if key == "status_error"@ {
        Some("异常"@)
    } else if key == "btn_export"@ {
        Some("导出"@)
    } else if key == "btn_clear_auth"@ {
        Some("清空登录"@)
    } else if key == "card_in_use"@ {
        Some("· 当前使用中"@)
    } else if key == "card_activated"@ {
        Some("已激活"@)
    } else if key == "card_update_info"@ {
        Some("更新信息"@)
    } else if key == "card_activate"@ {
        Some("激活"@)
    } else if key == "card_delete"@ {
        Some("删除"@)
    } else if key == "card_valid"@ {
        Some("● 正常"@)
    } else if key == "card_invalid"@ {
        Some("● 异常"@)
    } else if key == "card_remaining_days"@ {
        Some("剩余 {0} 天"@)
    } else if key == "card_usage_label"@ {
        Some("当前时间窗口用量"@)
    } else if key == "card_reset_label"@ {
        Some("重置: {0}"@)
    } else if key == "card_reset_countdown"@ {
        Some("重置: {0}（还有 {1} 分 {2} 秒）"@)
    } else if key == "card_reset_countdown_h"@ {
        Some("重置: {0}（还有 {1} 小时 {2} 分 {3} 秒）"@)
    } else if key == "card_reset_expired"@ {
        Some("重置: {0}（请更新）"@)
    } else if key == "empty_no_accounts"@ {
        Some("暂无账号"@)
    } else if key == "empty_hint"@ {
        Some("点击顶部 \"导入\" 按钮添加当前系统账号"@)
    } else if key == "empty_import"@ {
        Some("导入当前系统账号"@)
    } else if key == "settings_title"@ {
        Some("设置"@)
    } else if key == "settings_export_dir"@ {
        Some("导出目录"@)
    } else if key == "settings_export_dir_desc"@ {
        Some("自定义账号数据存储目录（默认为 ~/.atomcode-switch）"@)
    } else if key == "settings_browse"@ {
        Some("浏览…"@)
    } else if key == "settings_export_dir_hint"@ {
        Some("默认: ~/.atomcode-switch"@)
    } else if key == "settings_atomcode_dir"@ {
        Some("Atomcode 目录"@)
    } else if key == "settings_atomcode_dir_desc"@ {
        Some("自定义 auth.toml 保存目录（默认为 ~/.atomcode）"@)
    } else if key == "settings_atomcode_hint"@ {
        Some("默认: ~/.atomcode"@)
    } else if key == "settings_auto_switch"@ {
        Some("自动切换规则"@)
    } else if key == "settings_enable_auto_switch"@ {
        Some("启用自动切换"@)
    } else if key == "settings_usage_exceeds"@ {
        Some("用量超过"@)
    } else if key == "settings_auto_switch_to"@ {
        Some("时自动切换至用量最低的账号"@)
    } else if key == "btn_confirm"@ {
        Some("确定"@)
    } else if key == "btn_cancel"@ {
        Some("取消"@)
    } else if key == "update_title"@ {
        Some("更新账号信息"@)
    } else if key == "update_desc"@ {
        Some("可将下方文本框清空，点击「自动获取」自动填入："@)
    } else if key == "update_auto_fetch"@ {
        Some("自动获取"@)
    } else if key == "update_fetching"@ {
        Some("获取中..."@)
    } else if key == "update_cancel"@ {
        Some("取消"@)
    } else if key == "update_parse"@ {
        Some("解析并更新"@)
    } else if key == "update_hint"@ {
        Some("在此粘贴 /login 的输出，或点击上方「自动获取」自动填入..."@)
    } else if key == "delete_confirm_title"@ {
        Some("确认删除"@)
    } else if key == "delete_confirm_msg"@ {
        Some("确定要删除账号 \"{0}\" 吗？此操作不可撤销。"@)
    } else if key == "btn_delete"@ {
        Some("删除"@)
    } else if key == "dialog_select_data_dir"@ {
        Some("选择数据目录"@)
    } else if key == "dialog_select_atomcode_dir"@ {
        Some("选择 Atomcode 目录"@)
    } else if key == "dialog_export_title"@ {
        Some("导出配置"@)
    } else if key == "dialog_switch_dir_title"@ {
        Some("切换导出目录"@)
    } else if key == "dialog_overwrite_title"@ {
        Some("导出冲突"@)
    } else if key == "dialog_switch_dir_msg"@ {
        Some("目标目录已有 {0} 个账号：\n{1}\n\n当前程序有 {2} 个账号：\n{3}\n\n是否用目标目录的账号替换当前账号？"@)
    } else if key == "dialog_overwrite_msg"@ {
        Some("目标文件已有 {0} 个账号：\n{1}\n\n即将导出 {2} 个账号：\n{3}\n\n是否覆盖？"@)
    } else if key == "dialog_none"@ {
        Some("（无）"@)
    } else if key == "status_ready"@ {
        Some("就绪"@)
    } else if key == "status_auto_switched"@ {
        Some("自动切换至账号: {0}"@)
    } else if key == "status_switched"@ {
        Some("已切换至: {0}"@)
    } else if key == "status_switch_failed"@ {
        Some("切换失败: {0}"@)
    } else if key == "status_imported"@ {
        Some("导入成功: {0}"@)
    } else if key == "status_auth_not_found"@ {
        Some("未找到当前的 auth.toml 文件"@)
    } else if key == "status_account_deleted"@ {
        Some("账号已删除"@)
    } else if key == "status_no_active_account"@ {
        Some("没有激活的账号"@)
    } else if key == "status_active_account_not_found"@ {
        Some("未找到当前激活的账号数据"@)
    } else if key == "status_updated_from_paste"@ {
        Some("已从粘贴信息更新账号: {0}"@)
    } else if key == "status_updated_manual"@ {
        Some("账号信息已更新（手动粘贴）"@)
    } else if key == "status_fetching"@ {
        Some("正在获取登录信息..."@)
    } else if key == "status_fetched"@ {
        Some("已获取登录信息，点击「解析并更新」完成更新"@)
    } else if key == "status_fetch_failed"@ {
        Some("自动获取失败: 进程异常退出"@)
    } else if key == "status_paste_empty"@ {
        Some("粘贴内容为空"@)
    } else if key == "status_no_active_import"@ {
        Some("没有激活的账号，请先导入账号"@)
    } else if key == "status_updated"@ {
        Some("账号信息已更新"@)
    } else if key == "status_update_failed"@ {
        Some("更新失败: {0}"@)
    } else if key == "status_auth_cleared"@ {
        Some("已清空当前登录"@)
    } else if key == "status_clear_failed"@ {
        Some("清空失败: {0}"@)
    } else if key == "status_auto_fetch_cancelled"@ {
        Some("已取消自动获取"@)
    } else if key == "status_imported_count"@ {
        Some("已导入 {0} 个账号"@)
    } else if key == "status_kept_current"@ {
        Some("已保留当前账号"@)
    } else if key == "status_exported"@ {
        Some("导出成功"@)
    } else if key == "status_kept_original"@ {
        Some("已保留原文件"@)
    } else if key == "status_settings_saved"@ {
        Some("设置已保存"@)
    } else {
        None
    }
}

/// The Simplified Chinese text for `key`; a key the table lacks is handed back unchanged.
pub fn get(key: &str) -> (r: &str)
    ensures
        r@ == (match entry(key@) {
            Some(t) => t,
            None => key@,
        }),
{
    let k = chars_of(key);
    if eq_literal(&k, "toolbar_settings") {
        "设置"
    } else if eq_literal(&k, "toolbar_sync") {
        "同步登录信息"
    } else if eq_literal(&k, "bottom_accounts") {
        "{0} 个账户"
    } else if eq_literal(&k, "status_normal") {
        "正常"
    } else if eq_literal(&k, "status_error") {
        "异常"
    } else if eq_literal(&k, "btn_export") {
        "导出"
    } else if eq_literal(&k, "btn_clear_auth") {
        "清空登录"
    } else if eq_literal(&k, "card_in_use") {
        "· 当前使用中"
    } else if eq_literal(&k, "card_activated") {
        "已激活"
    } else if eq_literal(&k, "card_update_info") {
        "更新信息"
    } else if eq_literal(&k, "card_activate") {
        "激活"
    } else if eq_literal(&k, "card_delete") {
        "删除"
    } else if eq_literal(&k, "card_valid") {
        "● 正常"
    } else if eq_literal(&k, "card_invalid") {
        "● 异常"
    } else if eq_literal(&k, "card_remaining_days") {
        "剩余 {0} 天"
    } else if eq_literal(&k, "card_usage_label") {
        "当前时间窗口用量"
    } else if eq_literal(&k, "card_reset_label") {
        "重置: {0}"
    } else if eq_literal(&k, "card_reset_countdown") {
        "重置: {0}（还有 {1} 分 {2} 秒）"
    } else if eq_literal(&k, "card_reset_countdown_h") {
        "重置: {0}（还有 {1} 小时 {2} 分 {3} 秒）"
    } else if eq_literal(&k, "card_reset_expired") {
        "重置: {0}（请更新）"
    } else if eq_literal(&k, "empty_no_accounts") {
        "暂无账号"
    } else if eq_literal(&k, "empty_hint") {
        "点击顶部 \"导入\" 按钮添加当前系统账号"
    } else if eq_literal(&k, "empty_import") {
        "导入当前系统账号"
    } else if eq_literal(&k, "settings_title") {
        "设置"
    } else if eq_literal(&k, "settings_export_dir") {
        "导出目录"
    } else if eq_literal(&k, "settings_export_dir_desc") {
        "自定义账号数据存储目录（默认为 ~/.atomcode-switch）"
    } else if eq_literal(&k, "settings_browse") {
        "浏览…"
    } else if eq_literal(&k, "settings_export_dir_hint") {
        "默认: ~/.atomcode-switch"
    } else if eq_literal(&k, "settings_atomcode_dir") {
        "Atomcode 目录"
    } else if eq_literal(&k, "settings_atomcode_dir_desc") {
        "自定义 auth.toml 保存目录（默认为 ~/.atomcode）"
    } else if eq_literal(&k, "settings_atomcode_hint") {
        "默认: ~/.atomcode"
    } else if eq_literal(&k, "settings_auto_switch") {
        "自动切换规则"
    } else if eq_literal(&k, "settings_enable_auto_switch") {
        "启用自动切换"
    } else if eq_literal(&k, "settings_usage_exceeds") {
        "用量超过"
    } else if eq_literal(&k, "settings_auto_switch_to") {
        "时自动切换至用量最低的账号"
    } else if eq_literal(&k, "btn_confirm") {
        "确定"
    } else if eq_literal(&k, "btn_cancel") {
        "取消"
    } else if eq_literal(&k, "update_title") {
        "更新账号信息"
    } else if eq_literal(&k, "update_desc") {
        "可将下方文本框清空，点击「自动获取」自动填入："
    } else if eq_literal(&k, "update_auto_fetch") {
        "自动获取"
    } else if eq_literal(&k, "update_fetching") {
        "获取中..."
    } else if eq_literal(&k, "update_cancel") {
        "取消"
    } else if eq_literal(&k, "update_parse") {
        "解析并更新"
    } else if eq_literal(&k, "update_hint") {
        "在此粘贴 /login 的输出，或点击上方「自动获取」自动填入..."
    } else if eq_literal(&k, "delete_confirm_title") {
        "确认删除"
    } else if eq_literal(&k, "delete_confirm_msg") {
        "确定要删除账号 \"{0}\" 吗？此操作不可撤销。"
    } else if eq_literal(&k, "btn_delete") {
        "删除"
    } else if eq_literal(&k, "dialog_select_data_dir") {
        "选择数据目录"
    } else if eq_literal(&k, "dialog_select_atomcode_dir") {
        "选择 Atomcode 目录"
    } else if eq_literal(&k, "dialog_export_title") {
        "导出配置"
    } else if eq_literal(&k, "dialog_switch_dir_title") {
        "切换导出目录"
    } else if eq_literal(&k, "dialog_overwrite_title") {
        "导出冲突"
    } else if eq_literal(&k, "dialog_switch_dir_msg") {
        "目标目录已有 {0} 个账号：\n{1}\n\n当前程序有 {2} 个账号：\n{3}\n\n是否用目标目录的账号替换当前账号？"
    } else if eq_literal(&k, "dialog_overwrite_msg") {
        "目标文件已有 {0} 个账号：\n{1}\n\n即将导出 {2} 个账号：\n{3}\n\n是否覆盖？"
    } else if eq_literal(&k, "dialog_none") {
        "（无）"
    } else if eq_literal(&k, "status_ready") {
        "就绪"
    } else if eq_literal(&k, "status_auto_switched") {
        "自动切换至账号: {0}"
    } else if eq_literal(&k, "status_switched") {
        "已切换至: {0}"
    } else if eq_literal(&k, "status_switch_failed") {
        "切换失败: {0}"
    } else if eq_literal(&k, "status_imported") {
        "导入成功: {0}"
    } else if eq_literal(&k, "status_auth_not_found") {
        "未找到当前的 auth.toml 文件"
    } else if eq_literal(&k, "status_account_deleted") {
        "账号已删除"
    } else if eq_literal(&k, "status_no_active_account") {
        "没有激活的账号"
    } else if eq_literal(&k, "status_active_account_not_found") {
        "未找到当前激活的账号数据"
    } else if eq_literal(&k, "status_updated_from_paste") {
        "已从粘贴信息更新账号: {0}"
    } else if eq_literal(&k, "status_updated_manual") {
        "账号信息已更新（手动粘贴）"
    } else if eq_literal(&k, "status_fetching") {
        "正在获取登录信息..."
    } else if eq_literal(&k, "status_fetched") {
        "已获取登录信息，点击「解析并更新」完成更新"
    } else if eq_literal(&k, "status_fetch_failed") {
        "自动获取失败: 进程异常退出"
    } else if eq_literal(&k, "status_paste_empty") {
        "粘贴内容为空"
    } else if eq_literal(&k, "status_no_active_import") {
        "没有激活的账号，请先导入账号"
    } else if eq_literal(&k, "status_updated") {
        "账号信息已更新"
    } else if eq_literal(&k, "status_update_failed") {
        "更新失败: {0}"
    } else if eq_literal(&k, "status_auth_cleared") {
        "已清空当前登录"
    } else if eq_literal(&k, "status_clear_failed") {
        "清空失败: {0}"
    } else if eq_literal(&k, "status_auto_fetch_cancelled") {
        "已取消自动获取"
    } else if eq_literal(&k, "status_imported_count") {
        "已导入 {0} 个账号"
    } else if eq_literal(&k, "status_kept_current") {
        "已保留当前账号"
    } else if eq_literal(&k, "status_exported") {
        "导出成功"
    } else if eq_literal(&k, "status_kept_original") {
        "已保留原文件"
    } else if eq_literal(&k, "status_settings_saved") {
        "设置已保存"
    } else {
        key
    }
}

} // verus!
