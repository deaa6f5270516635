//! Account management core for the AtomCode account switcher.
pub mod account_ops;
pub mod countdown;
pub mod datetime;
pub mod en_us;
pub mod i18n;
pub mod lang;
pub mod login;
pub mod models;
pub mod paths;
pub mod text;
pub mod theme;
pub mod ui_state;
pub mod zh_cn;
