//! The switcher's state and the operations on its accounts: synchronising with the
//! current `auth.toml`, switching, importing, deleting, automatic switching and
//! updating an account from the output of `/login`.
//!
//! Reading and writing files is the application's part: an operation that needs the
//! current `auth.toml` takes what was read, one that writes hands back what to write,
//! and one that changes the configuration says whether it must be saved.
use vstd::prelude::*;

use crate::datetime::{
    combine_reset_datetime, default_reset_moment, format_minute_stamp, minute_stamp,
    LocalDateTime, MAX_YEAR,
};
use crate::i18n::{substitute, I18n};
use crate::lang::{text_for, Language};
use crate::login::{apply_fields, login_name, parsed_fields_applied, read_login_name, usage_text};
use crate::models::{
    accounts_view, opt_view, AccountView, AppConfig, AuthToml, AuthView, ConfigView,
    ManagedAccount, Percent, PERCENT_ZERO_BITS,
};
use crate::text::{str_eq, string_from};

verus! {

// ---------------------------------------------------------------------------
// The state
// ---------------------------------------------------------------------------

/// The settings dialog while it is open.
#[derive(Debug, Clone)]
pub struct SettingsState {
    pub data_dir: String,
    pub atomcode_dir: String,
    pub auto_switch_enabled: bool,
    pub max_usage_percent: Percent,
}

pub struct SettingsView {
    pub data_dir: Seq<char>,
    pub atomcode_dir: Seq<char>,
    pub auto_switch_enabled: bool,
    pub max_usage_percent: Percent,
}

impl View for SettingsState {
    type V = SettingsView;

    open spec fn view(&self) -> SettingsView {
        SettingsView {
            data_dir: self.data_dir@,
            atomcode_dir: self.atomcode_dir@,
            auto_switch_enabled: self.auto_switch_enabled,
            max_usage_percent: self.max_usage_percent,
        }
    }
}

/// The switcher: its configuration, interface language and what the window shows.
pub struct AtomcodeSwitchApp {
    pub config: AppConfig,
    pub i18n: I18n,
    pub settings_state: Option<SettingsState>,
    pub status_message: String,
    pub show_settings: bool,
    pub delete_confirm_id: Option<String>,
    pub show_manual_update: bool,
    pub manual_update_text: String,
    pub is_auto_updating: bool,
}

pub struct AppView {
    pub config: ConfigView,
    pub language: Language,
    pub settings: Option<SettingsView>,
    pub status: Seq<char>,
    pub show_settings: bool,
    pub delete_confirm_id: Option<Seq<char>>,
    pub show_manual_update: bool,
    pub manual_update_text: Seq<char>,
    pub is_auto_updating: bool,
}

pub open spec fn settings_view(s: Option<SettingsState>) -> Option<SettingsView> {
    match s {
        Some(x) => Some(x@),
        None => None,
    }
}

impl View for AtomcodeSwitchApp {
    type V = AppView;

    open spec fn view(&self) -> AppView {
        AppView {
            config: self.config@,
            language: self.i18n@,
            settings: settings_view(self.settings_state),
            status: self.status_message@,
            show_settings: self.show_settings,
            delete_confirm_id: opt_view(self.delete_confirm_id),
            show_manual_update: self.show_manual_update,
            manual_update_text: self.manual_update_text@,
            is_auto_updating: self.is_auto_updating,
        }
    }
}

/// The text that `lang` shows for `key`, with `args` filled in.
pub open spec fn message(lang: Language, key: Seq<char>, args: Seq<Seq<char>>) -> Seq<char> {
    substitute(text_for(lang, key), args)
}

// ---------------------------------------------------------------------------
// Finding accounts
// ---------------------------------------------------------------------------

/// The first account from position `i` on whose id is `id`.
pub open spec fn find_id_from(s: Seq<AccountView>, id: Seq<char>, i: int) -> Option<int>
    decreases s.len() - i,
{
    if i < 0 || i >= s.len() {
        None
    } else if s[i].id == id {
        Some(i)
    } else {
        find_id_from(s, id, i + 1)
    }
}

/// The position of the first account whose id is `id`.
pub open spec fn index_of_id(s: Seq<AccountView>, id: Seq<char>) -> Option<int> {
    find_id_from(s, id, 0)
}

pub proof fn lemma_find_id_from(s: Seq<AccountView>, id: Seq<char>, i: int)
    requires
        0 <= i,
    ensures
        find_id_from(s, id, i) matches Some(k) ==> i <= k < s.len() && s[k].id == id && forall|
            j: int,
        | i <= j < k ==> s[j].id != id,
        find_id_from(s, id, i) is None ==> forall|j: int| i <= j < s.len() ==> s[j].id != id,
    decreases s.len() - i,
{
    if i < s.len() && s[i].id != id {
        lemma_find_id_from(s, id, i + 1);
    }
}

/// Does some account carry the id `id`?
pub open spec fn has_id(s: Seq<AccountView>, id: Seq<char>) -> bool {
    exists|j: int| 0 <= j < s.len() && s[j].id == id
}

pub proof fn lemma_index_of_id(s: Seq<AccountView>, id: Seq<char>)
    ensures
        index_of_id(s, id) matches Some(k) ==> 0 <= k < s.len() && s[k].id == id && forall|
            j: int,
        | 0 <= j < k ==> s[j].id != id,
        index_of_id(s, id) is None <==> !has_id(s, id),
{
    lemma_find_id_from(s, id, 0);
}

/// The position of the first account with id `id`.
pub fn position_of_id(accounts: &Vec<ManagedAccount>, id: &str) -> (r: Option<usize>)
    ensures
        match r {
            Some(k) => index_of_id(accounts_view(accounts@), id@) == Some(k as int) && k
                < accounts.len() && accounts@[k as int].id@ == id@,
            None => index_of_id(accounts_view(accounts@), id@) is None && !has_id(
                accounts_view(accounts@),
                id@,
            ),
        },
{
    let ghost s = accounts_view(accounts@);
    proof {
        lemma_index_of_id(s, id@);
    }
    let mut i: usize = 0;
    while i < accounts.len()
        invariant
            i <= accounts.len(),
            s == accounts_view(accounts@),
            index_of_id(s, id@) == find_id_from(s, id@, i as int),
        decreases accounts.len() - i,
    {
        if str_eq(accounts[i].id.as_str(), id) {
            return Some(i);
        }
        i = i + 1;
    }
    None
}

/// The first account from `i` on that is named, or has the user name, `n`.
pub open spec fn find_name_from(s: Seq<AccountView>, n: Seq<char>, i: int) -> Option<int>
    decreases s.len() - i,
{
    if i < 0 || i >= s.len() {
        None
    } else if s[i].auth_data.user.name == n || s[i].auth_data.user.username == n {
        Some(i)
    } else {
        find_name_from(s, n, i + 1)
    }
}

pub proof fn lemma_find_name_from(s: Seq<AccountView>, n: Seq<char>, i: int)
    requires
        0 <= i,
    ensures
        find_name_from(s, n, i) matches Some(k) ==> i <= k < s.len(),
    decreases s.len() - i,
{
    if i < s.len() && !(s[i].auth_data.user.name == n || s[i].auth_data.user.username == n) {
        lemma_find_name_from(s, n, i + 1);
    }
}

fn position_of_name(accounts: &Vec<ManagedAccount>, n: &str) -> (r: Option<usize>)
    ensures
        match r {
            Some(k) => find_name_from(accounts_view(accounts@), n@, 0) == Some(k as int) && k
                < accounts.len(),
            None => find_name_from(accounts_view(accounts@), n@, 0) is None,
        },
{
    let ghost s = accounts_view(accounts@);
    let mut i: usize = 0;
    while i < accounts.len()
        invariant
            i <= accounts.len(),
            s == accounts_view(accounts@),
            find_name_from(s, n@, 0) == find_name_from(s, n@, i as int),
        decreases accounts.len() - i,
    {
        if str_eq(accounts[i].auth_data.user.name.as_str(), n) || str_eq(
            accounts[i].auth_data.user.username.as_str(),
            n,
        ) {
            return Some(i);
        }
        i = i + 1;
    }
    None
}

/// The active account id names an account, or no account is active.
pub open spec fn active_consistent(c: ConfigView) -> bool {
    match c.active_account_id {
        Some(id) => has_id(c.accounts, id),
        None => true,
    }
}

// ---------------------------------------------------------------------------
// Automatic switching
// ---------------------------------------------------------------------------

/// An account that automatic switching may move to: valid, and not the active one.
pub open spec fn eligible(a: AccountView, active: Seq<char>) -> bool {
    a.is_valid && a.id != active
}

/// The candidate among the first `n` accounts: scanning in order, an eligible account
/// replaces the candidate so far when there is none yet or when its usage is lower.
pub open spec fn best_candidate(s: Seq<AccountView>, active: Seq<char>, n: int) -> Option<int>
    decreases n,
{
    if n <= 0 {
        None
    } else {
        let prev = best_candidate(s, active, n - 1);
        let a = s[n - 1];
        if eligible(a, active) && (prev is None || a.usage_percent.lt_spec(
            s[prev->0].usage_percent,
        )) {
            Some(n - 1)
        } else {
            prev
        }
    }
}

/// The account that automatic switching moves to: when it is enabled and the active
/// account's usage exceeds the threshold, the eligible account of lowest usage.
pub open spec fn auto_switch_choice(c: ConfigView) -> Option<int> {
    if !c.auto_switch_rules.enabled {
        None
    } else {
        match c.active_account_id {
            None => None,
            Some(id) => match index_of_id(c.accounts, id) {
                None => None,
                Some(i) => if c.accounts[i].usage_percent.gt_spec(
                    c.auto_switch_rules.max_usage_percent,
                ) {
                    best_candidate(c.accounts, id, c.accounts.len() as int)
                } else {
                    None
                },
            },
        }
    }
}

/// Switching is enabled and the active account's usage exceeds the threshold.
pub open spec fn switch_due(c: ConfigView) -> bool {
    &&& c.auto_switch_rules.enabled
    &&& c.active_account_id is Some
    &&& index_of_id(c.accounts, c.active_account_id->0) matches Some(i)
    &&& c.accounts[i].usage_percent.gt_spec(c.auto_switch_rules.max_usage_percent)
}

pub proof fn lemma_best_candidate_bound(s: Seq<AccountView>, active: Seq<char>, n: int)
    requires
        0 <= n <= s.len(),
    ensures
        best_candidate(s, active, n) matches Some(k) ==> 0 <= k < n && eligible(s[k], active),
        best_candidate(s, active, n) is None ==> forall|j: int|
            0 <= j < n ==> !eligible(#[trigger] s[j], active),
    decreases n,
{
    if n > 0 {
        lemma_best_candidate_bound(s, active, n - 1);
    }
}

/// When no eligible account has a usage that is not a number, the candidate has the
/// lowest usage of all eligible accounts, and strictly lower than any before it: it is
/// the first account of lowest usage.
pub proof fn lemma_best_candidate_is_first_minimum(s: Seq<AccountView>, active: Seq<char>, n: int)
    requires
        0 <= n <= s.len(),
        forall|j: int|
            0 <= j < n && eligible(#[trigger] s[j], active) ==> !s[j].usage_percent.is_nan(),
    ensures
        best_candidate(s, active, n) matches Some(k) ==> (forall|j: int|
            0 <= j < n && eligible(#[trigger] s[j], active) ==> s[k].usage_percent.ordinal()
                <= s[j].usage_percent.ordinal()) && (forall|j: int|
            0 <= j < k && eligible(#[trigger] s[j], active) ==> s[k].usage_percent.ordinal()
                < s[j].usage_percent.ordinal()),
    decreases n,
{
    if n > 0 {
        lemma_best_candidate_is_first_minimum(s, active, n - 1);
        lemma_best_candidate_bound(s, active, n - 1);
    }
}

/// Automatic switching moves only to a valid account other than the active one, and
/// to one whenever such an account exists once the active account's usage exceeds the
/// enabled threshold; it never moves while that usage stays at or below the threshold;
/// when no usage is not a number, it moves to the first account of lowest usage.
pub proof fn law_auto_switch_choice(c: ConfigView)
    ensures
        auto_switch_choice(c) matches Some(k) ==> 0 <= k < c.accounts.len() && eligible(
            c.accounts[k],
            c.active_account_id->0,
        ) && c.auto_switch_rules.enabled,
        (switch_due(c) && exists|j: int|
            0 <= j < c.accounts.len() && eligible(#[trigger] c.accounts[j], c.active_account_id->0))
            ==> auto_switch_choice(c) is Some,
        !switch_due(c) ==> auto_switch_choice(c) is None,
        (auto_switch_choice(c) matches Some(k) && forall|j: int|
            0 <= j < c.accounts.len() && eligible(#[trigger] c.accounts[j], c.active_account_id->0)
                ==> !c.accounts[j].usage_percent.is_nan()) ==> forall|j: int|
            0 <= j < c.accounts.len() && eligible(#[trigger] c.accounts[j], c.active_account_id->0)
                ==> c.accounts[auto_switch_choice(c)->0].usage_percent.ordinal()
                <= c.accounts[j].usage_percent.ordinal() && (j < auto_switch_choice(c)->0
                ==> c.accounts[auto_switch_choice(c)->0].usage_percent.ordinal()
                < c.accounts[j].usage_percent.ordinal()),
{
    if let Some(id) = c.active_account_id {
        let n = c.accounts.len() as int;
        lemma_best_candidate_bound(c.accounts, id, n);
        if forall|j: int|
            0 <= j < n && eligible(#[trigger] c.accounts[j], id)
                ==> !c.accounts[j].usage_percent.is_nan() {
            lemma_best_candidate_is_first_minimum(c.accounts, id, n);
        }
    }
}

// ---------------------------------------------------------------------------
// Deleting
// ---------------------------------------------------------------------------

/// The accounts whose id is not `id`, in their order.
pub open spec fn without_id(s: Seq<AccountView>, id: Seq<char>) -> Seq<AccountView>
    decreases s.len(),
{
    if s.len() == 0 {
        s
    } else if s.last().id == id {
        without_id(s.drop_last(), id)
    } else {
        without_id(s.drop_last(), id).push(s.last())
    }
}

pub proof fn lemma_without_id(s: Seq<AccountView>, id: Seq<char>)
    ensures
        forall|j: int|
            0 <= j < without_id(s, id).len() ==> #[trigger] without_id(s, id)[j].id != id,
        forall|j: int|
            0 <= j < s.len() && s[j].id != id ==> exists|k: int|
                0 <= k < without_id(s, id).len() && #[trigger] without_id(s, id)[k] == s[j],
        forall|k: int|
            0 <= k < without_id(s, id).len() ==> exists|j: int|
                0 <= j < s.len() && s[j] == #[trigger] without_id(s, id)[k],
    decreases s.len(),
{
    if s.len() > 0 {
        let t = s.drop_last();
        lemma_without_id(t, id);
        assert forall|j: int| 0 <= j < s.len() && s[j].id != id implies exists|k: int|
            0 <= k < without_id(s, id).len() && #[trigger] without_id(s, id)[k] == s[j] by {
            if j < s.len() - 1 {
                assert(t[j] == s[j]);
                let k = choose|k: int|
                    0 <= k < without_id(t, id).len() && #[trigger] without_id(t, id)[k] == t[j];
                assert(without_id(s, id)[k] == s[j]);
            } else {
                assert(without_id(s, id)[without_id(s, id).len() - 1] == s[j]);
            }
        }
        assert forall|k: int| 0 <= k < without_id(s, id).len() implies exists|j: int|
            0 <= j < s.len() && s[j] == #[trigger] without_id(s, id)[k] by {
            if k < without_id(t, id).len() {
                let j = choose|j: int|
                    0 <= j < t.len() && t[j] == #[trigger] without_id(t, id)[k];
                assert(s[j] == t[j]);
            } else {
                assert(s[s.len() - 1] == without_id(s, id)[k]);
            }
        }
    }
}

// ---------------------------------------------------------------------------
// Operations
// ---------------------------------------------------------------------------

/// The configuration after deleting the accounts with id `id`: when the active account
/// goes, the first remaining account becomes active, or none when none remains.
pub open spec fn deleted_config(c: ConfigView, id: Seq<char>) -> ConfigView {
    let rest = without_id(c.accounts, id);
    let active = if c.active_account_id == Some(id) {
        if rest.len() > 0 {
            Some(rest[0].id)
        } else {
            None
        }
    } else {
        c.active_account_id
    };
    with_accounts_active(c, rest, active)
}

/// `old` with only the status replaced by `status`.
pub open spec fn with_status(old: AppView, status: Seq<char>) -> AppView {
    AppView { status: status, ..old }
}

/// `old` with only the configuration replaced by `c`.
pub open spec fn with_config(old: AppView, c: ConfigView) -> AppView {
    AppView { config: c, ..old }
}

/// `c` with the active account id `active`.
pub open spec fn with_active(c: ConfigView, active: Option<Seq<char>>) -> ConfigView {
    ConfigView { active_account_id: active, ..c }
}

/// `c` with the accounts `accounts` and the active account id `active`.
pub open spec fn with_accounts_active(
    c: ConfigView,
    accounts: Seq<AccountView>,
    active: Option<Seq<char>>,
) -> ConfigView {
    ConfigView { accounts: accounts, active_account_id: active, ..c }
}

/// `old` with only the configuration replaced by `c` and the status by `status`.
pub open spec fn with_config_status(old: AppView, c: ConfigView, status: Seq<char>) -> AppView {
    AppView { config: c, status: status, ..old }
}

/// The account `a` with the authentication data `auth`.
pub open spec fn with_auth(a: AccountView, auth: AuthView) -> AccountView {
    AccountView { auth_data: auth, ..a }
}

/// The configuration after `auth.toml` was read as `auth`: the account with that
/// user's id takes the data and becomes active; nothing changes for an unknown user.
pub open spec fn synced(c: ConfigView, auth: AuthView) -> ConfigView {
    match index_of_id(c.accounts, auth.user.id) {
        Some(i) => ConfigView {
            accounts: c.accounts.update(i, with_auth(c.accounts[i], auth)),
            active_account_id: Some(auth.user.id),
            ..c
        },
        None => c,
    }
}

/// The account that importing `auth` at `now` adds when no account has its user's id.
pub open spec fn imported_account(auth: AuthView, now: LocalDateTime) -> AccountView {
    AccountView {
        id: auth.user.id,
        auth_data: auth,
        plan_name: "CodingPlan Lite"@,
        usage_percent: Percent { bits: PERCENT_ZERO_BITS },
        reset_time: minute_stamp(default_reset_moment(now)),
        is_valid: true,
        remaining_days: 27,
        last_updated: minute_stamp(now),
    }
}

/// The configuration after importing `auth` at `now`: the account with that user's id
/// takes the data and the time of update, or a new account is appended; it becomes
/// active.
pub open spec fn imported(c: ConfigView, auth: AuthView, now: LocalDateTime) -> ConfigView {
    let accounts = match index_of_id(c.accounts, auth.user.id) {
        Some(i) => c.accounts.update(
            i,
            AccountView { auth_data: auth, last_updated: minute_stamp(now), ..c.accounts[i] },
        ),
        None => c.accounts.push(imported_account(auth, now)),
    };
    ConfigView { accounts, active_account_id: Some(auth.user.id), ..c }
}

/// The account `a` after `/login` output `t` was applied at `now`: the fields that
/// the output states taken over (`usage` being the number read from its usage figure),
/// marked valid and updated at `now`.
pub open spec fn login_account(
    a: AccountView,
    t: Seq<char>,
    now: LocalDateTime,
    usage: Option<Percent>,
) -> AccountView {
    AccountView {
        plan_name: match crate::login::plan_from(t) {
            Some(p) => p,
            None => a.plan_name,
        },
        remaining_days: match crate::login::days_from(t) {
            Some(d) => d,
            None => a.remaining_days,
        },
        usage_percent: match usage {
            Some(u) => u,
            None => a.usage_percent,
        },
        reset_time: match crate::login::reset_from(t, now) {
            Some(r) => r,
            None => a.reset_time,
        },
        is_valid: true,
        last_updated: minute_stamp(now),
        ..a
    }
}

/// Which account `/login` output updates: the one it is logged in as when that is not
/// the active account's name and some account has it as name or user name, else the
/// active account (at `ai`). The flag says whether the logged-in name decided it.
pub open spec fn login_target(c: ConfigView, ai: int, t: Seq<char>) -> (int, bool) {
    match login_name(t) {
        Some(n) => if c.accounts[ai].auth_data.user.name != n {
            match find_name_from(c.accounts, n, 0) {
                Some(m) => (m, true),
                None => (ai, false),
            }
        } else {
            (ai, false)
        },
        None => (ai, false),
    }
}

/// The configuration after `/login` output `t` updated it, the active account being
/// at `ai`.
pub open spec fn login_config(
    c: ConfigView,
    ai: int,
    t: Seq<char>,
    now: LocalDateTime,
    usage: Option<Percent>,
) -> ConfigView {
    let (k, by_name) = login_target(c, ai, t);
    ConfigView {
        accounts: c.accounts.update(k, login_account(c.accounts[k], t, now, usage)),
        active_account_id: if by_name {
            Some(c.accounts[k].id)
        } else {
            c.active_account_id
        },
        ..c
    }
}

/// The status after `/login` output `t` updated an account.
pub open spec fn login_status(lang: Language, c: ConfigView, ai: int, t: Seq<char>) -> Seq<char> {
    if login_target(c, ai, t).1 {
        message(lang, "status_updated_from_paste"@, seq![login_name(t)->0])
    } else {
        text_for(lang, "status_updated_manual"@)
    }
}

// ---------------------------------------------------------------------------
// What the operations keep
// ---------------------------------------------------------------------------

/// Synchronising with `auth.toml` leaves the active id naming an account, and makes
/// the synchronised user's account active when it is known.
pub proof fn law_sync_keeps_active_known(c: ConfigView, a: AuthView)
    requires
        active_consistent(c),
    ensures
        active_consistent(synced(c, a)),
        has_id(c.accounts, a.user.id) ==> synced(c, a).active_account_id == Some(a.user.id),
        synced(c, a).accounts.len() == c.accounts.len(),
{
    lemma_index_of_id(c.accounts, a.user.id);
    if let Some(i) = index_of_id(c.accounts, a.user.id) {
        let d = synced(c, a);
        assert(d.accounts[i].id == a.user.id);
    }
}

/// Importing makes the imported user's account active; it adds an account exactly when
/// none had that user's id.
pub proof fn law_import_makes_account_active(c: ConfigView, a: AuthView, now: LocalDateTime)
    ensures
        active_consistent(imported(c, a, now)),
        imported(c, a, now).active_account_id == Some(a.user.id),
        imported(c, a, now).accounts.len() == c.accounts.len() + (if has_id(c.accounts, a.user.id) {
            0int
        } else {
            1int
        }),
{
    lemma_index_of_id(c.accounts, a.user.id);
    let d = imported(c, a, now);
    match index_of_id(c.accounts, a.user.id) {
        Some(i) => {
            assert(d.accounts[i].id == a.user.id);
        },
        None => {
            assert(d.accounts[c.accounts.len() as int].id == a.user.id);
        },
    }
}

/// Deleting removes every account with the id and keeps every other one, in order;
/// the active id still names an account, or none is active.
pub proof fn law_delete_keeps_others(c: ConfigView, id: Seq<char>)
    requires
        active_consistent(c),
    ensures
        active_consistent(deleted_config(c, id)),
        forall|j: int|
            0 <= j < deleted_config(c, id).accounts.len()
                ==> #[trigger] deleted_config(c, id).accounts[j].id != id,
        forall|j: int|
            0 <= j < c.accounts.len() && c.accounts[j].id != id ==> exists|k: int|
                0 <= k < deleted_config(c, id).accounts.len() && #[trigger] deleted_config(
                    c,
                    id,
                ).accounts[k] == c.accounts[j],
{
    lemma_without_id(c.accounts, id);
    let d = deleted_config(c, id);
    assert(d.accounts == without_id(c.accounts, id));
    assert forall|j: int| 0 <= j < c.accounts.len() && c.accounts[j].id != id implies exists|k: int|
        0 <= k < d.accounts.len() && #[trigger] d.accounts[k] == c.accounts[j] by {
        let k = choose|k: int|
            0 <= k < without_id(c.accounts, id).len() && #[trigger] without_id(c.accounts, id)[k]
                == c.accounts[j];
        assert(d.accounts[k] == c.accounts[j]);
    }
    if let Some(a) = c.active_account_id {
        if a != id {
            let j = choose|j: int| 0 <= j < c.accounts.len() && c.accounts[j].id == a;
            let k = choose|k: int|
                0 <= k < d.accounts.len() && #[trigger] d.accounts[k] == c.accounts[j];
            assert(d.accounts[k].id == a);
        } else if d.accounts.len() > 0 {
            assert(d.accounts[0].id == d.active_account_id->0);
        }
    }
}

/// The accounts left after removing `id` are the original ones with that id filtered
/// out, in their original order; the first of them is the first account of the
/// original list with another id.
proof fn lemma_without_id_is_filter(s: Seq<AccountView>, id: Seq<char>)
    ensures
        without_id(s, id) == s.filter(|a: AccountView| a.id != id),
        without_id(s, id).len() > 0 ==> exists|j: int|
            0 <= j < s.len() && s[j].id != id && without_id(s, id)[0] == s[j] && forall|i: int|
                0 <= i < j ==> #[trigger] s[i].id == id,
        without_id(s, id).len() == 0 ==> forall|j: int| 0 <= j < s.len() ==> #[trigger] s[j].id == id,
    decreases s.len(),
{
    reveal(Seq::filter);
    if s.len() > 0 {
        let t = s.drop_last();
        lemma_without_id_is_filter(t, id);
        assert(s.filter(|a: AccountView| a.id != id) == if s.last().id != id {
            t.filter(|a: AccountView| a.id != id).push(s.last())
        } else {
            t.filter(|a: AccountView| a.id != id)
        });
        if without_id(t, id).len() > 0 {
            let j = choose|j: int|
                0 <= j < t.len() && t[j].id != id && without_id(t, id)[0] == t[j] && forall|i: int|
                    0 <= i < j ==> #[trigger] t[i].id == id;
            assert(s[j] == t[j]);
            assert forall|i: int| 0 <= i < j implies #[trigger] s[i].id == id by {
                assert(s[i] == t[i]);
            }
        } else if s.last().id != id {
            let j = s.len() - 1;
            assert forall|i: int| 0 <= i < j implies #[trigger] s[i].id == id by {
                assert(s[i] == t[i]);
            }
        } else {
            assert forall|j: int| 0 <= j < s.len() implies #[trigger] s[j].id == id by {
                if j < s.len() - 1 {
                    assert(s[j] == t[j]);
                }
            }
        }
    }
}

/// Deleting keeps the other accounts in their original order: what is left is the
/// list with the deleted id filtered out. When the active account is deleted, the
/// first account of the original list with another id becomes active, or none when
/// there is no such account; any other active account stays active.
pub proof fn law_delete_keeps_order(c: ConfigView, id: Seq<char>)
    ensures
        deleted_config(c, id).accounts == c.accounts.filter(|a: AccountView| a.id != id),
        c.active_account_id == Some(id) ==> match deleted_config(c, id).active_account_id {
            Some(n) => exists|j: int|
                0 <= j < c.accounts.len() && c.accounts[j].id != id && n == c.accounts[j].id
                    && forall|i: int| 0 <= i < j ==> #[trigger] c.accounts[i].id == id,
            None => forall|j: int| 0 <= j < c.accounts.len() ==> #[trigger] c.accounts[j].id == id,
        },
        c.active_account_id != Some(id) ==> deleted_config(c, id).active_account_id
            == c.active_account_id,
{
    lemma_without_id_is_filter(c.accounts, id);
}

/// Switching makes the account switched to active.
pub proof fn law_switch_makes_account_active(c: ConfigView, id: Seq<char>)
    requires
        has_id(c.accounts, id),
    ensures
        active_consistent(with_active(c, Some(id))),
        with_active(c, Some(id)).accounts == c.accounts,
{
}

/// Updating from `/login` output keeps every account's id and leaves the active id
/// naming an account.
pub proof fn law_login_update_keeps_ids(
    c: ConfigView,
    ai: int,
    t: Seq<char>,
    now: LocalDateTime,
    usage: Option<Percent>,
)
    requires
        c.active_account_id is Some,
        index_of_id(c.accounts, c.active_account_id->0) == Some(ai),
    ensures
        login_config(c, ai, t, now, usage).accounts.len() == c.accounts.len(),
        forall|j: int|
            0 <= j < c.accounts.len() ==> #[trigger] login_config(c, ai, t, now, usage).accounts[j].id
                == c.accounts[j].id,
        active_consistent(login_config(c, ai, t, now, usage)),
{
    lemma_index_of_id(c.accounts, c.active_account_id->0);
    let (k, by_name) = login_target(c, ai, t);
    if let Some(n) = login_name(t) {
        lemma_find_name_from(c.accounts, n, 0);
    }
    let d = login_config(c, ai, t, now, usage);
    assert(d.accounts[k].id == c.accounts[k].id);
    assert(d.accounts[ai].id == c.accounts[ai].id);
}

impl AtomcodeSwitchApp {
    /// The switcher on start-up: the configuration as loaded, its language, the status
    /// "ready", and the accounts synchronised with the `auth.toml` that was read.
    pub fn new(config: AppConfig, current_auth: Option<AuthToml>) -> (r: AtomcodeSwitchApp)
        ensures
            r@.language == crate::lang::language_named(config@.language),
            r@.config == (match current_auth {
                Some(a) => synced(config@, a@),
                None => config@,
            }),
            r@.status == text_for(r@.language, "status_ready"@),
            r@.settings is None,
            !r@.show_settings,
            r@.delete_confirm_id is None,
            !r@.show_manual_update,
            r@.manual_update_text.len() == 0,
            !r@.is_auto_updating,
    {
        let lang = Language::from_str(config.language.as_str());
        let i18n = I18n::load(lang);
        let mut app = AtomcodeSwitchApp {
            config,
            i18n,
            settings_state: None,
            status_message: String::new(),
            show_settings: false,
            delete_confirm_id: None,
            show_manual_update: false,
            manual_update_text: String::new(),
            is_auto_updating: false,
        };
        app.status_message = app.i18n.t0("status_ready");
        app.sync_active_account_status(current_auth);
        app
    }

    /// Synchronises with the `auth.toml` that was read: its user's account takes the
    /// data and becomes active. Nothing changes when the file could not be read or
    /// names an unknown user.
    pub fn sync_active_account_status(&mut self, current_auth: Option<AuthToml>)
        ensures
            final(self)@ == (match current_auth {
                Some(a) => with_config(old(self)@, synced(old(self)@.config, a@)),
                None => old(self)@,
            }),
    {
        if let Some(auth) = current_auth {
            let ghost a = auth@;
            let found = position_of_id(&self.config.accounts, auth.user.id.as_str());
            if let Some(i) = found {
                let id = auth.user.id.clone();
                let ghost before = self.config.accounts@;
                let mut acc = self.config.accounts[i].duplicate();
                acc.auth_data = auth;
                self.config.accounts.set(i, acc);
                self.config.active_account_id = Some(id);
                proof {
                    assert(accounts_view(self.config.accounts@) =~= accounts_view(before).update(
                        i as int,
                        with_auth(accounts_view(before)[i as int], a),
                    ));
                }
            }
        }
    }

    /// The position of the account that automatic switching moves to now, if any.
    /// How often this is asked is the application's part.
    pub fn check_auto_switch(&self) -> (r: Option<usize>)
        ensures
            match r {
                Some(k) => auto_switch_choice(self@.config) == Some(k as int),
                None => auto_switch_choice(self@.config) is None,
            },
    {
        if !self.config.auto_switch_rules.enabled {
            return None;
        }
        let active_id = match &self.config.active_account_id {
            Some(id) => id,
            None => return None,
        };
        let ai = match position_of_id(&self.config.accounts, active_id.as_str()) {
            Some(i) => i,
            None => return None,
        };
        proof {
            lemma_index_of_id(self@.config.accounts, active_id@);
        }
        if !self.config.accounts[ai].usage_percent.greater_than(
            &self.config.auto_switch_rules.max_usage_percent,
        ) {
            return None;
        }
        let ghost s = self@.config.accounts;
        let mut best: Option<usize> = None;
        let mut j: usize = 0;
        while j < self.config.accounts.len()
            invariant
                j <= self.config.accounts.len(),
                s == accounts_view(self.config.accounts@),
                s.len() == self.config.accounts.len(),
                match best {
                    Some(b) => best_candidate(s, active_id@, j as int) == Some(b as int),
                    None => best_candidate(s, active_id@, j as int) is None,
                },
            decreases self.config.accounts.len() - j,
        {
            proof {
                lemma_best_candidate_bound(s, active_id@, j as int);
            }
            let acc = &self.config.accounts[j];
            if acc.is_valid && !str_eq(acc.id.as_str(), active_id.as_str()) {
                let better = match best {
                    None => true,
                    Some(b) => acc.usage_percent.less_than(
                        &self.config.accounts[b].usage_percent,
                    ),
                };
                if better {
                    best = Some(j);
                }
            }
            j = j + 1;
        }
        best
    }

    /// Reports that automatic switching moved to the account at `k`.
    pub fn note_auto_switch(&mut self, k: usize)
        requires
            k < old(self).config.accounts.len(),
        ensures
            final(self)@ == with_status(
                old(self)@,
                message(
                    old(self)@.language,
                    "status_auto_switched"@,
                    seq![old(self)@.config.accounts[k as int].auth_data.user.name],
                ),
            ),
    {
        let msg = self.i18n.t1(
            "status_auto_switched",
            self.config.accounts[k].auth_data.user.name.as_str(),
        );
        self.status_message = msg;
    }

    /// The authentication data to write to `auth.toml` to switch to the account `id`;
    /// nothing when no account has that id.
    pub fn auth_for(&self, id: &str) -> (r: Option<AuthToml>)
        ensures
            match index_of_id(self@.config.accounts, id@) {
                Some(i) => r matches Some(a) && a@ == self@.config.accounts[i].auth_data,
                None => r is None,
            },
    {
        match position_of_id(&self.config.accounts, id) {
            Some(i) => Some(self.config.accounts[i].auth_data.duplicate()),
            None => None,
        }
    }

    /// Completes switching to the account `id` once its `auth.toml` was written with
    /// the outcome `written`. On success the account becomes active and the result
    /// says the configuration must be saved; on failure only the status reports it.
    pub fn switch_to_account(&mut self, id: &str, written: Result<(), String>) -> (save: bool)
        ensures
            match index_of_id(old(self)@.config.accounts, id@) {
                None => final(self)@ == old(self)@ && !save,
                Some(i) => match written {
                    Ok(_) => save && final(self)@ == with_config_status(
                        old(self)@,
                        with_active(old(self)@.config, Some(id@)),
                        message(
                            old(self)@.language,
                            "status_switched"@,
                            seq![old(self)@.config.accounts[i].auth_data.user.name],
                        ),
                    ),
                    Err(e) => !save && final(self)@ == with_status(
                        old(self)@,
                        message(old(self)@.language, "status_switch_failed"@, seq![e@]),
                    ),
                },
            },
    {
        let i = match position_of_id(&self.config.accounts, id) {
            Some(i) => i,
            None => return false,
        };
        match written {
            Ok(_) => {
                let msg = self.i18n.t1(
                    "status_switched",
                    self.config.accounts[i].auth_data.user.name.as_str(),
                );
                self.config.active_account_id = Some(string_from(id));
                self.status_message = msg;
                true
            },
            Err(e) => {
                self.status_message = self.i18n.t1("status_switch_failed", e.as_str());
                false
            },
        }
    }

    /// Imports the `auth.toml` that was read at `now`. The result says whether the
    /// configuration must be saved.
    pub fn import_current_auth(&mut self, current_auth: Option<AuthToml>, now: &LocalDateTime) -> (save: bool)
        requires
            now.wf(),
            now.year < MAX_YEAR,
        ensures
            match current_auth {
                None => !save && final(self)@ == with_status(
                    old(self)@,
                    text_for(old(self)@.language, "status_auth_not_found"@),
                ),
                Some(a) => save && final(self)@ == with_config_status(
                    old(self)@,
                    imported(old(self)@.config, a@, *now),
                    message(old(self)@.language, "status_imported"@, seq![a@.user.name]),
                ),
            },
    {
        let auth = match current_auth {
            Some(a) => a,
            None => {
                self.status_message = self.i18n.t0("status_auth_not_found");
                return false;
            },
        };
        let ghost a = auth@;
        let ghost before = self.config.accounts@;
        let id = auth.user.id.clone();
        let msg = self.i18n.t1("status_imported", auth.user.name.as_str());
        let stamp = Self::current_time_str(now);
        match position_of_id(&self.config.accounts, id.as_str()) {
            Some(i) => {
                let mut acc = self.config.accounts[i].duplicate();
                acc.auth_data = auth;
                acc.last_updated = stamp;
                self.config.accounts.set(i, acc);
                proof {
                    assert(accounts_view(self.config.accounts@) =~= imported(
                        old(self)@.config,
                        a,
                        *now,
                    ).accounts);
                }
            },
            None => {
                let acc = ManagedAccount {
                    id: id.clone(),
                    plan_name: string_from("CodingPlan Lite"),
                    usage_percent: Percent { bits: PERCENT_ZERO_BITS },
                    reset_time: Self::default_reset_time(now),
                    is_valid: true,
                    auth_data: auth,
                    remaining_days: 27,
                    last_updated: stamp,
                };
                self.config.accounts.push(acc);
                proof {
                    assert(accounts_view(self.config.accounts@) =~= imported(
                        old(self)@.config,
                        a,
                        *now,
                    ).accounts);
                }
            },
        }
        self.config.active_account_id = Some(id);
        self.status_message = msg;
        true
    }

    /// Deletes every account with id `id`. When the active account goes, the first
    /// remaining account becomes active and is returned: its `auth.toml` is to be
    /// written. The configuration is to be saved in any case.
    pub fn delete_account(&mut self, id: &str) -> (next: Option<String>)
        ensures
            final(self)@ == with_config_status(
                old(self)@,
                deleted_config(old(self)@.config, id@),
                text_for(old(self)@.language, "status_account_deleted"@),
            ),
            opt_view(next) == (if old(self)@.config.active_account_id == Some(id@) {
                deleted_config(old(self)@.config, id@).active_account_id
            } else {
                None
            }),
    {
        let ghost s = old(self)@.config.accounts;
        let mut kept: Vec<ManagedAccount> = Vec::new();
        let mut i: usize = 0;
        while i < self.config.accounts.len()
            invariant
                i <= self.config.accounts.len(),
                s == accounts_view(self.config.accounts@),
                accounts_view(kept@) == without_id(s.take(i as int), id@),
            decreases self.config.accounts.len() - i,
        {
            let ghost before = kept@;
            proof {
                assert(s.take(i + 1 as int).drop_last() =~= s.take(i as int));
            }
            if !str_eq(self.config.accounts[i].id.as_str(), id) {
                kept.push(self.config.accounts[i].duplicate());
                assert(accounts_view(kept@) =~= accounts_view(before).push(s[i as int]));
            }
            i = i + 1;
        }
        assert(s.take(s.len() as int) =~= s);
        self.config.accounts = kept;
        let was_active = match &self.config.active_account_id {
            Some(a) => str_eq(a.as_str(), id),
            None => false,
        };
        let mut next: Option<String> = None;
        if was_active {
            if self.config.accounts.len() > 0 {
                let first = self.config.accounts[0].id.clone();
                self.config.active_account_id = Some(first.clone());
                next = Some(first);
            } else {
                self.config.active_account_id = None;
            }
        }
        self.status_message = self.i18n.t0("status_account_deleted");
        next
    }

    // ---- Time stamps ----

    /// The current time as stored in an account: `YYYY-MM-DD HH:MM`.
    pub fn current_time_str(now: &LocalDateTime) -> (r: String)
        requires
            now.wf(),
        ensures
            r@ == minute_stamp(*now),
    {
        format_minute_stamp(now)
    }

    /// The reset time given to a newly imported account: the next occurrence of the
    /// clock time one hour from now, as `YYYY-MM-DD HH:MM`.
    pub fn default_reset_time(now: &LocalDateTime) -> (r: String)
        requires
            now.wf(),
            now.year < MAX_YEAR,
        ensures
            r@ == minute_stamp(default_reset_moment(*now)),
    {
        let target = (now.hour * 60 + now.minute + 60) % 1440;
        let when = combine_reset_datetime(now, target / 60, target % 60);
        format_minute_stamp(&when)
    }

    // ---- /login output ----

    /// Updates an account from `/login` output: the account it is logged in as, when
    /// that is another account than the active one, else the active account. The
    /// fields that the output states are taken over (`usage` is the number read from
    /// its usage figure), and the account is marked valid and updated at `now`.
    pub fn parse_login_output_and_update(
        &mut self,
        text: &str,
        now: &LocalDateTime,
        usage: Option<Percent>,
    ) -> (r: Result<(), String>)
        requires
            now.wf(),
            now.year < MAX_YEAR,
            usage is Some ==> usage_text(text@) is Some,
        ensures
            match old(self)@.config.active_account_id {
                None => final(self)@ == old(self)@ && (r matches Err(e) && e@ == text_for(
                    old(self)@.language,
                    "status_no_active_account"@,
                )),
                Some(aid) => match index_of_id(old(self)@.config.accounts, aid) {
                    None => final(self)@ == old(self)@ && (r matches Err(e) && e@ == text_for(
                        old(self)@.language,
                        "status_active_account_not_found"@,
                    )),
                    Some(ai) => r is Ok && final(self)@ == with_config_status(
                        old(self)@,
                        login_config(old(self)@.config, ai, text@, *now, usage),
                        login_status(old(self)@.language, old(self)@.config, ai, text@),
                    ),
                },
            },
    {
        let active_id = match &self.config.active_account_id {
            Some(id) => id.clone(),
            None => return Err(self.i18n.t0("status_no_active_account")),
        };
        let ai = match position_of_id(&self.config.accounts, active_id.as_str()) {
            Some(i) => i,
            None => return Err(self.i18n.t0("status_active_account_not_found")),
        };
        proof {
            lemma_index_of_id(old(self)@.config.accounts, active_id@);
        }
        let ghost c = old(self)@.config;
        let mut target = ai;
        let mut by_name = false;
        let mut name_text = String::new();
        if let Some(n) = read_login_name(text) {
            if !str_eq(self.config.accounts[ai].auth_data.user.name.as_str(), n.as_str()) {
                if let Some(m) = position_of_name(&self.config.accounts, n.as_str()) {
                    target = m;
                    by_name = true;
                }
            }
            name_text = n;
        }
        assert(login_target(c, ai as int, text@) == (target as int, by_name));
        let ghost before = self.config.accounts@;
        let mut acc = self.config.accounts[target].duplicate();
        acc.last_updated = Self::current_time_str(now);
        acc.is_valid = true;
        Self::apply_parsed_fields(&mut acc, text, now, usage);
        if by_name {
            self.config.active_account_id = Some(acc.id.clone());
            self.status_message = self.i18n.t1("status_updated_from_paste", name_text.as_str());
        } else {
            self.status_message = self.i18n.t0("status_updated_manual");
        }
        self.config.accounts.set(target, acc);
        proof {
            lemma_find_name_from(c.accounts, login_name(text@)->0, 0);
            assert(accounts_view(self.config.accounts@) =~= login_config(
                c,
                ai as int,
                text@,
                *now,
                usage,
            ).accounts);
        }
        Ok(())
    }

    /// Applies what `/login` output states to an account: plan name, days left,
    /// usage (`usage`, the number read from the output's usage figure) and reset time.
    pub fn apply_parsed_fields(
        acc: &mut ManagedAccount,
        text: &str,
        now: &LocalDateTime,
        usage: Option<Percent>,
    )
        requires
            now.wf(),
            now.year < MAX_YEAR,
            usage is Some ==> usage_text(text@) is Some,
        ensures
            parsed_fields_applied(*old(acc), *final(acc), text@, *now, usage),
    {
        apply_fields(acc, text, now, usage);
    }
}

} // verus!
