//! What the window's controls decide: the language button, clearing the login, the
//! update dialog with its automatic fetch, the settings dialog, the account lists in
//! the export and directory dialogs, and the reset countdown of a card.
use vstd::prelude::*;

use crate::account_ops::{
    index_of_id, login_config, message, position_of_id,
    with_active, with_config_status, with_status, AppView, AtomcodeSwitchApp,
    SettingsState, SettingsView,
};
use crate::countdown::{format_reset_countdown, placed_near, reset_countdown};
use crate::datetime::{LocalDateTime, Now, MAX_YEAR};
use crate::i18n::I18n;
use crate::lang::{
    language_name, language_named, law_language_name_round_trip, law_toggle_twice, other_language,
    text_for, Language,
};
use crate::models::{accounts_view, opt_view, AccountView, AppConfig, ConfigView, ManagedAccount, Percent};
use crate::login::usage_text;
use crate::text::{
    chars_of, decimal, decimal_string, push_char, push_str, string_from, trim, trim_bounds,
};

verus! {

/// What the channel of an automatic fetch held when it was polled.
pub enum FetchPoll {
    /// The output of `atomcode login`.
    Received(String),
    /// Nothing yet.
    Pending,
    /// The fetching side went away without an answer.
    Disconnected,
}

/// The output of `atomcode login` as the dialog shows it: standard output, then the
/// error output on a line of its own when there is any.
pub open spec fn fetch_output(out: Seq<char>, err: Seq<char>) -> Seq<char> {
    if err.len() == 0 {
        out
    } else {
        out + seq!['\n'] + err
    }
}

/// Joins the two outputs of `atomcode login`.
pub fn combine_fetch_output(out: &str, err: &str) -> (r: String)
    ensures
        r@ == fetch_output(out@, err@),
{
    let mut r = string_from(out);
    if err.unicode_len() > 0 {
        push_char(&mut r, '\n');
        push_str(&mut r, err);
    }
    r
}

/// One line of an account list: `  - name（user name）`.
pub open spec fn account_line(a: AccountView) -> Seq<char> {
    "  - "@ + a.auth_data.user.name + seq!['（'] + a.auth_data.user.username + seq!['）']
}

/// The lines of the accounts joined by line breaks.
pub open spec fn account_lines(s: Seq<AccountView>) -> Seq<char>
    decreases s.len(),
{
    if s.len() == 0 {
        seq![]
    } else if s.len() == 1 {
        account_line(s[0])
    } else {
        account_lines(s.drop_last()) + seq!['\n'] + account_line(s.last())
    }
}

/// The account list that the settings and export dialogs show: one line per account,
/// or the "none" text of the language when there is no account.
pub open spec fn account_list(lang: Language, s: Seq<AccountView>) -> Seq<char> {
    if s.len() == 0 {
        text_for(lang, "dialog_none"@)
    } else {
        account_lines(s)
    }
}

/// The settings of the dialog applied to a configuration: the custom `auth.toml`
/// directory (none when left empty) and the rule of automatic switching.
pub open spec fn settings_applied(c: ConfigView, st: SettingsView) -> ConfigView {
    ConfigView {
        custom_atomcode_dir: if st.atomcode_dir.len() == 0 {
            None
        } else {
            Some(st.atomcode_dir)
        },
        auto_switch_rules: crate::models::AutoSwitchRules {
            enabled: st.auto_switch_enabled,
            max_usage_percent: st.max_usage_percent,
        },
        ..c
    }
}

/// The configuration after taking over the accounts, active id and rules of `other`.
pub open spec fn adopted(c: ConfigView, other: ConfigView) -> ConfigView {
    ConfigView {
        accounts: other.accounts,
        active_account_id: other.active_account_id,
        auto_switch_rules: other.auto_switch_rules,
        ..c
    }
}

/// Saving the settings dialog sets the custom `auth.toml` directory to the dialog's
/// AtomCode-directory text (none when it is empty), whatever the data-directory text
/// says; the rule of automatic switching becomes the dialog's; the accounts, the
/// active account and the language stay as they were.
pub proof fn law_settings_take_the_dialog(c: ConfigView, st: SettingsView, st2: SettingsView)
    ensures
        settings_applied(c, st).custom_atomcode_dir is None <==> st.atomcode_dir.len() == 0,
        settings_applied(c, st).custom_atomcode_dir matches Some(d) ==> d == st.atomcode_dir,
        st2.atomcode_dir == st.atomcode_dir ==> settings_applied(c, st2).custom_atomcode_dir
            == settings_applied(c, st).custom_atomcode_dir,
        settings_applied(c, st).auto_switch_rules.enabled == st.auto_switch_enabled,
        settings_applied(c, st).auto_switch_rules.max_usage_percent == st.max_usage_percent,
        settings_applied(c, st).accounts == c.accounts,
        settings_applied(c, st).active_account_id == c.active_account_id,
        settings_applied(c, st).language == c.language,
{
}

/// Adopting the configuration found in another data directory takes over its
/// accounts, its active account and its rule of automatic switching, and keeps the
/// custom `auth.toml` directory and the language; adopting the same configuration
/// again changes nothing.
pub proof fn law_adopt_takes_the_other_configuration(c: ConfigView, other: ConfigView)
    ensures
        adopted(c, other).accounts == other.accounts,
        adopted(c, other).active_account_id == other.active_account_id,
        adopted(c, other).auto_switch_rules == other.auto_switch_rules,
        adopted(c, other).custom_atomcode_dir == c.custom_atomcode_dir,
        adopted(c, other).language == c.language,
        adopted(adopted(c, other), other) == adopted(c, other),
{
}

/// `v` with the update dialog closed and its text emptied, and the status `status`.
pub open spec fn dialog_closed(v: AppView, c: ConfigView, status: Seq<char>) -> AppView {
    AppView {
        config: c,
        status: status,
        show_manual_update: false,
        manual_update_text: seq![],
        ..v
    }
}

/// `v` with the automatic fetch marked as running or not, and the status `status`.
pub open spec fn fetch_state(v: AppView, running: bool, status: Seq<char>) -> AppView {
    AppView { is_auto_updating: running, status: status, ..v }
}

/// `v` after the text `text` arrived from the automatic fetch.
pub open spec fn fetch_received(v: AppView, text: Seq<char>) -> AppView {
    AppView {
        manual_update_text: text,
        is_auto_updating: false,
        status: text_for(v.language, "status_fetched"@),
        ..v
    }
}

/// `v` after the language button: the other language, persisted in the configuration,
/// and the status "ready" in it.
pub open spec fn language_toggled(v: AppView, l: Language) -> AppView {
    AppView {
        language: l,
        config: ConfigView { language: language_name(l), ..v.config },
        status: text_for(l, "status_ready"@),
        ..v
    }
}

/// Pressing the language button twice gives back the language and the configuration
/// one started from, and the persisted name reads back as the language shown.
pub proof fn law_language_button_twice(v: AppView)
    requires
        v.config.language == language_name(v.language),
    ensures
        ({
            let w = language_toggled(v, other_language(v.language));
            let u = language_toggled(w, other_language(w.language));
            &&& u.language == v.language
            &&& u.config == v.config
            &&& language_named(w.config.language) == w.language
            &&& language_named(u.config.language) == u.language
        }),
{
    law_toggle_twice(v.language);
    law_language_name_round_trip(v.language);
    law_language_name_round_trip(other_language(v.language));
}

/// `v` with the settings dialog closed.
pub open spec fn settings_closed(v: AppView, c: ConfigView, status: Seq<char>) -> AppView {
    AppView { config: c, status: status, settings: None, show_settings: false, ..v }
}

fn push_account_line(s: &mut String, a: &ManagedAccount)
    ensures
        final(s)@ == old(s)@ + account_line(a@),
{
    push_str(s, "  - ");
    push_str(s, a.auth_data.user.name.as_str());
    push_char(s, '（');
    push_str(s, a.auth_data.user.username.as_str());
    push_char(s, '）');
    assert(s@ =~= old(s)@ + account_line(a@));
}

impl AtomcodeSwitchApp {
    // ---- Automatic fetch of the login information ----

    /// Marks the automatic fetch as running; starting the command is the application's
    /// part.
    pub fn start_auto_update(&mut self)
        ensures
            final(self)@ == fetch_state(
                old(self)@,
                true,
                text_for(old(self)@.language, "status_fetching"@),
            ),
    {
        self.is_auto_updating = true;
        self.status_message = self.i18n.t0("status_fetching");
    }

    /// Takes in what the channel of a running fetch held. The result says whether to
    /// keep waiting on the channel.
    pub fn poll_auto_fetch(&mut self, poll: FetchPoll) -> (keep: bool)
        ensures
            match poll {
                FetchPoll::Received(t) => !keep && final(self)@ == fetch_received(old(self)@, t@),
                FetchPoll::Pending => keep && final(self)@ == old(self)@,
                FetchPoll::Disconnected => !keep && final(self)@ == fetch_state(
                    old(self)@,
                    false,
                    text_for(old(self)@.language, "status_fetch_failed"@),
                ),
            },
    {
        match poll {
            FetchPoll::Received(output) => {
                self.manual_update_text = output;
                self.is_auto_updating = false;
                self.status_message = self.i18n.t0("status_fetched");
                false
            },
            FetchPoll::Pending => true,
            FetchPoll::Disconnected => {
                self.is_auto_updating = false;
                self.status_message = self.i18n.t0("status_fetch_failed");
                false
            },
        }
    }

    /// Stops waiting for a running fetch.
    pub fn cancel_auto_fetch(&mut self)
        ensures
            final(self)@ == fetch_state(
                old(self)@,
                false,
                text_for(old(self)@.language, "status_auto_fetch_cancelled"@),
            ),
    {
        self.is_auto_updating = false;
        self.status_message = self.i18n.t0("status_auto_fetch_cancelled");
    }

    // ---- Toolbar and bottom bar ----

    /// Switches the interface to the other language and records it in the
    /// configuration, which is to be saved.
    pub fn toggle_language(&mut self)
        ensures
            final(self)@ == language_toggled(old(self)@, final(self)@.language),
            final(self)@.language == other_language(old(self)@.language),
    {
        let new_lang = self.i18n.language().toggled();
        self.i18n = I18n::load(new_lang);
        self.config.language = string_from(new_lang.as_str());
        self.status_message = self.i18n.t0("status_ready");
    }

    /// Takes in the outcome of removing `auth.toml`. On success no account is active
    /// any more and the result says the configuration must be saved.
    pub fn finish_clear_auth(&mut self, removed: Result<(), String>) -> (save: bool)
        ensures
            match removed {
                Ok(_) => save && final(self)@ == with_config_status(
                    old(self)@,
                    with_active(old(self)@.config, None),
                    text_for(old(self)@.language, "status_auth_cleared"@),
                ),
                Err(e) => !save && final(self)@ == with_status(
                    old(self)@,
                    message(old(self)@.language, "status_clear_failed"@, seq![e@]),
                ),
            },
    {
        match removed {
            Ok(_) => {
                self.config.active_account_id = None;
                self.status_message = self.i18n.t0("status_auth_cleared");
                true
            },
            Err(e) => {
                self.status_message = self.i18n.t1("status_clear_failed", e.as_str());
                false
            },
        }
    }

    /// Is the active account valid? False when no account is active or the active id
    /// names no account.
    pub fn active_account_valid(&self) -> (r: bool)
        ensures
            r == (match self@.config.active_account_id {
                Some(id) => match index_of_id(self@.config.accounts, id) {
                    Some(i) => self@.config.accounts[i].is_valid,
                    None => false,
                },
                None => false,
            }),
    {
        match &self.config.active_account_id {
            Some(id) => match position_of_id(&self.config.accounts, id.as_str()) {
                Some(i) => self.config.accounts[i].is_valid,
                None => false,
            },
            None => false,
        }
    }

    /// The name of the account that the delete dialog asks about; empty when it names
    /// no account.
    pub fn delete_confirm_name(&self) -> (r: String)
        ensures
            r@ == (match self@.delete_confirm_id {
                Some(id) => match index_of_id(self@.config.accounts, id) {
                    Some(i) => self@.config.accounts[i].auth_data.user.name,
                    None => seq![],
                },
                None => seq![],
            }),
    {
        match &self.delete_confirm_id {
            Some(id) => match position_of_id(&self.config.accounts, id.as_str()) {
                Some(i) => self.config.accounts[i].auth_data.user.name.clone(),
                None => String::new(),
            },
            None => String::new(),
        }
    }

    // ---- The update dialog ----

    /// The "parse and update" button of the update dialog: the dialog's text is taken
    /// and applied to an account (`usage` being the number read from its usage figure),
    /// and the dialog closes. The result says whether the configuration must be saved.
    pub fn submit_manual_update(&mut self, now: &LocalDateTime, usage: Option<Percent>) -> (save:
        bool)
        requires
            now.wf(),
            now.year < MAX_YEAR,
            usage is Some ==> usage_text(old(self)@.manual_update_text) is Some,
        ensures
            ({
                let v = old(self)@;
                let t = v.manual_update_text;
                if trim(t).len() == 0 {
                    !save && final(self)@ == dialog_closed(
                        v,
                        v.config,
                        text_for(v.language, "status_paste_empty"@),
                    )
                } else {
                    match v.config.active_account_id {
                        None => !save && final(self)@ == dialog_closed(
                            v,
                            v.config,
                            text_for(v.language, "status_no_active_import"@),
                        ),
                        Some(aid) => match index_of_id(v.config.accounts, aid) {
                            None => !save && final(self)@ == dialog_closed(
                                v,
                                v.config,
                                message(
                                    v.language,
                                    "status_update_failed"@,
                                    seq![text_for(v.language, "status_active_account_not_found"@)],
                                ),
                            ),
                            Some(ai) => save && final(self)@ == dialog_closed(
                                v,
                                login_config(v.config, ai, t, *now, usage),
                                text_for(v.language, "status_updated"@),
                            ),
                        },
                    }
                }
            }),
    {
        let mut text = String::new();
        std::mem::swap(&mut text, &mut self.manual_update_text);
        self.show_manual_update = false;
        let v = chars_of(text.as_str());
        let (b, e) = trim_bounds(&v, 0, v.len());
        assert(v@.subrange(0, v@.len() as int) =~= v@);
        if b == e {
            self.status_message = self.i18n.t0("status_paste_empty");
            return false;
        }
        if self.config.active_account_id.is_none() {
            self.status_message = self.i18n.t0("status_no_active_import");
            return false;
        }
        match self.parse_login_output_and_update(text.as_str(), now, usage) {
            Ok(()) => {
                self.status_message = self.i18n.t0("status_updated");
                true
            },
            Err(e) => {
                self.status_message = self.i18n.t1("status_update_failed", e.as_str());
                false
            },
        }
    }

    // ---- The settings dialog ----

    /// The settings dialog as it opens: the custom data directory (from the local
    /// configuration), the custom `auth.toml` directory and the rule, empty texts
    /// standing for the defaults.
    pub fn settings_state_for(&self, custom_data_dir: Option<String>) -> (r: SettingsState)
        ensures
            r@.data_dir == (match opt_view(custom_data_dir) {
                Some(d) => d,
                None => seq![],
            }),
            r@.atomcode_dir == (match self@.config.custom_atomcode_dir {
                Some(d) => d,
                None => seq![],
            }),
            r@.auto_switch_enabled == self@.config.auto_switch_rules.enabled,
            r@.max_usage_percent == self@.config.auto_switch_rules.max_usage_percent,
    {
        SettingsState {
            data_dir: match custom_data_dir {
                Some(d) => d,
                None => String::new(),
            },
            atomcode_dir: match &self.config.custom_atomcode_dir {
                Some(d) => d.clone(),
                None => String::new(),
            },
            auto_switch_enabled: self.config.auto_switch_rules.enabled,
            max_usage_percent: self.config.auto_switch_rules.max_usage_percent,
        }
    }

    /// The "OK" button of the settings dialog: the dialog's settings are applied and the
    /// dialog closes. Returns the custom data directory to record in the local
    /// configuration (none when left empty); then the configuration is to be saved.
    /// Without an open dialog it only closes.
    pub fn apply_settings(&mut self) -> (r: Option<Option<String>>)
        ensures
            match old(self)@.settings {
                Some(st) => r matches Some(d) && opt_view(d) == (if st.data_dir.len() == 0 {
                    None
                } else {
                    Some(st.data_dir)
                }) && final(self)@ == settings_closed(
                    old(self)@,
                    settings_applied(old(self)@.config, st),
                    text_for(old(self)@.language, "status_settings_saved"@),
                ),
                None => r is None && final(self)@ == settings_closed(
                    old(self)@,
                    old(self)@.config,
                    old(self)@.status,
                ),
            },
    {
        let mut taken: Option<SettingsState> = None;
        std::mem::swap(&mut taken, &mut self.settings_state);
        self.show_settings = false;
        match taken {
            Some(st) => {
                let data_dir = if st.data_dir.unicode_len() == 0 {
                    None
                } else {
                    Some(st.data_dir)
                };
                self.config.custom_atomcode_dir = if st.atomcode_dir.unicode_len() == 0 {
                    None
                } else {
                    Some(st.atomcode_dir)
                };
                self.config.auto_switch_rules.enabled = st.auto_switch_enabled;
                self.config.auto_switch_rules.max_usage_percent = st.max_usage_percent;
                self.status_message = self.i18n.t0("status_settings_saved");
                Some(data_dir)
            },
            None => None,
        }
    }

    /// Takes over the accounts, the active id and the rule of the configuration found in
    /// a newly chosen data directory.
    pub fn adopt_accounts(&mut self, other: AppConfig)
        ensures
            final(self)@ == with_config_status(
                old(self)@,
                adopted(old(self)@.config, other@),
                message(
                    old(self)@.language,
                    "status_imported_count"@,
                    seq![decimal(other@.accounts.len())],
                ),
            ),
    {
        let n = other.accounts.len();
        self.config.accounts = other.accounts;
        self.config.active_account_id = other.active_account_id;
        self.config.auto_switch_rules = other.auto_switch_rules;
        let count = decimal_string(n as u64);
        self.status_message = self.i18n.t1("status_imported_count", count.as_str());
    }

    /// The list of `accounts` that the export and directory dialogs show.
    pub fn account_list_text(&self, accounts: &Vec<ManagedAccount>) -> (r: String)
        ensures
            r@ == account_list(self@.language, accounts_view(accounts@)),
    {
        if accounts.len() == 0 {
            return self.i18n.t0("dialog_none");
        }
        let ghost s = accounts_view(accounts@);
        let mut r = String::new();
        push_account_line(&mut r, &accounts[0]);
        let mut i: usize = 1;
        assert(s.take(1).drop_last() =~= s.take(0));
        while i < accounts.len()
            invariant
                1 <= i <= accounts.len(),
                s == accounts_view(accounts@),
                r@ == account_lines(s.take(i as int)),
            decreases accounts.len() - i,
        {
            push_char(&mut r, '\n');
            push_account_line(&mut r, &accounts[i]);
            assert(s.take(i + 1 as int).drop_last() =~= s.take(i as int));
            i = i + 1;
        }
        assert(s.take(accounts.len() as int) =~= s);
        r
    }

    /// Takes in the outcome of an export: whether the configuration was to be written
    /// (the user chose to overwrite, or no file stood there) and whether writing it
    /// succeeded. Declining keeps the file and says so; a successful write says the
    /// configuration was exported; a failed write leaves the window as it was.
    pub fn finish_export(&mut self, overwrite: bool, written: bool)
        ensures
            final(self)@ == (if !overwrite {
                with_status(old(self)@, text_for(old(self)@.language, "status_kept_original"@))
            } else if written {
                with_status(old(self)@, text_for(old(self)@.language, "status_exported"@))
            } else {
                old(self)@
            }),
    {
        if !overwrite {
            self.status_message = self.i18n.t0("status_kept_original");
        } else if written {
            self.status_message = self.i18n.t0("status_exported");
        }
    }

    // ---- Account cards ----

    /// The countdown that an account card shows for `reset_time` at `now`, and whether
    /// the reset time has passed (the card then shows it in yellow).
    pub fn format_reset_countdown(&self, reset_time: &str, now: &Now) -> (r: (String, bool))
        requires
            now.local.wf(),
        ensures
            exists|target: Option<i64>|
                (r.0@, r.1) == reset_countdown(self@.language, reset_time@, *now, target)
                    && placed_near(trim(reset_time@), target),
    {
        format_reset_countdown(&self.i18n, reset_time, now)
    }
}

} // verus!
