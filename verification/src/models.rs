//! The data the switcher manages: the contents of `auth.toml`, the managed accounts
//! and the persisted application configuration.
use vstd::prelude::*;

verus! {

// ---------------------------------------------------------------------------
// Percentages
// ---------------------------------------------------------------------------

/// A percentage as the application stores it: a single-precision IEEE-754 number,
/// held here by its bit pattern so that comparisons can be stated and proved.
#[derive(Debug, Clone, Copy, PartialEq, Eq, Structural)]
pub struct Percent {
    pub bits: u32,
}

/// `0.0`
pub const PERCENT_ZERO_BITS: u32 = 0x0000_0000;

/// `50.0`
pub const PERCENT_FIFTY_BITS: u32 = 0x4248_0000;

/// `80.0`
pub const PERCENT_EIGHTY_BITS: u32 = 0x42A0_0000;

/// `95.0`: the default usage threshold of automatic switching.
pub const PERCENT_NINETY_FIVE_BITS: u32 = 0x42BE_0000;

impl Percent {
    /// Not a number: all eight exponent bits (bits 23 to 30) set and a non-zero
    /// fraction (bits 0 to 22).
    pub open spec fn is_nan(self) -> bool {
        (self.bits / 0x80_0000) % 0x100 == 0xFF && self.bits % 0x80_0000 != 0
    }

    /// The position of the number on the real line, up to scale: the magnitude (bits 0
    /// to 30), negated when the sign bit (bit 31) is set, so that `-0.0` and `0.0`
    /// coincide.
    pub open spec fn ordinal(self) -> int {
        let m = (self.bits % 0x8000_0000) as int;
        if self.bits >= 0x8000_0000 {
            -m
        } else {
            m
        }
    }

    /// IEEE-754 `<`: false when either side is not a number.
    pub open spec fn lt_spec(self, other: Percent) -> bool {
        !self.is_nan() && !other.is_nan() && self.ordinal() < other.ordinal()
    }

    /// IEEE-754 `>`: false when either side is not a number.
    pub open spec fn gt_spec(self, other: Percent) -> bool {
        !self.is_nan() && !other.is_nan() && self.ordinal() > other.ordinal()
    }

    pub fn from_bits(bits: u32) -> (r: Percent)
        ensures
            r.bits == bits,
    {
        Percent { bits }
    }

    fn nan(&self) -> (r: bool)
        ensures
            r == self.is_nan(),
    {
        (self.bits / 0x80_0000) % 0x100 == 0xFF && self.bits % 0x80_0000 != 0
    }

    fn ordinal_value(&self) -> (r: i64)
        ensures
            r == self.ordinal(),
    {
        let m = (self.bits % 0x8000_0000) as i64;
        if self.bits >= 0x8000_0000 {
            -m
        } else {
            m
        }
    }

    /// `self < other` as the floating-point comparison decides it.
    pub fn less_than(&self, other: &Percent) -> (r: bool)
        ensures
            r == self.lt_spec(*other),
    {
        !self.nan() && !other.nan() && self.ordinal_value() < other.ordinal_value()
    }

    /// `self > other` as the floating-point comparison decides it.
    pub fn greater_than(&self, other: &Percent) -> (r: bool)
        ensures
            r == self.gt_spec(*other),
    {
        !self.nan() && !other.nan() && self.ordinal_value() > other.ordinal_value()
    }
}

// ---------------------------------------------------------------------------
// auth.toml
// ---------------------------------------------------------------------------

/// The user section of `auth.toml`.
#[derive(Debug, Clone)]
pub struct User {
    pub id: String,
    pub username: String,
    pub name: String,
    pub email: String,
    pub avatar_url: String,
}

pub struct UserView {
    pub id: Seq<char>,
    pub username: Seq<char>,
    pub name: Seq<char>,
    pub email: Seq<char>,
    pub avatar_url: Seq<char>,
}

impl View for User {
    type V = UserView;

    open spec fn view(&self) -> UserView {
        UserView {
            id: self.id@,
            username: self.username@,
            name: self.name@,
            email: self.email@,
            avatar_url: self.avatar_url@,
        }
    }
}

impl User {
    /// A copy of the user.
    pub fn duplicate(&self) -> (r: User)
        ensures
            r@ == self@,
    {
        User {
            id: self.id.clone(),
            username: self.username.clone(),
            name: self.name.clone(),
            email: self.email.clone(),
            avatar_url: self.avatar_url.clone(),
        }
    }
}

/// The contents of AtomCode's `auth.toml`.
#[derive(Debug, Clone)]
pub struct AuthToml {
    pub access_token: String,
    pub refresh_token: String,
    pub token_type: String,
    pub expires_in: u64,
    pub created_at: u64,
    pub user: User,
}

pub struct AuthView {
    pub access_token: Seq<char>,
    pub refresh_token: Seq<char>,
    pub token_type: Seq<char>,
    pub expires_in: u64,
    pub created_at: u64,
    pub user: UserView,
}

impl View for AuthToml {
    type V = AuthView;

    open spec fn view(&self) -> AuthView {
        AuthView {
            access_token: self.access_token@,
            refresh_token: self.refresh_token@,
            token_type: self.token_type@,
            expires_in: self.expires_in,
            created_at: self.created_at,
            user: self.user@,
        }
    }
}

impl AuthToml {
    /// A copy of the authentication data.
    pub fn duplicate(&self) -> (r: AuthToml)
        ensures
            r@ == self@,
    {
        AuthToml {
            access_token: self.access_token.clone(),
            refresh_token: self.refresh_token.clone(),
            token_type: self.token_type.clone(),
            expires_in: self.expires_in,
            created_at: self.created_at,
            user: self.user.duplicate(),
        }
    }
}

// ---------------------------------------------------------------------------
// Managed accounts and the application configuration
// ---------------------------------------------------------------------------

/// One account that the switcher manages.
#[derive(Debug, Clone)]
pub struct ManagedAccount {
    pub id: String,
    pub auth_data: AuthToml,
    pub plan_name: String,
    pub usage_percent: Percent,
    pub reset_time: String,
    pub is_valid: bool,
    /// Days left in the plan.
    pub remaining_days: u32,
    /// When the account's information was last updated.
    pub last_updated: String,
}

pub struct AccountView {
    pub id: Seq<char>,
    pub auth_data: AuthView,
    pub plan_name: Seq<char>,
    pub usage_percent: Percent,
    pub reset_time: Seq<char>,
    pub is_valid: bool,
    pub remaining_days: u32,
    pub last_updated: Seq<char>,
}

impl View for ManagedAccount {
    type V = AccountView;

    open spec fn view(&self) -> AccountView {
        AccountView {
            id: self.id@,
            auth_data: self.auth_data@,
            plan_name: self.plan_name@,
            usage_percent: self.usage_percent,
            reset_time: self.reset_time@,
            is_valid: self.is_valid,
            remaining_days: self.remaining_days,
            last_updated: self.last_updated@,
        }
    }
}

impl ManagedAccount {
    /// A copy of the account.
    pub fn duplicate(&self) -> (r: ManagedAccount)
        ensures
            r@ == self@,
    {
        ManagedAccount {
            id: self.id.clone(),
            auth_data: self.auth_data.duplicate(),
            plan_name: self.plan_name.clone(),
            usage_percent: self.usage_percent,
            reset_time: self.reset_time.clone(),
            is_valid: self.is_valid,
            remaining_days: self.remaining_days,
            last_updated: self.last_updated.clone(),
        }
    }
}

/// The views of a list of accounts.
pub open spec fn accounts_view(v: Seq<ManagedAccount>) -> Seq<AccountView> {
    v.map_values(|a: ManagedAccount| a@)
}

/// The rule for switching away from an account whose usage is too high.
#[derive(Debug, Clone, Copy, PartialEq, Eq, Structural)]
pub struct AutoSwitchRules {
    pub enabled: bool,
    pub max_usage_percent: Percent,
}

/// The persisted configuration: accounts, the active one, the rules and the language.
#[derive(Debug, Clone)]
pub struct AppConfig {
    /// The directory that holds `auth.toml`, when not the default `~/.atomcode`.
    pub custom_atomcode_dir: Option<String>,
    /// The id of the account in use.
    pub active_account_id: Option<String>,
    pub accounts: Vec<ManagedAccount>,
    pub auto_switch_rules: AutoSwitchRules,
    /// The persisted name of the interface language.
    pub language: String,
}

pub struct ConfigView {
    pub custom_atomcode_dir: Option<Seq<char>>,
    pub active_account_id: Option<Seq<char>>,
    pub accounts: Seq<AccountView>,
    pub auto_switch_rules: AutoSwitchRules,
    pub language: Seq<char>,
}

pub open spec fn opt_view(o: Option<String>) -> Option<Seq<char>> {
    match o {
        Some(s) => Some(s@),
        None => None,
    }
}

impl View for AppConfig {
    type V = ConfigView;

    open spec fn view(&self) -> ConfigView {
        ConfigView {
            custom_atomcode_dir: opt_view(self.custom_atomcode_dir),
            active_account_id: opt_view(self.active_account_id),
            accounts: accounts_view(self.accounts@),
            auto_switch_rules: self.auto_switch_rules,
            language: self.language@,
        }
    }
}

/// A copy of an optional string.
pub fn duplicate_opt(o: &Option<String>) -> (r: Option<String>)
    ensures
        opt_view(r) == opt_view(*o),
{
    match o {
        Some(s) => Some(s.clone()),
        None => None,
    }
}

impl Default for AppConfig {
    /// No accounts, none active, automatic switching off with a 95 % threshold, and
    /// the Chinese interface.
    fn default() -> (r: AppConfig)
        ensures
            r@.custom_atomcode_dir is None,
            r@.active_account_id is None,
            r@.accounts.len() == 0,
            r@.auto_switch_rules == (AutoSwitchRules {
                enabled: false,
                max_usage_percent: Percent { bits: PERCENT_NINETY_FIVE_BITS },
            }),
            r@.language == "zh_cn"@,
    {
        let r = AppConfig {
            custom_atomcode_dir: None,
            active_account_id: None,
            accounts: Vec::new(),
            auto_switch_rules: AutoSwitchRules {
                enabled: false,
                max_usage_percent: Percent { bits: PERCENT_NINETY_FIVE_BITS },
            },
            language: crate::text::string_from("zh_cn"),
        };
        assert(r@.accounts =~= Seq::<AccountView>::empty());
        r
    }
}

} // verus!
