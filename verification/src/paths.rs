//! Where the switcher keeps its files: AtomCode's `auth.toml`, the local
//! `config.yaml` beside the program, and the account data `atomcode-accounts.yaml`.
//!
//! A path is a base followed by components, each joined as `Path::join` joins it.
//! The home directory and the program's directory are looked up by the application.
use vstd::prelude::*;

use crate::models::{duplicate_opt, opt_view};
use crate::text::{string_from, trim};

verus! {

/// A file-system path: `base` joined with each of `parts` in turn.
#[derive(Debug, Clone)]
pub struct AppPath {
    pub base: String,
    pub parts: Vec<String>,
}

pub struct PathView {
    pub base: Seq<char>,
    pub parts: Seq<Seq<char>>,
}

impl View for AppPath {
    type V = PathView;

    open spec fn view(&self) -> PathView {
        PathView { base: self.base@, parts: self.parts@.map_values(|p: String| p@) }
    }
}

pub open spec fn path_of(base: Seq<char>, parts: Seq<Seq<char>>) -> PathView {
    PathView { base, parts }
}

impl AppPath {
    /// The path `base`.
    pub fn from_base(base: String) -> (r: AppPath)
        ensures
            r@ == path_of(base@, seq![]),
    {
        let r = AppPath { base, parts: Vec::new() };
        assert(r@.parts =~= Seq::<Seq<char>>::empty());
        r
    }

    /// This path joined with `part`.
    pub fn join(self, part: &str) -> (r: AppPath)
        ensures
            r@ == path_of(self@.base, self@.parts.push(part@)),
    {
        let ghost before = self@;
        let mut p = self;
        p.parts.push(string_from(part));
        assert(p@.parts =~= before.parts.push(part@));
        p
    }
}

/// The directory that holds `auth.toml`: the custom one when set, else `.atomcode` in
/// the home directory, else `.atomcode` in the working directory.
pub open spec fn atomcode_dir(custom: Option<Seq<char>>, home: Option<Seq<char>>) -> PathView {
    match custom {
        Some(d) => path_of(d, seq![]),
        None => match home {
            Some(h) => path_of(h, seq![".atomcode"@]),
            None => path_of(".atomcode"@, seq![]),
        },
    }
}

/// The directory that holds `auth.toml`; `home` is the user's home directory, when
/// known.
pub fn get_atomcode_dir(custom_dir: &Option<String>, home: &Option<String>) -> (r: AppPath)
    ensures
        r@ == atomcode_dir(opt_view(*custom_dir), opt_view(*home)),
{
    match custom_dir {
        Some(d) => AppPath::from_base(d.clone()),
        None => match home {
            Some(h) => AppPath::from_base(h.clone()).join(".atomcode"),
            None => AppPath::from_base(string_from(".atomcode")),
        },
    }
}

/// The path of `auth.toml`.
pub fn get_auth_file_path(custom_dir: &Option<String>, home: &Option<String>) -> (r: AppPath)
    ensures
        r@ == path_of(
            atomcode_dir(opt_view(*custom_dir), opt_view(*home)).base,
            atomcode_dir(opt_view(*custom_dir), opt_view(*home)).parts.push("auth.toml"@),
        ),
{
    get_atomcode_dir(custom_dir, home).join("auth.toml")
}

// ---------------------------------------------------------------------------
// The local configuration beside the program
// ---------------------------------------------------------------------------

/// The local configuration (`config.yaml` beside the program): where the account data
/// lives when not in the default `~/.atomcode-switch`.
#[derive(Debug, Clone)]
pub struct LocalConfig {
    pub custom_data_dir: Option<String>,
}

impl Default for LocalConfig {
    fn default() -> (r: LocalConfig)
        ensures
            r.custom_data_dir is None,
    {
        LocalConfig { custom_data_dir: None }
    }
}

/// What saving the local configuration does to its file.
pub enum LocalConfigStore {
    /// Write the configuration.
    Write(LocalConfig),
    /// Remove the file: every setting has its default.
    Remove,
}

/// Saving writes the file only when a custom data directory is set, and removes it
/// otherwise.
pub fn save_local_config(config: &LocalConfig) -> (r: LocalConfigStore)
    ensures
        match r {
            LocalConfigStore::Write(c) => config.custom_data_dir is Some && opt_view(
                c.custom_data_dir,
            ) == opt_view(config.custom_data_dir),
            LocalConfigStore::Remove => config.custom_data_dir is None,
        },
{
    match &config.custom_data_dir {
        Some(_) => LocalConfigStore::Write(
            LocalConfig { custom_data_dir: duplicate_opt(&config.custom_data_dir) },
        ),
        None => LocalConfigStore::Remove,
    }
}

/// The custom data directory that the local configuration holds.
pub fn get_custom_data_dir(local: &LocalConfig) -> (r: Option<String>)
    ensures
        opt_view(r) == opt_view(local.custom_data_dir),
{
    duplicate_opt(&local.custom_data_dir)
}

/// The local configuration with the custom data directory `dir`.
pub fn set_custom_data_dir(local: LocalConfig, dir: Option<String>) -> (r: LocalConfig)
    ensures
        opt_view(r.custom_data_dir) == opt_view(dir),
{
    let mut local = local;
    local.custom_data_dir = dir;
    local
}

/// The path of the local configuration, beside the program in `exe_dir`.
pub fn get_local_config_path(exe_dir: AppPath) -> (r: AppPath)
    ensures
        r@ == path_of(exe_dir@.base, exe_dir@.parts.push("config.yaml"@)),
{
    exe_dir.join("config.yaml")
}

/// The directory of the program: the one found, else the working directory.
pub fn get_exe_dir(found: Option<String>) -> (r: AppPath)
    ensures
        r@ == path_of(
            match opt_view(found) {
                Some(d) => d,
                None => "."@,
            },
            seq![],
        ),
{
    match found {
        Some(d) => AppPath::from_base(d),
        None => AppPath::from_base(string_from(".")),
    }
}

/// The directory of the account data: the custom one when set, else
/// `.atomcode-switch` in the home directory, else in the working directory.
pub open spec fn data_dir(custom: Option<Seq<char>>, home: Option<Seq<char>>) -> PathView {
    match custom {
        Some(d) => path_of(d, seq![]),
        None => match home {
            Some(h) => path_of(h, seq![".atomcode-switch"@]),
            None => path_of(".atomcode-switch"@, seq![]),
        },
    }
}

/// The directory of the account data.
pub fn get_data_dir_path(local: &LocalConfig, home: &Option<String>) -> (r: AppPath)
    ensures
        r@ == data_dir(opt_view(local.custom_data_dir), opt_view(*home)),
{
    match &local.custom_data_dir {
        Some(d) => AppPath::from_base(d.clone()),
        None => match home {
            Some(h) => AppPath::from_base(h.clone()).join(".atomcode-switch"),
            None => AppPath::from_base(string_from(".atomcode-switch")),
        },
    }
}

/// The path of the account data file, `atomcode-accounts.yaml` in the data directory.
pub fn get_accounts_file_path(local: &LocalConfig, home: &Option<String>) -> (r: AppPath)
    ensures
        r@ == path_of(
            data_dir(opt_view(local.custom_data_dir), opt_view(*home)).base,
            data_dir(opt_view(local.custom_data_dir), opt_view(*home)).parts.push(
                "atomcode-accounts.yaml"@,
            ),
        ),
{
    get_data_dir_path(local, home).join("atomcode-accounts.yaml")
}

/// Where older versions kept the account data: `~/.atomcode-switch/config.yaml`.
pub fn old_config_path(home: &String) -> (r: AppPath)
    ensures
        r@ == path_of(home@, seq![".atomcode-switch"@, "config.yaml"@]),
{
    let r = AppPath::from_base(home.clone()).join(".atomcode-switch").join("config.yaml");
    assert(r@.parts =~= seq![".atomcode-switch"@, "config.yaml"@]);
    r
}

/// What to do about account data left where older versions kept it.
#[derive(Debug, Clone, Copy, PartialEq, Eq, Structural)]
pub enum MigrationStep {
    /// Leave everything as it is.
    Nothing,
    /// The old file is empty: remove it.
    RemoveOld,
    /// Copy the old file to the new place if it holds a configuration, then remove it.
    MoveIfValid,
}

/// Decides the migration from the old place: only when the old file exists and the
/// new one does not, and the old one could be read; an old file of white space only
/// is removed, any other is moved when it holds a configuration.
pub fn plan_migration(old_exists: bool, new_exists: bool, old_content: Option<&str>) -> (r:
    MigrationStep)
    ensures
        r == (if !(old_exists && !new_exists) {
            MigrationStep::Nothing
        } else {
            match old_content {
                None => MigrationStep::Nothing,
                Some(c) => if trim(c@).len() == 0 {
                    MigrationStep::RemoveOld
                } else {
                    MigrationStep::MoveIfValid
                },
            }
        }),
{
    if !(old_exists && !new_exists) {
        return MigrationStep::Nothing;
    }
    match old_content {
        None => MigrationStep::Nothing,
        Some(c) => {
            let v = crate::text::chars_of(c);
            let (b, e) = crate::text::trim_bounds(&v, 0, v.len());
            assert(v@.subrange(0, v@.len() as int) =~= v@);
            if b == e {
                MigrationStep::RemoveOld
            } else {
                MigrationStep::MoveIfValid
            }
        },
    }
}

} // verus!
