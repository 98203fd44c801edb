//! The global configuration, per-game profiles, and how the two merge into
//! the settings of one launch.
use vstd::prelude::*;

use crate::strmap::StrMap;
use crate::text::{
    chars_of, concat, contains_spec, decimal, owned, rsplit_once_char_spec, slice_range,
    spec_to_lowercase, str_contains, string_of, to_lowercase, u64_to_string,
};

verus! {

// ---------------------------------------------------------------------------
// Paths
// ---------------------------------------------------------------------------

/// `a` joined with `b` the way `Path::join` does for these relative and
/// absolute pieces: an absolute `b` replaces `a`, an empty `a` gives `b`, and
/// otherwise a single `/` separates them.
pub open spec fn path_join_spec(a: Seq<char>, b: Seq<char>) -> Seq<char> {
    if b.len() > 0 && b[0] == '/' {
        b
    } else if a.len() == 0 {
        b
    } else if a.last() == '/' {
        a + b
    } else {
        a + seq!['/'] + b
    }
}

/// `Path::join` on string paths.
pub fn path_join(a: &str, b: &str) -> (r: String)
    ensures
        r@ == path_join_spec(a@, b@),
{
    let av = chars_of(a);
    let bv = chars_of(b);
    if bv.len() > 0 && bv[0] == '/' {
        owned(b)
    } else if av.len() == 0 {
        owned(b)
    } else if av[av.len() - 1] == '/' {
        concat(a, b)
    } else {
        let mut r = owned(a);
        r.append("/");
        proof {
            reveal_strlit("/");
        }
        r.append(b);
        r
    }
}

/// `~/rest` with the home directory put in place of `~` when one is known;
/// any other path unchanged.
pub open spec fn expand_home_spec(path: Seq<char>, home: Option<Seq<char>>) -> Seq<char> {
    if path.len() >= 2 && path[0] == '~' && path[1] == '/' && home is Some {
        path_join_spec(home->0, path.subrange(2, path.len() as int))
    } else {
        path
    }
}

/// Expands a leading `~/` against a known home directory.
pub fn expand_home_with(path: &str, home: Option<&str>) -> (r: String)
    ensures
        r@ == expand_home_spec(path@, match home {
            Some(h) => Some(h@),
            None => None,
        }),
{
    let pv = chars_of(path);
    match home {
        Some(h) => {
            if pv.len() >= 2 && pv[0] == '~' && pv[1] == '/' {
                let rest = slice_range(&pv, 2, pv.len());
                let rest_s = string_of(&rest);
                path_join(h, rest_s.as_str())
            } else {
                owned(path)
            }
        },
        None => owned(path),
    }
}

/// The user's home directory as the `directories` crate finds it (from the
/// environment and the password database), if it finds one. Nothing is
/// stated of the answer: it depends on the machine.
#[verifier::external_body]
pub(crate) fn home_dir() -> (r: Option<String>) {
    directories::UserDirs::new().map(|d| d.home_dir().to_string_lossy().into_owned())
}

/// iprolaunch's configuration directory as the `directories` crate finds it
/// (`$XDG_CONFIG_HOME/iprolaunch` or `~/.config/iprolaunch`), if a home
/// directory can be found at all. Nothing is stated of the answer: it
/// depends on the environment.
#[verifier::external_body]
pub(crate) fn config_dir() -> (r: Option<String>) {
    directories::ProjectDirs::from("", "", "iprolaunch").map(
        |d| d.config_dir().to_string_lossy().into_owned(),
    )
}

/// Expands a leading `~/` in `path` to the current user's home directory.
pub fn expand_home(path: &str) -> (r: String)
    ensures
        r@ == path@ || exists|h: Seq<char>| r@ == expand_home_spec(path@, Some(h)),
{
    match home_dir() {
        Some(h) => expand_home_with(path, Some(h.as_str())),
        None => expand_home_with(path, None),
    }
}

/// The message of the error returned when no home directory can be found.
pub fn no_home_message() -> (r: String)
    ensures
        r@ == "could not determine home directory"@,
{
    owned("could not determine home directory")
}

// ---------------------------------------------------------------------------
// Enumerated settings
// ---------------------------------------------------------------------------

#[derive(Debug, Clone, Copy, PartialEq, Eq, Structural)]
pub enum PrefixMode {
    Single,
    /// One prefix per profile, keyed by that profile's own slug.
    PerSlug,
}

#[derive(Debug, Clone, Copy, PartialEq, Eq, Structural)]
pub enum LogMode {
    /// All profiles' logs in one shared place.
    Single,
    /// Each profile's logs live inside that profile's own folder.
    Each,
}

#[derive(Debug, Clone, Copy, PartialEq, Eq, Structural)]
pub enum RecordMode {
    All,
    Errors,
    Off,
}

/// Whether (and how) to wrap a launch in a nested `gamescope` session.
#[derive(Debug, Clone, Copy, PartialEq, Eq, Structural)]
pub enum GamescopeSetting {
    Off,
    Fullscreen,
    Maximize,
}

impl Default for GamescopeSetting {
    fn default() -> (r: Self)
        ensures
            r == GamescopeSetting::Off,
    {
        GamescopeSetting::Off
    }
}

/// gamescope's `-F`/`--filter` values.
#[derive(Debug, Clone, Copy, PartialEq, Eq, Structural)]
pub enum GamescopeFilter {
    Linear,
    Nearest,
    Fsr,
    Nis,
    Pixel,
}

/// gamescope's `-S`/`--scaler` values.
#[derive(Debug, Clone, Copy, PartialEq, Eq, Structural)]
pub enum GamescopeScaler {
    Auto,
    Integer,
    Fit,
    Fill,
    Stretch,
}

/// Extra `gamescope` settings, each independently unset ("don't pass this
/// flag").
#[derive(Debug, Clone, Copy, PartialEq, Eq, Structural)]
pub struct GamescopeSettings {
    pub output_width: Option<u32>,
    pub output_height: Option<u32>,
    pub refresh: Option<u32>,
    pub nested_width: Option<u32>,
    pub nested_height: Option<u32>,
    pub filter: Option<GamescopeFilter>,
    pub scaler: Option<GamescopeScaler>,
    pub borderless: Option<bool>,
    pub grab_cursor: Option<bool>,
    pub adaptive_sync: Option<bool>,
}

/// Every setting unset.
pub open spec fn unset_gamescope_settings() -> GamescopeSettings {
    GamescopeSettings {
        output_width: None,
        output_height: None,
        refresh: None,
        nested_width: None,
        nested_height: None,
        filter: None,
        scaler: None,
        borderless: None,
        grab_cursor: None,
        adaptive_sync: None,
    }
}

impl Default for GamescopeSettings {
    fn default() -> (r: Self)
        ensures
            r == unset_gamescope_settings(),
    {
        GamescopeSettings {
            output_width: None,
            output_height: None,
            refresh: None,
            nested_width: None,
            nested_height: None,
            filter: None,
            scaler: None,
            borderless: None,
            grab_cursor: None,
            adaptive_sync: None,
        }
    }
}

/// `a` when it is set, else `b` (std's `Option::or`).
pub open spec fn or_spec<T>(a: Option<T>, b: Option<T>) -> Option<T> {
    match a {
        Some(x) => Some(x),
        None => b,
    }
}

pub fn opt_or<T: Copy>(a: Option<T>, b: Option<T>) -> (r: Option<T>)
    ensures
        r == or_spec(a, b),
{
    match a {
        Some(x) => Some(x),
        None => b,
    }
}

/// Field-by-field merge of global settings with a profile's own.
pub open spec fn merge_spec(g: GamescopeSettings, p: GamescopeSettings) -> GamescopeSettings {
    GamescopeSettings {
        output_width: or_spec(p.output_width, g.output_width),
        output_height: or_spec(p.output_height, g.output_height),
        refresh: or_spec(p.refresh, g.refresh),
        nested_width: or_spec(p.nested_width, g.nested_width),
        nested_height: or_spec(p.nested_height, g.nested_height),
        filter: or_spec(p.filter, g.filter),
        scaler: or_spec(p.scaler, g.scaler),
        borderless: or_spec(p.borderless, g.borderless),
        grab_cursor: or_spec(p.grab_cursor, g.grab_cursor),
        adaptive_sync: or_spec(p.adaptive_sync, g.adaptive_sync),
    }
}

impl GamescopeSettings {
    /// Field-by-field merge: the profile's own value wins when set, else the
    /// global one.
    pub fn merge(self, profile: Self) -> (r: Self)
        ensures
            r == merge_spec(self, profile),
    {
        GamescopeSettings {
            output_width: opt_or(profile.output_width, self.output_width),
            output_height: opt_or(profile.output_height, self.output_height),
            refresh: opt_or(profile.refresh, self.refresh),
            nested_width: opt_or(profile.nested_width, self.nested_width),
            nested_height: opt_or(profile.nested_height, self.nested_height),
            filter: opt_or(profile.filter, self.filter),
            scaler: opt_or(profile.scaler, self.scaler),
            borderless: opt_or(profile.borderless, self.borderless),
            grab_cursor: opt_or(profile.grab_cursor, self.grab_cursor),
            adaptive_sync: opt_or(profile.adaptive_sync, self.adaptive_sync),
        }
    }

    /// Whether every setting is unset (the value left out when saving).
    pub fn is_default(&self) -> (r: bool)
        ensures
            r == (*self == unset_gamescope_settings()),
    {
        self.output_width.is_none() && self.output_height.is_none() && self.refresh.is_none()
            && self.nested_width.is_none() && self.nested_height.is_none()
            && self.filter.is_none() && self.scaler.is_none() && self.borderless.is_none()
            && self.grab_cursor.is_none() && self.adaptive_sync.is_none()
    }
}

/// Merging with an all-unset profile changes nothing, and merging an
/// all-unset global with a profile gives the profile.
pub proof fn lemma_merge_identity(g: GamescopeSettings)
    ensures
        merge_spec(g, unset_gamescope_settings()) == g,
        merge_spec(unset_gamescope_settings(), g) == g,
{
}

/// Merging is associative: layering `c` over `b` over `a` does not depend
/// on grouping.
pub proof fn lemma_merge_associative(a: GamescopeSettings, b: GamescopeSettings, c: GamescopeSettings)
    ensures
        merge_spec(merge_spec(a, b), c) == merge_spec(a, merge_spec(b, c)),
{
}

// ---------------------------------------------------------------------------
// Global configuration
// ---------------------------------------------------------------------------

#[derive(Debug, Clone)]
pub struct Defaults {
    pub proton: String,
    pub prefix_mode: PrefixMode,
    pub prefix_path: String,
    pub prefixes_root: String,
    pub windows_version: String,
    pub gamescope: GamescopeSetting,
    pub gamescope_settings: GamescopeSettings,
    /// A command to run the whole launch through (`gamemoderun`, ...).
    pub launch_wrapper: Option<String>,
}

impl Default for Defaults {
    fn default() -> (r: Self)
        ensures
            r.proton@ == "system"@,
            r.prefix_mode == PrefixMode::Single,
            r.prefix_path@ == "~/.local/share/iprolaunch/prefix"@,
            r.prefixes_root@ == "~/.local/share/iprolaunch/prefixes"@,
            r.windows_version@ == "win10"@,
            r.gamescope == GamescopeSetting::Off,
            r.gamescope_settings == unset_gamescope_settings(),
            r.launch_wrapper is None,
    {
        Defaults {
            proton: owned("system"),
            prefix_mode: PrefixMode::Single,
            prefix_path: owned("~/.local/share/iprolaunch/prefix"),
            prefixes_root: owned("~/.local/share/iprolaunch/prefixes"),
            windows_version: owned("win10"),
            gamescope: GamescopeSetting::Off,
            gamescope_settings: GamescopeSettings::default(),
            launch_wrapper: None,
        }
    }
}

#[derive(Debug, Clone)]
pub struct Logging {
    pub mode: LogMode,
    /// Blank means `<config dir>/logs`; only consulted in `Single` mode.
    pub path: String,
    pub keep: u32,
    pub record: RecordMode,
    pub auto_open: bool,
}

impl Default for Logging {
    fn default() -> (r: Self)
        ensures
            r.mode == LogMode::Single,
            r.path@ == Seq::<char>::empty(),
            r.keep == 3,
            r.record == RecordMode::Errors,
            r.auto_open,
    {
        Logging {
            mode: LogMode::Single,
            path: String::new(),
            keep: 3,
            record: RecordMode::Errors,
            auto_open: true,
        }
    }
}

#[derive(Debug, Clone)]
pub struct GameDb {
    /// Days between automatic re-downloads of the umu-database CSV.
    pub update_interval_days: u32,
}

impl Default for GameDb {
    fn default() -> (r: Self)
        ensures
            r.update_interval_days == 7,
    {
        GameDb { update_interval_days: 7 }
    }
}

#[derive(Debug, Clone)]
pub struct Config {
    pub defaults: Defaults,
    pub logging: Logging,
    pub gamedb: GameDb,
    pub env: StrMap,
    /// One entry per DLL: `dllname = "n,b"` (Wine's own mode syntax).
    pub winedlloverride: StrMap,
}

impl Default for Config {
    fn default() -> (r: Self)
        ensures
            r.defaults.proton@ == "system"@,
            r.defaults.prefix_mode == PrefixMode::Single,
            r.defaults.prefix_path@ == "~/.local/share/iprolaunch/prefix"@,
            r.defaults.prefixes_root@ == "~/.local/share/iprolaunch/prefixes"@,
            r.defaults.windows_version@ == "win10"@,
            r.defaults.gamescope == GamescopeSetting::Off,
            r.defaults.gamescope_settings == unset_gamescope_settings(),
            r.defaults.launch_wrapper is None,
            r.logging.mode == LogMode::Single,
            r.logging.path@ == Seq::<char>::empty(),
            r.logging.keep == 3,
            r.logging.record == RecordMode::Errors,
            r.logging.auto_open,
            r.gamedb.update_interval_days == 7,
            r.env@ == Map::<Seq<char>, Seq<char>>::empty(),
            r.winedlloverride@ == Map::<Seq<char>, Seq<char>>::empty(),
    {
        Config {
            defaults: Defaults::default(),
            logging: Logging::default(),
            gamedb: GameDb::default(),
            env: StrMap::new(),
            winedlloverride: StrMap::new(),
        }
    }
}

/// Where the logs go: `logging.path` (home-expanded) in `Single` mode when it
/// is set, else `logs` under the configuration directory.
pub open spec fn log_dir_spec(
    mode: LogMode,
    path: Seq<char>,
    config_dir: Seq<char>,
    home: Option<Seq<char>>,
) -> Seq<char> {
    if mode == LogMode::Single && path.len() > 0 {
        expand_home_spec(path, home)
    } else {
        path_join_spec(config_dir, "logs"@)
    }
}

/// Fully-resolved settings for one launch (global defaults with the profile's
/// overrides applied).
#[derive(Debug, Clone)]
pub struct Effective {
    pub proton: String,
    pub prefix_mode: PrefixMode,
    pub prefix_path: String,
    pub prefixes_root: String,
    /// `None` whenever `prefix_mode != PerSlug`.
    pub windows_version: Option<String>,
    pub gamescope: GamescopeSetting,
    pub gamescope_settings: GamescopeSettings,
    pub launch_wrapper: Option<String>,
    pub log_mode: LogMode,
    pub keep: u32,
    pub record: RecordMode,
    pub auto_open: bool,
    pub env: StrMap,
    pub winedlloverride: StrMap,
}

pub open spec fn opt_view(o: Option<String>) -> Option<Seq<char>> {
    match o {
        Some(s) => Some(s@),
        None => None,
    }
}

pub fn clone_opt_string(o: &Option<String>) -> (r: Option<String>)
    ensures
        r == *o,
{
    match o {
        Some(s) => Some(s.clone()),
        None => None,
    }
}

/// `a` when it is set, else `b`, as views.
pub open spec fn pick(a: Option<String>, b: Seq<char>) -> Seq<char> {
    match a {
        Some(s) => s@,
        None => b,
    }
}

impl Config {
    /// The log directory, given the configuration directory and the home
    /// directory that `logging.path` may start from.
    pub fn log_dir_with(&self, config_dir: &str, home: Option<&str>) -> (r: String)
        ensures
            r@ == log_dir_spec(self.logging.mode, self.logging.path@, config_dir@, match home {
                Some(h) => Some(h@),
                None => None,
            }),
    {
        let single = match self.logging.mode {
            LogMode::Single => true,
            LogMode::Each => false,
        };
        if single && !self.logging.path.as_str().is_empty() {
            expand_home_with(self.logging.path.as_str(), home)
        } else {
            proof {
                reveal_strlit("logs");
            }
            path_join(config_dir, "logs")
        }
    }

    /// Resolves the log directory, applying the `Single`-mode path override.
    /// With that override set, the result is the home-expanded path and no
    /// configuration directory is needed; otherwise it fails, with the
    /// message of `no_home_message`, when no configuration directory can be
    /// found.
    pub fn log_dir(&self) -> (r: Result<String, String>)
        ensures
            self.logging.mode == LogMode::Single && self.logging.path@.len() > 0 ==> r is Ok && exists|
                h: Option<Seq<char>>,
            | r->Ok_0@ == expand_home_spec(self.logging.path@, h),
            r is Ok ==> exists|c: Seq<char>, h: Option<Seq<char>>|
                r->Ok_0@ == log_dir_spec(self.logging.mode, self.logging.path@, c, h),
            r is Err ==> r->Err_0@ == "could not determine home directory"@,
    {
        let single = match self.logging.mode {
            LogMode::Single => true,
            LogMode::Each => false,
        };
        if single && !self.logging.path.as_str().is_empty() {
            let home = home_dir();
            let r = match &home {
                Some(h) => expand_home_with(self.logging.path.as_str(), Some(h.as_str())),
                None => expand_home_with(self.logging.path.as_str(), None),
            };
            proof {
                let hv: Option<Seq<char>> = match home {
                    Some(h) => Some(h@),
                    None => None,
                };
                assert(r@ == log_dir_spec(self.logging.mode, self.logging.path@, Seq::<char>::empty(), hv));
            }
            return Ok(r);
        }
        match config_dir() {
            Some(c) => {
                let home = home_dir();
                let r = match &home {
                    Some(h) => self.log_dir_with(c.as_str(), Some(h.as_str())),
                    None => self.log_dir_with(c.as_str(), None),
                };
                Ok(r)
            },
            None => Err(no_home_message()),
        }
    }

    /// Merges this global config with an optional profile override.
    pub fn effective(&self, profile: Option<&Profile>) -> (e: Effective)
        ensures
            e.prefix_mode == self.defaults.prefix_mode,
            e.prefixes_root@ == self.defaults.prefixes_root@,
            e.log_mode == self.logging.mode,
            // A profile's Proton choice only counts when it owns its prefix.
            e.proton@ == (match profile {
                Some(p) => if self.defaults.prefix_mode == PrefixMode::PerSlug {
                    pick(p.defaults.proton, self.defaults.proton@)
                } else {
                    self.defaults.proton@
                },
                None => self.defaults.proton@,
            }),
            e.prefix_path@ == (match profile {
                Some(p) => pick(p.defaults.prefix_path, self.defaults.prefix_path@),
                None => self.defaults.prefix_path@,
            }),
            // The Windows version only means anything per profile prefix.
            opt_view(e.windows_version) == (if self.defaults.prefix_mode == PrefixMode::PerSlug {
                Some(
                    match profile {
                        Some(p) => pick(p.defaults.windows_version, self.defaults.windows_version@),
                        None => self.defaults.windows_version@,
                    },
                )
            } else {
                None
            }),
            e.gamescope == (match profile {
                Some(p) => match p.defaults.gamescope {
                    Some(g) => g,
                    None => self.defaults.gamescope,
                },
                None => self.defaults.gamescope,
            }),
            e.gamescope_settings == merge_spec(
                self.defaults.gamescope_settings,
                match profile {
                    Some(p) => p.defaults.gamescope_settings,
                    None => unset_gamescope_settings(),
                },
            ),
            opt_view(e.launch_wrapper) == (match profile {
                Some(p) => or_spec(opt_view(p.defaults.launch_wrapper), opt_view(self.defaults.launch_wrapper)),
                None => opt_view(self.defaults.launch_wrapper),
            }),
            e.keep == (match profile {
                Some(p) => match p.logging.keep {
                    Some(k) => k,
                    None => self.logging.keep,
                },
                None => self.logging.keep,
            }),
            e.record == (match profile {
                Some(p) => match p.logging.record {
                    Some(k) => k,
                    None => self.logging.record,
                },
                None => self.logging.record,
            }),
            // Opening a log only means anything when something is recorded.
            e.auto_open == (e.record != RecordMode::Off && match profile {
                Some(p) => match p.logging.auto_open {
                    Some(k) => k,
                    None => self.logging.auto_open,
                },
                None => self.logging.auto_open,
            }),
            e.env@ == (match profile {
                Some(p) => self.env@.union_prefer_right(p.env@),
                None => self.env@,
            }),
            e.winedlloverride@ == (match profile {
                Some(p) => self.winedlloverride@.union_prefer_right(p.winedlloverride@),
                None => self.winedlloverride@,
            }),
    {
        let d = &self.defaults;
        let l = &self.logging;
        let per_slug = match d.prefix_mode {
            PrefixMode::PerSlug => true,
            PrefixMode::Single => false,
        };
        let proton = match profile {
            Some(p) if per_slug => match &p.defaults.proton {
                Some(x) => x.clone(),
                None => d.proton.clone(),
            },
            _ => d.proton.clone(),
        };
        let prefix_path = match profile {
            Some(p) => match &p.defaults.prefix_path {
                Some(x) => x.clone(),
                None => d.prefix_path.clone(),
            },
            None => d.prefix_path.clone(),
        };
        let windows_version = if per_slug {
            match profile {
                Some(p) => match &p.defaults.windows_version {
                    Some(x) => Some(x.clone()),
                    None => Some(d.windows_version.clone()),
                },
                None => Some(d.windows_version.clone()),
            }
        } else {
            None
        };
        let gamescope = match profile {
            Some(p) => match p.defaults.gamescope {
                Some(g) => g,
                None => d.gamescope,
            },
            None => d.gamescope,
        };
        let profile_settings = match profile {
            Some(p) => p.defaults.gamescope_settings,
            None => GamescopeSettings::default(),
        };
        let gamescope_settings = d.gamescope_settings.merge(profile_settings);
        let launch_wrapper = match profile {
            Some(p) => match &p.defaults.launch_wrapper {
                Some(x) => Some(x.clone()),
                None => clone_opt_string(&d.launch_wrapper),
            },
            None => clone_opt_string(&d.launch_wrapper),
        };
        let keep = match profile {
            Some(p) => match p.logging.keep {
                Some(k) => k,
                None => l.keep,
            },
            None => l.keep,
        };
        let record = match profile {
            Some(p) => match p.logging.record {
                Some(k) => k,
                None => l.record,
            },
            None => l.record,
        };
        let wanted_open = match profile {
            Some(p) => match p.logging.auto_open {
                Some(k) => k,
                None => l.auto_open,
            },
            None => l.auto_open,
        };
        let recording = match record {
            RecordMode::Off => false,
            _ => true,
        };
        let auto_open = recording && wanted_open;
        let mut env = self.env.clone();
        let mut winedlloverride = self.winedlloverride.clone();
        match profile {
            Some(p) => {
                env.extend(&p.env);
                winedlloverride.extend(&p.winedlloverride);
            },
            None => {},
        }
        Effective {
            proton,
            prefix_mode: d.prefix_mode,
            prefix_path,
            prefixes_root: d.prefixes_root.clone(),
            windows_version,
            gamescope,
            gamescope_settings,
            launch_wrapper,
            log_mode: l.mode,
            keep,
            record,
            auto_open,
            env,
            winedlloverride,
        }
    }
}

// ---------------------------------------------------------------------------
// Profiles
// ---------------------------------------------------------------------------

#[derive(Debug)]
pub struct ProfileDefaults {
    pub proton: Option<String>,
    pub prefix_path: Option<String>,
    pub windows_version: Option<String>,
    pub gamescope: Option<GamescopeSetting>,
    pub gamescope_settings: GamescopeSettings,
    pub launch_wrapper: Option<String>,
}

impl Default for ProfileDefaults {
    fn default() -> (r: Self)
        ensures
            r.proton is None,
            r.prefix_path is None,
            r.windows_version is None,
            r.gamescope is None,
            r.gamescope_settings == unset_gamescope_settings(),
            r.launch_wrapper is None,
    {
        ProfileDefaults {
            proton: None,
            prefix_path: None,
            windows_version: None,
            gamescope: None,
            gamescope_settings: GamescopeSettings::default(),
            launch_wrapper: None,
        }
    }
}

#[derive(Debug, Clone, Copy)]
pub struct ProfileLogging {
    pub keep: Option<u32>,
    pub record: Option<RecordMode>,
    pub auto_open: Option<bool>,
}

impl Default for ProfileLogging {
    fn default() -> (r: Self)
        ensures
            r.keep is None,
            r.record is None,
            r.auto_open is None,
    {
        ProfileLogging { keep: None, record: None, auto_open: None }
    }
}

#[derive(Debug)]
pub struct Profile {
    /// User-facing label shown in the game library.
    pub name: String,
    pub target_path: String,
    /// The game's real title, for the umu-database GAMEID lookup.
    pub title: Option<String>,
    /// `DD-Mon-YYYY, HH:MM:SS`, local time.
    pub last_launched: Option<String>,
    /// Extra args always forwarded to this exe.
    pub args: Vec<String>,
    pub defaults: ProfileDefaults,
    pub logging: ProfileLogging,
    pub env: StrMap,
    /// Per-DLL overrides for this game, merged over the global table.
    pub winedlloverride: StrMap,
}

impl Clone for ProfileDefaults {
    fn clone(&self) -> (r: Self)
        ensures
            r == *self,
    {
        ProfileDefaults {
            proton: clone_opt_string(&self.proton),
            prefix_path: clone_opt_string(&self.prefix_path),
            windows_version: clone_opt_string(&self.windows_version),
            gamescope: self.gamescope,
            gamescope_settings: self.gamescope_settings,
            launch_wrapper: clone_opt_string(&self.launch_wrapper),
        }
    }
}

/// Two profiles hold the same settings.
pub open spec fn same_profile(a: Profile, b: Profile) -> bool {
    &&& a.name == b.name
    &&& a.target_path == b.target_path
    &&& a.title == b.title
    &&& a.last_launched == b.last_launched
    &&& a.args@ == b.args@
    &&& a.defaults == b.defaults
    &&& a.logging == b.logging
    &&& a.env@ == b.env@
    &&& a.winedlloverride@ == b.winedlloverride@
}

/// A copy of a list of strings.
pub fn clone_strings(v: &Vec<String>) -> (r: Vec<String>)
    ensures
        r@ == v@,
{
    let mut out: Vec<String> = Vec::new();
    let mut i: usize = 0;
    while i < v.len()
        invariant
            i <= v@.len(),
            out@ == v@.take(i as int),
        decreases v@.len() - i,
    {
        out.push(v[i].clone());
        assert(out@ =~= v@.take(i + 1));
        i = i + 1;
    }
    assert(v@.take(v@.len() as int) == v@);
    out
}

impl Clone for Profile {
    fn clone(&self) -> (r: Self)
        ensures
            same_profile(r, *self),
    {
        Profile {
            name: self.name.clone(),
            target_path: self.target_path.clone(),
            title: clone_opt_string(&self.title),
            last_launched: clone_opt_string(&self.last_launched),
            args: clone_strings(&self.args),
            defaults: self.defaults.clone(),
            logging: self.logging,
            env: self.env.clone(),
            winedlloverride: self.winedlloverride.clone(),
        }
    }
}

/// A profile that merely names an exe: no title, no overrides.
pub open spec fn is_fresh_profile(p: Profile, name: Seq<char>, target: Seq<char>) -> bool {
    &&& p.name@ == name
    &&& p.target_path@ == target
    &&& p.title is None
    &&& p.last_launched is None
    &&& p.args@.len() == 0
    &&& p.defaults.proton is None
    &&& p.defaults.prefix_path is None
    &&& p.defaults.windows_version is None
    &&& p.defaults.gamescope is None
    &&& p.defaults.gamescope_settings == unset_gamescope_settings()
    &&& p.defaults.launch_wrapper is None
    &&& p.logging.keep is None
    &&& p.logging.record is None
    &&& p.logging.auto_open is None
    &&& p.env@ == Map::<Seq<char>, Seq<char>>::empty()
    &&& p.winedlloverride@ == Map::<Seq<char>, Seq<char>>::empty()
}

impl Profile {
    /// A new profile for `target_path`, shown as `name`, with nothing
    /// overridden.
    pub fn fresh(name: String, target_path: String) -> (p: Profile)
        ensures
            is_fresh_profile(p, name@, target_path@),
    {
        Profile {
            name,
            target_path,
            title: None,
            last_launched: None,
            args: Vec::new(),
            defaults: ProfileDefaults::default(),
            logging: ProfileLogging::default(),
            env: StrMap::new(),
            winedlloverride: StrMap::new(),
        }
    }
}

/// A profile with no overrides merges to the same settings as no profile.
pub proof fn lemma_fresh_profile_is_neutral(p: Profile, name: Seq<char>, target: Seq<char>, g: GamescopeSettings)
    requires
        is_fresh_profile(p, name, target),
    ensures
        merge_spec(g, p.defaults.gamescope_settings) == g,
        Map::<Seq<char>, Seq<char>>::empty().union_prefer_right(p.env@) == Map::<Seq<char>, Seq<char>>::empty(),
        forall|m: Map<Seq<char>, Seq<char>>| #[trigger] m.union_prefer_right(p.env@) == m,
{
    assert forall|m: Map<Seq<char>, Seq<char>>| #[trigger] m.union_prefer_right(p.env@) == m by {
        assert(m.union_prefer_right(p.env@) =~= m);
    }
}

/// The part of a display name before its last `#` (the name itself when it
/// has none).
pub open spec fn name_base_spec(name: Seq<char>) -> Seq<char> {
    match rsplit_once_char_spec(name, '#') {
        Some(p) => p.0,
        None => name,
    }
}

/// The part of a display name before its last literal `#`.
pub fn name_base(name: &str) -> (r: String)
    ensures
        r@ == name_base_spec(name@),
{
    let v = chars_of(name);
    match crate::text::rsplit_once_char(&v, '#') {
        Some(p) => string_of(&p.0),
        None => owned(name),
    }
}

/// Three-letter month name for months 1 to 12.
pub open spec fn month_abbrev_spec(m: u8) -> Seq<char> {
    if m == 1 {
        "Jan"@
    } else if m == 2 {
        "Feb"@
    } else if m == 3 {
        "Mar"@
    } else if m == 4 {
        "Apr"@
    } else if m == 5 {
        "May"@
    } else if m == 6 {
        "Jun"@
    } else if m == 7 {
        "Jul"@
    } else if m == 8 {
        "Aug"@
    } else if m == 9 {
        "Sep"@
    } else if m == 10 {
        "Oct"@
    } else if m == 11 {
        "Nov"@
    } else {
        "Dec"@
    }
}

/// Three-letter month name for a month number (1 = January).
pub fn month_abbrev(m: u8) -> (r: &'static str)
    requires
        1 <= m <= 12,
    ensures
        r@ == month_abbrev_spec(m),
{
    if m == 1 {
        "Jan"
    } else if m == 2 {
        "Feb"
    } else if m == 3 {
        "Mar"
    } else if m == 4 {
        "Apr"
    } else if m == 5 {
        "May"
    } else if m == 6 {
        "Jun"
    } else if m == 7 {
        "Jul"
    } else if m == 8 {
        "Aug"
    } else if m == 9 {
        "Sep"
    } else if m == 10 {
        "Oct"
    } else if m == 11 {
        "Nov"
    } else {
        "Dec"
    }
}

/// Two digits, zero-padded (`{:02}` for values below 100).
pub open spec fn pad2(n: nat) -> Seq<char> {
    if n < 10 {
        seq!['0'] + decimal(n)
    } else {
        decimal(n)
    }
}

pub fn pad2_string(n: u8) -> (r: String)
    ensures
        r@ == pad2(n as nat),
{
    let d = u64_to_string(n as u64);
    if n < 10 {
        proof {
            reveal_strlit("0");
        }
        concat("0", d.as_str())
    } else {
        d
    }
}

/// A signed year as `{}` prints it.
pub open spec fn year_text(y: i32) -> Seq<char> {
    if y < 0 {
        seq!['-'] + decimal((-y) as nat)
    } else {
        decimal(y as nat)
    }
}

/// `DD-Mon-YYYY, HH:MM:SS`.
pub open spec fn stamp_spec(day: u8, month: u8, year: i32, hour: u8, minute: u8, second: u8) -> Seq<char> {
    pad2(day as nat) + "-"@ + month_abbrev_spec(month) + "-"@ + year_text(year) + ", "@ + pad2(
        hour as nat,
    ) + ":"@ + pad2(minute as nat) + ":"@ + pad2(second as nat)
}

/// Formats a local date and time as `DD-Mon-YYYY, HH:MM:SS`.
pub fn format_stamp(day: u8, month: u8, year: i32, hour: u8, minute: u8, second: u8) -> (r: String)
    requires
        1 <= month <= 12,
    ensures
        r@ == stamp_spec(day, month, year, hour, minute, second),
{
    proof {
        reveal_strlit("-");
        reveal_strlit(", ");
        reveal_strlit(":");
    }
    let mut r = pad2_string(day);
    r.append("-");
    r.append(month_abbrev(month));
    r.append("-");
    if year < 0 {
        r.append("-");
        let mag: u64 = (0i64 - year as i64) as u64;
        let ys = u64_to_string(mag);
        r.append(ys.as_str());
    } else {
        let ys = u64_to_string(year as u64);
        r.append(ys.as_str());
    }
    r.append(", ");
    let h = pad2_string(hour);
    r.append(h.as_str());
    r.append(":");
    let mi = pad2_string(minute);
    r.append(mi.as_str());
    r.append(":");
    let s = pad2_string(second);
    r.append(s.as_str());
    r
}

/// The current local date and time as (day, month, year, hour, minute,
/// second), from the `time` crate: local time where the offset can be
/// found, else UTC. Stated: the ranges `time` documents for each field.
#[verifier::external_body]
pub fn now_local() -> (r: (u8, u8, i32, u8, u8, u8))
    ensures
        1 <= r.0 <= 31,
        1 <= r.1 <= 12,
        -9999 <= r.2 <= 9999,
        r.3 < 24,
        r.4 < 60,
        r.5 < 60,
{
    let now = time::OffsetDateTime::now_utc();
    let now = now.to_offset(time::UtcOffset::current_local_offset().unwrap_or(time::UtcOffset::UTC));
    (now.day(), now.month() as u8, now.year(), now.hour(), now.minute(), now.second())
}

impl Profile {
    /// The nicest name for showing this profile outside the library list:
    /// its title when set, else its name without the `#N` suffix.
    pub fn display_title(&self) -> (r: String)
        ensures
            r@ == (match self.title {
                Some(t) => t@,
                None => name_base_spec(self.name@),
            }),
    {
        match &self.title {
            Some(t) => t.clone(),
            None => name_base(self.name.as_str()),
        }
    }

    /// Sets `last_launched` to the given local time, `DD-Mon-YYYY, HH:MM:SS`.
    pub fn mark_launched_at(&mut self, day: u8, month: u8, year: i32, hour: u8, minute: u8, second: u8)
        requires
            1 <= month <= 12,
        ensures
            final(self).last_launched matches Some(s) && s@ == stamp_spec(day, month, year, hour, minute, second),
            *final(self) == (Profile { last_launched: final(self).last_launched, ..*old(self) }),
    {
        self.last_launched = Some(format_stamp(day, month, year, hour, minute, second));
    }

    /// Sets `last_launched` to now (local time).
    pub fn mark_launched_now(&mut self)
        ensures
            final(self).last_launched matches Some(s) && exists|d: u8, mo: u8, y: i32, h: u8, mi: u8, se: u8|
                1 <= mo <= 12 && s@ == stamp_spec(d, mo, y, h, mi, se),
            *final(self) == (Profile { last_launched: final(self).last_launched, ..*old(self) }),
    {
        let (d, mo, y, h, mi, se) = now_local();
        self.mark_launched_at(d, mo, y, h, mi, se);
    }

    /// Whether this profile's name or exe path, lowercased, contains
    /// `needle_lower` (which the caller has already lowercased).
    pub fn matches_query(&self, needle_lower: &str) -> (r: bool)
        ensures
            r == (contains_spec(spec_to_lowercase(self.name@), needle_lower@) || contains_spec(
                spec_to_lowercase(self.target_path@),
                needle_lower@,
            )),
    {
        let n = to_lowercase(self.name.as_str());
        if str_contains(n.as_str(), needle_lower) {
            return true;
        }
        let t = to_lowercase(self.target_path.as_str());
        str_contains(t.as_str(), needle_lower)
    }
}

/// The directory holding every profile's folder, under the configuration
/// directory.
pub fn profiles_dir_in(config_dir: &str) -> (r: String)
    ensures
        r@ == path_join_spec(config_dir@, "profiles"@),
{
    proof {
        reveal_strlit("profiles");
    }
    path_join(config_dir, "profiles")
}

impl Profile {
    /// The directory holding every profile's folder; fails, with the message
    /// of `no_home_message`, when no configuration directory can be found.
    pub fn profiles_dir() -> (r: Result<String, String>)
        ensures
            r is Ok ==> exists|c: Seq<char>| r->Ok_0@ == path_join_spec(c, "profiles"@),
            r is Err ==> r->Err_0@ == "could not determine home directory"@,
    {
        match config_dir() {
            Some(c) => Ok(profiles_dir_in(c.as_str())),
            None => Err(no_home_message()),
        }
    }
}

} // verus!
