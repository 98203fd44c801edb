//! The TUI's whole state (`App`), the enums that name its tabs, fields and
//! popups, and the small helpers every tab shares.
use crate::config::{
    opt_view, Config, GamescopeFilter, GamescopeScaler, GamescopeSetting, LogMode, PrefixMode, Profile, RecordMode,
};
use crate::proton::ProtonBuild;
use crate::running::RunningEntry;
use crate::strmap::{key_lt, StrMap};
use crate::text::{contains_spec, spec_to_lowercase, to_lowercase};
use vstd::prelude::*;

verus! {

// ---------------------------------------------------------------------------
// Keys
// ---------------------------------------------------------------------------

/// One key press, as the key handlers see it. The binary turns terminal
/// events (and gamepad buttons) into these.
#[derive(Debug, Clone, Copy, PartialEq, Eq, Structural)]
pub enum Key {
    Up,
    Down,
    Left,
    Right,
    Enter,
    Esc,
    Backspace,
    Delete,
    Tab,
    BackTab,
    PageUp,
    PageDown,
    Home,
    End,
    Char(char),
    /// Any key the TUI gives no meaning to.
    Other,
}

// ---------------------------------------------------------------------------
// Tabs
// ---------------------------------------------------------------------------

#[derive(Debug, Clone, Copy, PartialEq, Eq, Structural)]
pub enum Tab {
    Running,
    Library,
    Config,
    Help,
}

/// Position of a tab in the tab bar.
pub open spec fn tab_index(t: Tab) -> int {
    match t {
        Tab::Running => 0,
        Tab::Library => 1,
        Tab::Config => 2,
        Tab::Help => 3,
    }
}

/// The tab at position `i` of the tab bar (`i` in 0..4).
pub open spec fn tab_at(i: int) -> Tab {
    if i == 0 {
        Tab::Running
    } else if i == 1 {
        Tab::Library
    } else if i == 2 {
        Tab::Config
    } else {
        Tab::Help
    }
}

/// The tab to the right of `t`, wrapping from the last to the first.
pub open spec fn tab_after(t: Tab) -> Tab {
    tab_at((tab_index(t) + 1) % 4)
}

/// The tab to the left of `t`, wrapping from the first to the last.
pub open spec fn tab_before(t: Tab) -> Tab {
    tab_at((tab_index(t) + 3) % 4)
}

pub open spec fn tab_title_spec(t: Tab) -> Seq<char> {
    match t {
        Tab::Running => "Running"@,
        Tab::Library => "Library"@,
        Tab::Config => "Config"@,
        Tab::Help => "Help"@,
    }
}

impl Tab {
    pub const ALL: [Tab; 4] = [Tab::Running, Tab::Library, Tab::Config, Tab::Help];

    pub fn title(self) -> (r: &'static str)
        ensures
            r@ == tab_title_spec(self),
    {
        match self {
            Tab::Running => "Running",
            Tab::Library => "Library",
            Tab::Config => "Config",
            Tab::Help => "Help",
        }
    }

    pub fn next(self) -> (r: Tab)
        ensures
            r == tab_after(self),
    {
        match self {
            Tab::Running => Tab::Library,
            Tab::Library => Tab::Config,
            Tab::Config => Tab::Help,
            Tab::Help => Tab::Running,
        }
    }

    pub fn prev(self) -> (r: Tab)
        ensures
            r == tab_before(self),
    {
        match self {
            Tab::Running => Tab::Help,
            Tab::Library => Tab::Running,
            Tab::Config => Tab::Library,
            Tab::Help => Tab::Config,
        }
    }
}

/// Moving one tab right and then one tab left (or the other way round)
/// comes back to the tab you started on.
pub proof fn lemma_tab_prev_undoes_next(t: Tab)
    ensures
        tab_before(tab_after(t)) == t,
        tab_after(tab_before(t)) == t,
{
}

/// Four steps in either direction visit every tab once and come back to
/// the start.
pub proof fn lemma_tab_cycle_period(t: Tab)
    ensures
        tab_after(tab_after(tab_after(tab_after(t)))) == t,
        tab_before(tab_before(tab_before(tab_before(t)))) == t,
        t != tab_after(t),
        t != tab_after(tab_after(t)),
        t != tab_after(tab_after(tab_after(t))),
{
}

// ---------------------------------------------------------------------------
// Selection
// ---------------------------------------------------------------------------

/// Where a list selection lands after moving by `delta` in a list of `len`
/// items: the start index is first clamped into the list, then the move is
/// clamped at both ends; an empty list always selects 0.
pub open spec fn move_selection_spec(selected: int, len: int, delta: int) -> int {
    if len <= 0 {
        0
    } else {
        let s = if selected < len - 1 {
            selected
        } else {
            len - 1
        };
        let t = s + delta;
        if t < 0 {
            0
        } else if t > len - 1 {
            len - 1
        } else {
            t
        }
    }
}

/// Moves a list selection up (`delta < 0`) or down (`delta > 0`), clamped to
/// a valid index of a list of `len` items.
pub fn move_selection(selected: usize, len: usize, delta: isize) -> (r: usize)
    ensures
        r == move_selection_spec(selected as int, len as int, delta as int),
        len > 0 ==> r < len,
        len == 0 ==> r == 0,
{
    if len == 0 {
        return 0;
    }
    let s: usize = if selected < len - 1 {
        selected
    } else {
        len - 1
    };
    if delta < 0 {
        let d: usize = (0 - (delta + 1)) as usize + 1;
        if d >= s {
            0
        } else {
            s - d
        }
    } else {
        let d: usize = delta as usize;
        if d >= len - 1 - s {
            len - 1
        } else {
            s + d
        }
    }
}

// ---------------------------------------------------------------------------
// Cycling enumerated settings
// ---------------------------------------------------------------------------

pub open spec fn prefix_mode_after(m: PrefixMode) -> PrefixMode {
    match m {
        PrefixMode::Single => PrefixMode::PerSlug,
        PrefixMode::PerSlug => PrefixMode::Single,
    }
}

pub open spec fn log_mode_after(m: LogMode) -> LogMode {
    match m {
        LogMode::Single => LogMode::Each,
        LogMode::Each => LogMode::Single,
    }
}

pub open spec fn record_mode_after(m: RecordMode) -> RecordMode {
    match m {
        RecordMode::All => RecordMode::Errors,
        RecordMode::Errors => RecordMode::Off,
        RecordMode::Off => RecordMode::All,
    }
}

/// A profile override of the record mode also has "inherit" (`None`):
/// inherit, all, errors, off, inherit.
pub open spec fn profile_record_mode_after(m: Option<RecordMode>) -> Option<RecordMode> {
    match m {
        None => Some(RecordMode::All),
        Some(RecordMode::All) => Some(RecordMode::Errors),
        Some(RecordMode::Errors) => Some(RecordMode::Off),
        Some(RecordMode::Off) => None,
    }
}

/// inherit, on, off, inherit.
pub open spec fn optional_bool_after(v: Option<bool>) -> Option<bool> {
    match v {
        None => Some(true),
        Some(true) => Some(false),
        Some(false) => None,
    }
}

pub open spec fn gamescope_setting_after(m: GamescopeSetting) -> GamescopeSetting {
    match m {
        GamescopeSetting::Off => GamescopeSetting::Fullscreen,
        GamescopeSetting::Fullscreen => GamescopeSetting::Maximize,
        GamescopeSetting::Maximize => GamescopeSetting::Off,
    }
}

/// inherit, explicitly off, fullscreen, maximize, inherit.
pub open spec fn profile_gamescope_setting_after(m: Option<GamescopeSetting>) -> Option<GamescopeSetting> {
    match m {
        None => Some(GamescopeSetting::Off),
        Some(GamescopeSetting::Off) => Some(GamescopeSetting::Fullscreen),
        Some(GamescopeSetting::Fullscreen) => Some(GamescopeSetting::Maximize),
        Some(GamescopeSetting::Maximize) => None,
    }
}

/// unset, then each filter in gamescope's own order, then unset again.
pub open spec fn gamescope_filter_after(f: Option<GamescopeFilter>) -> Option<GamescopeFilter> {
    match f {
        None => Some(GamescopeFilter::Linear),
        Some(GamescopeFilter::Linear) => Some(GamescopeFilter::Nearest),
        Some(GamescopeFilter::Nearest) => Some(GamescopeFilter::Fsr),
        Some(GamescopeFilter::Fsr) => Some(GamescopeFilter::Nis),
        Some(GamescopeFilter::Nis) => Some(GamescopeFilter::Pixel),
        Some(GamescopeFilter::Pixel) => None,
    }
}

/// unset, then each scaler in gamescope's own order, then unset again.
pub open spec fn gamescope_scaler_after(s: Option<GamescopeScaler>) -> Option<GamescopeScaler> {
    match s {
        None => Some(GamescopeScaler::Auto),
        Some(GamescopeScaler::Auto) => Some(GamescopeScaler::Integer),
        Some(GamescopeScaler::Integer) => Some(GamescopeScaler::Fit),
        Some(GamescopeScaler::Fit) => Some(GamescopeScaler::Fill),
        Some(GamescopeScaler::Fill) => Some(GamescopeScaler::Stretch),
        Some(GamescopeScaler::Stretch) => None,
    }
}

pub fn next_prefix_mode(m: PrefixMode) -> (r: PrefixMode)
    ensures
        r == prefix_mode_after(m),
{
    match m {
        PrefixMode::Single => PrefixMode::PerSlug,
        PrefixMode::PerSlug => PrefixMode::Single,
    }
}

pub fn next_log_mode(m: LogMode) -> (r: LogMode)
    ensures
        r == log_mode_after(m),
{
    match m {
        LogMode::Single => LogMode::Each,
        LogMode::Each => LogMode::Single,
    }
}

pub fn next_record_mode(m: RecordMode) -> (r: RecordMode)
    ensures
        r == record_mode_after(m),
{
    match m {
        RecordMode::All => RecordMode::Errors,
        RecordMode::Errors => RecordMode::Off,
        RecordMode::Off => RecordMode::All,
    }
}

pub fn next_profile_record_mode(m: Option<RecordMode>) -> (r: Option<RecordMode>)
    ensures
        r == profile_record_mode_after(m),
{
    match m {
        None => Some(RecordMode::All),
        Some(RecordMode::All) => Some(RecordMode::Errors),
        Some(RecordMode::Errors) => Some(RecordMode::Off),
        Some(RecordMode::Off) => None,
    }
}

/// Cycles a profile's `logging.auto_open` override: inherit, on, off, inherit.
pub fn next_profile_auto_open(v: Option<bool>) -> (r: Option<bool>)
    ensures
        r == optional_bool_after(v),
{
    next_optional_bool(v)
}

/// Cycles any optional on/off setting: unset, on, off, unset.
pub fn next_optional_bool(v: Option<bool>) -> (r: Option<bool>)
    ensures
        r == optional_bool_after(v),
{
    match v {
        None => Some(true),
        Some(true) => Some(false),
        Some(false) => None,
    }
}

pub fn next_gamescope_setting(m: GamescopeSetting) -> (r: GamescopeSetting)
    ensures
        r == gamescope_setting_after(m),
{
    match m {
        GamescopeSetting::Off => GamescopeSetting::Fullscreen,
        GamescopeSetting::Fullscreen => GamescopeSetting::Maximize,
        GamescopeSetting::Maximize => GamescopeSetting::Off,
    }
}

pub fn next_profile_gamescope_setting(m: Option<GamescopeSetting>) -> (r: Option<GamescopeSetting>)
    ensures
        r == profile_gamescope_setting_after(m),
{
    match m {
        None => Some(GamescopeSetting::Off),
        Some(GamescopeSetting::Off) => Some(GamescopeSetting::Fullscreen),
        Some(GamescopeSetting::Fullscreen) => Some(GamescopeSetting::Maximize),
        Some(GamescopeSetting::Maximize) => None,
    }
}

pub fn next_gamescope_filter(f: Option<GamescopeFilter>) -> (r: Option<GamescopeFilter>)
    ensures
        r == gamescope_filter_after(f),
{
    match f {
        None => Some(GamescopeFilter::Linear),
        Some(GamescopeFilter::Linear) => Some(GamescopeFilter::Nearest),
        Some(GamescopeFilter::Nearest) => Some(GamescopeFilter::Fsr),
        Some(GamescopeFilter::Fsr) => Some(GamescopeFilter::Nis),
        Some(GamescopeFilter::Nis) => Some(GamescopeFilter::Pixel),
        Some(GamescopeFilter::Pixel) => None,
    }
}

pub fn next_gamescope_scaler(s: Option<GamescopeScaler>) -> (r: Option<GamescopeScaler>)
    ensures
        r == gamescope_scaler_after(s),
{
    match s {
        None => Some(GamescopeScaler::Auto),
        Some(GamescopeScaler::Auto) => Some(GamescopeScaler::Integer),
        Some(GamescopeScaler::Integer) => Some(GamescopeScaler::Fit),
        Some(GamescopeScaler::Fit) => Some(GamescopeScaler::Fill),
        Some(GamescopeScaler::Fill) => Some(GamescopeScaler::Stretch),
        Some(GamescopeScaler::Stretch) => None,
    }
}

/// Every cycle visits each of its states exactly once before it comes back
/// to where it started: two steps for the prefix and log modes, three for
/// the record mode and the gamescope setting, four with "inherit" added,
/// three for an optional on/off, six for the optional filter and scaler.
pub proof fn lemma_cycles_return_to_start(
    pm: PrefixMode,
    lm: LogMode,
    rm: RecordMode,
    prm: Option<RecordMode>,
    b: Option<bool>,
    gs: GamescopeSetting,
    pgs: Option<GamescopeSetting>,
    f: Option<GamescopeFilter>,
    s: Option<GamescopeScaler>,
)
    ensures
        prefix_mode_after(prefix_mode_after(pm)) == pm,
        prefix_mode_after(pm) != pm,
        log_mode_after(log_mode_after(lm)) == lm,
        log_mode_after(lm) != lm,
        record_mode_after(record_mode_after(record_mode_after(rm))) == rm,
        record_mode_after(rm) != rm,
        record_mode_after(record_mode_after(rm)) != rm,
        profile_record_mode_after(
            profile_record_mode_after(profile_record_mode_after(profile_record_mode_after(prm))),
        ) == prm,
        profile_record_mode_after(prm) != prm,
        profile_record_mode_after(profile_record_mode_after(prm)) != prm,
        profile_record_mode_after(profile_record_mode_after(profile_record_mode_after(prm))) != prm,
        optional_bool_after(optional_bool_after(optional_bool_after(b))) == b,
        optional_bool_after(b) != b,
        optional_bool_after(optional_bool_after(b)) != b,
        gamescope_setting_after(gamescope_setting_after(gamescope_setting_after(gs))) == gs,
        gamescope_setting_after(gs) != gs,
        gamescope_setting_after(gamescope_setting_after(gs)) != gs,
        profile_gamescope_setting_after(
            profile_gamescope_setting_after(profile_gamescope_setting_after(profile_gamescope_setting_after(pgs))),
        ) == pgs,
        profile_gamescope_setting_after(pgs) != pgs,
        profile_gamescope_setting_after(profile_gamescope_setting_after(pgs)) != pgs,
        profile_gamescope_setting_after(profile_gamescope_setting_after(profile_gamescope_setting_after(pgs))) != pgs,
        gamescope_filter_after(
            gamescope_filter_after(
                gamescope_filter_after(gamescope_filter_after(gamescope_filter_after(gamescope_filter_after(f)))),
            ),
        ) == f,
        gamescope_scaler_after(
            gamescope_scaler_after(
                gamescope_scaler_after(gamescope_scaler_after(gamescope_scaler_after(gamescope_scaler_after(s)))),
            ),
        ) == s,
{
}

} // verus!

verus! {

/// How a field reacts to Enter: cycle or toggle in place, Left/Right to
/// step a number, a text popup, the Proton build picker, or the map editor.
#[derive(Debug, Clone, Copy, PartialEq, Eq, Structural)]
pub enum FieldKind {
    Cycle,
    Toggle,
    Number,
    Text,
    ProtonPicker,
    MapEditor,
}

/// One row of the Config tab's global settings list, in display order.
#[derive(Debug, Clone, Copy, PartialEq, Eq, Structural)]
pub enum ConfigField {
    Proton,
    PrefixMode,
    PrefixPath,
    PrefixesRoot,
    WindowsVersion,
    Gamescope,
    GamescopeOutputWidth,
    GamescopeOutputHeight,
    GamescopeRefresh,
    GamescopeNestedWidth,
    GamescopeNestedHeight,
    GamescopeFilter,
    GamescopeScaler,
    GamescopeBorderless,
    GamescopeGrabCursor,
    GamescopeAdaptiveSync,
    LaunchWrapper,
    LogMode,
    LogPath,
    LogKeep,
    LogRecord,
    LogAutoOpen,
    GamedbInterval,
    EnvTable,
    WineDllOverrideTable,
}

pub open spec fn config_field_label(f: ConfigField) -> Seq<char> {
    match f {
        ConfigField::Proton => "defaults.proton"@,
        ConfigField::PrefixMode => "defaults.prefix_mode"@,
        ConfigField::PrefixPath => "defaults.prefix_path"@,
        ConfigField::PrefixesRoot => "defaults.prefixes_root"@,
        ConfigField::WindowsVersion => "defaults.windows-version"@,
        ConfigField::Gamescope => "defaults.gamescope"@,
        ConfigField::GamescopeOutputWidth => "defaults.gamescope_settings.output_width (-W)"@,
        ConfigField::GamescopeOutputHeight => "defaults.gamescope_settings.output_height (-H)"@,
        ConfigField::GamescopeRefresh => "defaults.gamescope_settings.refresh (-r)"@,
        ConfigField::GamescopeNestedWidth => "defaults.gamescope_settings.nested_width (-w)"@,
        ConfigField::GamescopeNestedHeight => "defaults.gamescope_settings.nested_height (-h)"@,
        ConfigField::GamescopeFilter => "defaults.gamescope_settings.filter (-F)"@,
        ConfigField::GamescopeScaler => "defaults.gamescope_settings.scaler (-S)"@,
        ConfigField::GamescopeBorderless => "defaults.gamescope_settings.borderless (-b)"@,
        ConfigField::GamescopeGrabCursor => "defaults.gamescope_settings.grab_cursor"@,
        ConfigField::GamescopeAdaptiveSync => "defaults.gamescope_settings.adaptive_sync"@,
        ConfigField::LaunchWrapper => "defaults.launch_wrapper"@,
        ConfigField::LogMode => "logging.mode"@,
        ConfigField::LogPath => "logging.path (blank = default)"@,
        ConfigField::LogKeep => "logging.keep"@,
        ConfigField::LogRecord => "logging.record"@,
        ConfigField::LogAutoOpen => "logging.auto_open"@,
        ConfigField::GamedbInterval => "gamedb.update_interval_days"@,
        ConfigField::EnvTable => "env (global)"@,
        ConfigField::WineDllOverrideTable => "winedlloverride (global)"@,
    }
}

pub open spec fn config_field_kind(f: ConfigField) -> FieldKind {
    match f {
        ConfigField::Proton => FieldKind::ProtonPicker,
        ConfigField::PrefixMode => FieldKind::Cycle,
        ConfigField::PrefixPath => FieldKind::Text,
        ConfigField::PrefixesRoot => FieldKind::Text,
        ConfigField::WindowsVersion => FieldKind::Text,
        ConfigField::Gamescope => FieldKind::Cycle,
        ConfigField::GamescopeOutputWidth => FieldKind::Text,
        ConfigField::GamescopeOutputHeight => FieldKind::Text,
        ConfigField::GamescopeRefresh => FieldKind::Text,
        ConfigField::GamescopeNestedWidth => FieldKind::Text,
        ConfigField::GamescopeNestedHeight => FieldKind::Text,
        ConfigField::GamescopeFilter => FieldKind::Cycle,
        ConfigField::GamescopeScaler => FieldKind::Cycle,
        ConfigField::GamescopeBorderless => FieldKind::Cycle,
        ConfigField::GamescopeGrabCursor => FieldKind::Cycle,
        ConfigField::GamescopeAdaptiveSync => FieldKind::Cycle,
        ConfigField::LaunchWrapper => FieldKind::Text,
        ConfigField::LogMode => FieldKind::Cycle,
        ConfigField::LogPath => FieldKind::Text,
        ConfigField::LogKeep => FieldKind::Number,
        ConfigField::LogRecord => FieldKind::Cycle,
        ConfigField::LogAutoOpen => FieldKind::Toggle,
        ConfigField::GamedbInterval => FieldKind::Number,
        ConfigField::EnvTable => FieldKind::MapEditor,
        ConfigField::WineDllOverrideTable => FieldKind::MapEditor,
    }
}

impl ConfigField {
    pub const ALL: [ConfigField; 25] = [
        ConfigField::Proton,
        ConfigField::PrefixMode,
        ConfigField::PrefixPath,
        ConfigField::PrefixesRoot,
        ConfigField::WindowsVersion,
        ConfigField::Gamescope,
        ConfigField::GamescopeOutputWidth,
        ConfigField::GamescopeOutputHeight,
        ConfigField::GamescopeRefresh,
        ConfigField::GamescopeNestedWidth,
        ConfigField::GamescopeNestedHeight,
        ConfigField::GamescopeFilter,
        ConfigField::GamescopeScaler,
        ConfigField::GamescopeBorderless,
        ConfigField::GamescopeGrabCursor,
        ConfigField::GamescopeAdaptiveSync,
        ConfigField::LaunchWrapper,
        ConfigField::LogMode,
        ConfigField::LogPath,
        ConfigField::LogKeep,
        ConfigField::LogRecord,
        ConfigField::LogAutoOpen,
        ConfigField::GamedbInterval,
        ConfigField::EnvTable,
        ConfigField::WineDllOverrideTable,
    ];

    pub fn label(self) -> (r: &'static str)
        ensures
            r@ == config_field_label(self),
    {
        match self {
            ConfigField::Proton => "defaults.proton",
            ConfigField::PrefixMode => "defaults.prefix_mode",
            ConfigField::PrefixPath => "defaults.prefix_path",
            ConfigField::PrefixesRoot => "defaults.prefixes_root",
            ConfigField::WindowsVersion => "defaults.windows-version",
            ConfigField::Gamescope => "defaults.gamescope",
            ConfigField::GamescopeOutputWidth => "defaults.gamescope_settings.output_width (-W)",
            ConfigField::GamescopeOutputHeight => "defaults.gamescope_settings.output_height (-H)",
            ConfigField::GamescopeRefresh => "defaults.gamescope_settings.refresh (-r)",
            ConfigField::GamescopeNestedWidth => "defaults.gamescope_settings.nested_width (-w)",
            ConfigField::GamescopeNestedHeight => "defaults.gamescope_settings.nested_height (-h)",
            ConfigField::GamescopeFilter => "defaults.gamescope_settings.filter (-F)",
            ConfigField::GamescopeScaler => "defaults.gamescope_settings.scaler (-S)",
            ConfigField::GamescopeBorderless => "defaults.gamescope_settings.borderless (-b)",
            ConfigField::GamescopeGrabCursor => "defaults.gamescope_settings.grab_cursor",
            ConfigField::GamescopeAdaptiveSync => "defaults.gamescope_settings.adaptive_sync",
            ConfigField::LaunchWrapper => "defaults.launch_wrapper",
            ConfigField::LogMode => "logging.mode",
            ConfigField::LogPath => "logging.path (blank = default)",
            ConfigField::LogKeep => "logging.keep",
            ConfigField::LogRecord => "logging.record",
            ConfigField::LogAutoOpen => "logging.auto_open",
            ConfigField::GamedbInterval => "gamedb.update_interval_days",
            ConfigField::EnvTable => "env (global)",
            ConfigField::WineDllOverrideTable => "winedlloverride (global)",
        }
    }

    pub fn kind(self) -> (r: FieldKind)
        ensures
            r == config_field_kind(self),
    {
        match self {
            ConfigField::Proton => FieldKind::ProtonPicker,
            ConfigField::PrefixMode => FieldKind::Cycle,
            ConfigField::PrefixPath => FieldKind::Text,
            ConfigField::PrefixesRoot => FieldKind::Text,
            ConfigField::WindowsVersion => FieldKind::Text,
            ConfigField::Gamescope => FieldKind::Cycle,
            ConfigField::GamescopeOutputWidth => FieldKind::Text,
            ConfigField::GamescopeOutputHeight => FieldKind::Text,
            ConfigField::GamescopeRefresh => FieldKind::Text,
            ConfigField::GamescopeNestedWidth => FieldKind::Text,
            ConfigField::GamescopeNestedHeight => FieldKind::Text,
            ConfigField::GamescopeFilter => FieldKind::Cycle,
            ConfigField::GamescopeScaler => FieldKind::Cycle,
            ConfigField::GamescopeBorderless => FieldKind::Cycle,
            ConfigField::GamescopeGrabCursor => FieldKind::Cycle,
            ConfigField::GamescopeAdaptiveSync => FieldKind::Cycle,
            ConfigField::LaunchWrapper => FieldKind::Text,
            ConfigField::LogMode => FieldKind::Cycle,
            ConfigField::LogPath => FieldKind::Text,
            ConfigField::LogKeep => FieldKind::Number,
            ConfigField::LogRecord => FieldKind::Cycle,
            ConfigField::LogAutoOpen => FieldKind::Toggle,
            ConfigField::GamedbInterval => FieldKind::Number,
            ConfigField::EnvTable => FieldKind::MapEditor,
            ConfigField::WineDllOverrideTable => FieldKind::MapEditor,
        }
    }

}

/// One row of the Config tab's desktop integration table, shown below the
/// settings list and sharing one selection index with it.
#[derive(Debug, Clone, Copy, PartialEq, Eq, Structural)]
pub enum IntegrateField {
    Status,
    BinaryPath,
    Setup,
    Reapply,
    Uninstall,
}

pub open spec fn integrate_field_label(f: IntegrateField) -> Seq<char> {
    match f {
        IntegrateField::Status => "status"@,
        IntegrateField::BinaryPath => "binary location"@,
        IntegrateField::Setup => "setup desktop integration"@,
        IntegrateField::Reapply => "reapply (refresh binary location)"@,
        IntegrateField::Uninstall => "uninstall desktop integration"@,
    }
}

impl IntegrateField {
    pub const ALL: [IntegrateField; 5] = [
        IntegrateField::Status,
        IntegrateField::BinaryPath,
        IntegrateField::Setup,
        IntegrateField::Reapply,
        IntegrateField::Uninstall,
    ];

    pub fn label(self) -> (r: &'static str)
        ensures
            r@ == integrate_field_label(self),
    {
        match self {
            IntegrateField::Status => "status",
            IntegrateField::BinaryPath => "binary location",
            IntegrateField::Setup => "setup desktop integration",
            IntegrateField::Reapply => "reapply (refresh binary location)",
            IntegrateField::Uninstall => "uninstall desktop integration",
        }
    }

}

/// Which of the desktop integration actions a row runs.
#[derive(Debug, Clone, Copy, PartialEq, Eq, Structural)]
pub enum IntegrateAction {
    Setup,
    Reapply,
    Uninstall,
}

/// One row of a profile's editor, in display order. Every field but the
/// exe path, slug and name is an override that can go back to "inherit".
#[derive(Debug, Clone, Copy, PartialEq, Eq, Structural)]
pub enum ProfileField {
    TargetPath,
    Slug,
    Name,
    Title,
    Args,
    Proton,
    PrefixPath,
    WindowsVersion,
    Gamescope,
    GamescopeOutputWidth,
    GamescopeOutputHeight,
    GamescopeRefresh,
    GamescopeNestedWidth,
    GamescopeNestedHeight,
    GamescopeFilter,
    GamescopeScaler,
    GamescopeBorderless,
    GamescopeGrabCursor,
    GamescopeAdaptiveSync,
    LaunchWrapper,
    LogKeep,
    LogRecord,
    LogAutoOpen,
    EnvTable,
    WineDllOverrideTable,
}

pub open spec fn profile_field_label(f: ProfileField) -> Seq<char> {
    match f {
        ProfileField::TargetPath => "target-path (exe location)"@,
        ProfileField::Slug => "slug (folder name)"@,
        ProfileField::Name => "name (#N auto-managed)"@,
        ProfileField::Title => "title (for GAMEID matching)"@,
        ProfileField::Args => "args (space-separated)"@,
        ProfileField::Proton => "defaults.proton override (per-slug mode only)"@,
        ProfileField::PrefixPath => "defaults.prefix_path override"@,
        ProfileField::WindowsVersion => "defaults.windows-version override"@,
        ProfileField::Gamescope => "defaults.gamescope override"@,
        ProfileField::GamescopeOutputWidth => "gamescope output_width override (-W)"@,
        ProfileField::GamescopeOutputHeight => "gamescope output_height override (-H)"@,
        ProfileField::GamescopeRefresh => "gamescope refresh override (-r)"@,
        ProfileField::GamescopeNestedWidth => "gamescope nested_width override (-w)"@,
        ProfileField::GamescopeNestedHeight => "gamescope nested_height override (-h)"@,
        ProfileField::GamescopeFilter => "gamescope filter override (-F)"@,
        ProfileField::GamescopeScaler => "gamescope scaler override (-S)"@,
        ProfileField::GamescopeBorderless => "gamescope borderless override (-b)"@,
        ProfileField::GamescopeGrabCursor => "gamescope grab_cursor override"@,
        ProfileField::GamescopeAdaptiveSync => "gamescope adaptive_sync override"@,
        ProfileField::LaunchWrapper => "defaults.launch_wrapper override"@,
        ProfileField::LogKeep => "logging.keep override"@,
        ProfileField::LogRecord => "logging.record override"@,
        ProfileField::LogAutoOpen => "logging.auto_open override"@,
        ProfileField::EnvTable => "env override"@,
        ProfileField::WineDllOverrideTable => "winedlloverride override"@,
    }
}

pub open spec fn profile_field_kind(f: ProfileField) -> FieldKind {
    match f {
        ProfileField::TargetPath => FieldKind::Text,
        ProfileField::Slug => FieldKind::Text,
        ProfileField::Name => FieldKind::Text,
        ProfileField::Title => FieldKind::Text,
        ProfileField::Args => FieldKind::Text,
        ProfileField::Proton => FieldKind::ProtonPicker,
        ProfileField::PrefixPath => FieldKind::Text,
        ProfileField::WindowsVersion => FieldKind::Text,
        ProfileField::Gamescope => FieldKind::Cycle,
        ProfileField::GamescopeOutputWidth => FieldKind::Text,
        ProfileField::GamescopeOutputHeight => FieldKind::Text,
        ProfileField::GamescopeRefresh => FieldKind::Text,
        ProfileField::GamescopeNestedWidth => FieldKind::Text,
        ProfileField::GamescopeNestedHeight => FieldKind::Text,
        ProfileField::GamescopeFilter => FieldKind::Cycle,
        ProfileField::GamescopeScaler => FieldKind::Cycle,
        ProfileField::GamescopeBorderless => FieldKind::Cycle,
        ProfileField::GamescopeGrabCursor => FieldKind::Cycle,
        ProfileField::GamescopeAdaptiveSync => FieldKind::Cycle,
        ProfileField::LaunchWrapper => FieldKind::Text,
        ProfileField::LogKeep => FieldKind::Text,
        ProfileField::LogRecord => FieldKind::Cycle,
        ProfileField::LogAutoOpen => FieldKind::Cycle,
        ProfileField::EnvTable => FieldKind::MapEditor,
        ProfileField::WineDllOverrideTable => FieldKind::MapEditor,
    }
}

impl ProfileField {
    pub const ALL: [ProfileField; 25] = [
        ProfileField::TargetPath,
        ProfileField::Slug,
        ProfileField::Name,
        ProfileField::Title,
        ProfileField::Args,
        ProfileField::Proton,
        ProfileField::PrefixPath,
        ProfileField::WindowsVersion,
        ProfileField::Gamescope,
        ProfileField::GamescopeOutputWidth,
        ProfileField::GamescopeOutputHeight,
        ProfileField::GamescopeRefresh,
        ProfileField::GamescopeNestedWidth,
        ProfileField::GamescopeNestedHeight,
        ProfileField::GamescopeFilter,
        ProfileField::GamescopeScaler,
        ProfileField::GamescopeBorderless,
        ProfileField::GamescopeGrabCursor,
        ProfileField::GamescopeAdaptiveSync,
        ProfileField::LaunchWrapper,
        ProfileField::LogKeep,
        ProfileField::LogRecord,
        ProfileField::LogAutoOpen,
        ProfileField::EnvTable,
        ProfileField::WineDllOverrideTable,
    ];

    pub fn label(self) -> (r: &'static str)
        ensures
            r@ == profile_field_label(self),
    {
        match self {
            ProfileField::TargetPath => "target-path (exe location)",
            ProfileField::Slug => "slug (folder name)",
            ProfileField::Name => "name (#N auto-managed)",
            ProfileField::Title => "title (for GAMEID matching)",
            ProfileField::Args => "args (space-separated)",
            ProfileField::Proton => "defaults.proton override (per-slug mode only)",
            ProfileField::PrefixPath => "defaults.prefix_path override",
            ProfileField::WindowsVersion => "defaults.windows-version override",
            ProfileField::Gamescope => "defaults.gamescope override",
            ProfileField::GamescopeOutputWidth => "gamescope output_width override (-W)",
            ProfileField::GamescopeOutputHeight => "gamescope output_height override (-H)",
            ProfileField::GamescopeRefresh => "gamescope refresh override (-r)",
            ProfileField::GamescopeNestedWidth => "gamescope nested_width override (-w)",
            ProfileField::GamescopeNestedHeight => "gamescope nested_height override (-h)",
            ProfileField::GamescopeFilter => "gamescope filter override (-F)",
            ProfileField::GamescopeScaler => "gamescope scaler override (-S)",
            ProfileField::GamescopeBorderless => "gamescope borderless override (-b)",
            ProfileField::GamescopeGrabCursor => "gamescope grab_cursor override",
            ProfileField::GamescopeAdaptiveSync => "gamescope adaptive_sync override",
            ProfileField::LaunchWrapper => "defaults.launch_wrapper override",
            ProfileField::LogKeep => "logging.keep override",
            ProfileField::LogRecord => "logging.record override",
            ProfileField::LogAutoOpen => "logging.auto_open override",
            ProfileField::EnvTable => "env override",
            ProfileField::WineDllOverrideTable => "winedlloverride override",
        }
    }

    pub fn kind(self) -> (r: FieldKind)
        ensures
            r == profile_field_kind(self),
    {
        match self {
            ProfileField::TargetPath => FieldKind::Text,
            ProfileField::Slug => FieldKind::Text,
            ProfileField::Name => FieldKind::Text,
            ProfileField::Title => FieldKind::Text,
            ProfileField::Args => FieldKind::Text,
            ProfileField::Proton => FieldKind::ProtonPicker,
            ProfileField::PrefixPath => FieldKind::Text,
            ProfileField::WindowsVersion => FieldKind::Text,
            ProfileField::Gamescope => FieldKind::Cycle,
            ProfileField::GamescopeOutputWidth => FieldKind::Text,
            ProfileField::GamescopeOutputHeight => FieldKind::Text,
            ProfileField::GamescopeRefresh => FieldKind::Text,
            ProfileField::GamescopeNestedWidth => FieldKind::Text,
            ProfileField::GamescopeNestedHeight => FieldKind::Text,
            ProfileField::GamescopeFilter => FieldKind::Cycle,
            ProfileField::GamescopeScaler => FieldKind::Cycle,
            ProfileField::GamescopeBorderless => FieldKind::Cycle,
            ProfileField::GamescopeGrabCursor => FieldKind::Cycle,
            ProfileField::GamescopeAdaptiveSync => FieldKind::Cycle,
            ProfileField::LaunchWrapper => FieldKind::Text,
            ProfileField::LogKeep => FieldKind::Text,
            ProfileField::LogRecord => FieldKind::Cycle,
            ProfileField::LogAutoOpen => FieldKind::Cycle,
            ProfileField::EnvTable => FieldKind::MapEditor,
            ProfileField::WineDllOverrideTable => FieldKind::MapEditor,
        }
    }

}

} // verus!

verus! {

// ---------------------------------------------------------------------------
// Popups
// ---------------------------------------------------------------------------

#[derive(Debug, Clone, Copy, PartialEq, Eq, Structural)]
pub enum MapEntryStep {
    Key,
    Value,
}

/// Which setting a Proton picker session sets: the global default, or one
/// profile's override (which also offers "inherit").
#[derive(Debug, PartialEq, Eq)]
pub enum ProtonPickerTarget {
    Global,
    Profile(String),
}

impl Clone for ProtonPickerTarget {
    fn clone(&self) -> (r: Self)
        ensures
            r == *self,
    {
        match self {
            ProtonPickerTarget::Global => ProtonPickerTarget::Global,
            ProtonPickerTarget::Profile(s) => ProtonPickerTarget::Profile(s.clone()),
        }
    }
}

/// What a text popup's buffer is for once Enter confirms it.
#[derive(Debug)]
pub enum TextInputPurpose {
    ConfigField(ConfigField),
    /// The exe path of a game to add (by launching it once).
    AddLibraryPath,
    /// The follow-up title prompt after a game was added; holds its slug.
    /// An empty buffer skips it.
    ProfileTitle(String),
    /// A profile editor text field; an empty buffer clears the override.
    ProfileField(String, ProfileField),
}

/// Which map a map editor session edits: the global `env` or
/// `winedlloverride`, or one profile's override table (by slug).
#[derive(Debug, PartialEq, Eq)]
pub enum MapField {
    Env,
    WineDllOverride,
    ProfileEnv(String),
    ProfileWineDllOverride(String),
}

impl Clone for MapField {
    fn clone(&self) -> (r: Self)
        ensures
            r == *self,
    {
        match self {
            MapField::Env => MapField::Env,
            MapField::WineDllOverride => MapField::WineDllOverride,
            MapField::ProfileEnv(s) => MapField::ProfileEnv(s.clone()),
            MapField::ProfileWineDllOverride(s) => MapField::ProfileWineDllOverride(s.clone()),
        }
    }
}

pub open spec fn map_field_label(f: MapField) -> Seq<char> {
    match f {
        MapField::Env => "env"@,
        MapField::WineDllOverride => "winedlloverride"@,
        MapField::ProfileEnv(slug) => slug@ + "'s env override"@,
        MapField::ProfileWineDllOverride(slug) => slug@ + "'s winedlloverride override"@,
    }
}

impl MapField {
    pub fn label(&self) -> (r: String)
        ensures
            r@ == map_field_label(*self),
    {
        match self {
            MapField::Env => "env".to_string(),
            MapField::WineDllOverride => "winedlloverride".to_string(),
            MapField::ProfileEnv(slug) => crate::text::concat(slug.as_str(), "'s env override"),
            MapField::ProfileWineDllOverride(slug) => crate::text::concat(
                slug.as_str(),
                "'s winedlloverride override",
            ),
        }
    }
}

/// Which input source produced the last key press, so the key legends can
/// name the right button.
#[derive(Debug, Clone, Copy, PartialEq, Eq, Structural)]
pub enum InputKind {
    Keyboard,
    Gamepad,
}

impl Default for InputKind {
    fn default() -> (r: Self)
        ensures
            r == InputKind::Keyboard,
    {
        InputKind::Keyboard
    }
}

/// The popup (if any) that currently takes every key press.
pub enum Mode {
    Normal,
    /// Free-text edit; `cursor` is a character index into `buffer`.
    TextInput { purpose: TextInputPurpose, buffer: String, cursor: usize },
    /// Picking a Proton build. Row 0 is "system" for the global default;
    /// for a profile, row 0 is "inherit" and row 1 "system".
    ProtonPicker { builds: Vec<ProtonBuild>, selected: usize, target: ProtonPickerTarget },
    /// Browsing one map's entries.
    MapEditor { field: MapField, selected: usize },
    /// Adding or editing one entry of a map: key first, then value.
    /// `original_key` is the key being edited, `None` when adding.
    MapEntryInput {
        field: MapField,
        original_key: Option<String>,
        step: MapEntryStep,
        key: String,
        value: String,
    },
    ConfirmDeleteProfile { slug: String, name: String },
    /// Confirming a slug rename that also moves an existing per-slug prefix
    /// directory.
    ConfirmRenameSlug { slug: String, candidate: String, old_prefix_dir: String, new_prefix_dir: String },
    /// The help text as an overlay.
    Help,
    ConfirmWinetricks { slug: String, name: String },
    /// Adding a game to Steam: 0 = add, 1 = add with its gamescope flags,
    /// 2 = cancel.
    ConfirmAddToSteam { slug: String, name: String, selected: usize },
}

/// The rows of the add-to-Steam popup.
pub const CONFIRM_ADD_TO_STEAM_OPTIONS: [&'static str; 3] = [
    "Add to Steam",
    "Add to Steam with this game's gamescope flags",
    "Cancel",
];

/// Outside work a key press asks for. The binary performs it and hands the
/// outcome back to the function that finishes the job.
pub enum Effect {
    Nothing,
    /// Write the global config file.
    SaveConfig,
    /// Write this profile's file (see `profile_editor::save_profile`).
    SaveProfile(String),
    /// List the running games again (`App::refresh_running`).
    ReloadRunning,
    /// Load the library again (`library::refresh`).
    ReloadProfiles,
    /// Stop a running game (`running::finish_kill`).
    Kill { launch_id: String, name: String },
    /// Scan the installed Proton builds and open the picker
    /// (`config::open_proton_picker`).
    ScanProton(ProtonPickerTarget),
    /// Run a desktop integration action (`config::integrate_guard_message`,
    /// then `config::finish_integrate`).
    Integrate(IntegrateAction),
    /// Launch (and so add, if new) the game at `target`
    /// (`library::finish_launch`).
    Launch { target: String, label: String },
    /// Copy the quick-launch command of this slug (`library::finish_copy`).
    CopyQuickLaunch(String),
    /// Run winetricks against this game's prefix.
    Winetricks { slug: String, name: String },
    /// Delete this profile's folder (`library::finish_delete`).
    DeleteProfile { slug: String, name: String },
    /// Add this game to Steam (`library::finish_add_to_steam`).
    AddToSteam { slug: String, name: String, with_gamescope_flags: bool },
    /// Set the title of a freshly added game (`library::apply_profile_title`).
    SetProfileTitle { slug: String, buffer: String },
    /// Check that `path` is a file before making it the profile's exe
    /// (`profile_editor::finish_target_path`).
    CheckTargetPath { slug: String, path: String },
    /// Rename a profile's folder. With `prefix_dirs`, first check whether
    /// the old per-slug prefix directory exists
    /// (`profile_editor::finish_prefix_check`).
    RenameSlug { slug: String, candidate: String, prefix_dirs: Option<(String, String)> },
    /// Move the prefix directory, then rename the profile's folder
    /// (`profile_editor::finish_prefix_move`).
    MovePrefixAndRename { slug: String, candidate: String, old_prefix_dir: String, new_prefix_dir: String },
}

// ---------------------------------------------------------------------------
// The application state
// ---------------------------------------------------------------------------

pub struct App {
    pub cfg: Config,
    pub tab: Tab,
    pub mode: Mode,
    pub should_quit: bool,
    pub status: Option<String>,
    pub input_kind: InputKind,
    pub running: Vec<RunningEntry>,
    /// An index into the displayed (possibly filtered) Running list.
    pub running_selected: usize,
    /// The Running tab's quick-search text while one is active.
    pub running_filter: Option<String>,
    /// Typing into the filter (`true`) or locked (`false`).
    pub running_filter_editing: bool,
    pub profiles: Vec<(String, Profile)>,
    /// An index into the displayed (possibly filtered) Library list.
    pub library_selected: usize,
    pub library_filter: Option<String>,
    pub library_filter_editing: bool,
    /// Slugs already added to Steam as shortcuts.
    pub steam_slugs: Vec<String>,
    /// One index over the settings list and the integration table below it.
    pub config_selected: usize,
    /// The slug whose editor the Library tab shows, if any.
    pub profile_editor: Option<String>,
    pub profile_field_selected: usize,
    /// Scroll offset (lines) of the help text, shared by the Help tab and
    /// the help popup.
    pub help_scroll: u16,
    /// When (milliseconds, on the binary's clock) the marquee target last
    /// changed.
    pub marquee_reset_ms: u64,
    /// The selection signature the marquee last saw.
    pub marquee_last_signature: String,
}

// ---------------------------------------------------------------------------
// Filtering
// ---------------------------------------------------------------------------

/// A name is shown under a filter when its lowercase form contains the
/// filter's lowercase form; with no filter every name is shown.
pub open spec fn filter_matches(name: Seq<char>, filter: Option<String>) -> bool {
    match filter {
        None => true,
        Some(f) => contains_spec(spec_to_lowercase(name), spec_to_lowercase(f@)),
    }
}

/// The indices of the names shown under `filter`, in order.
pub open spec fn matching_indices(names: Seq<Seq<char>>, filter: Option<String>) -> Seq<usize>
    decreases names.len(),
{
    if names.len() == 0 {
        Seq::empty()
    } else {
        let r = matching_indices(names.drop_last(), filter);
        if filter_matches(names.last(), filter) {
            r.push((names.len() - 1) as usize)
        } else {
            r
        }
    }
}

pub open spec fn profile_names(ps: Seq<(String, Profile)>) -> Seq<Seq<char>> {
    ps.map_values(|e: (String, Profile)| e.1.name@)
}

pub open spec fn running_names(rs: Seq<RunningEntry>) -> Seq<Seq<char>> {
    rs.map_values(|e: RunningEntry| e.name@)
}

/// Every index in `matching_indices` is a valid index of `names`, and the
/// indices are strictly increasing.
pub proof fn lemma_matching_indices_in_range(names: Seq<Seq<char>>, filter: Option<String>)
    requires
        names.len() <= usize::MAX,
    ensures
        forall|k: int|
            0 <= k < matching_indices(names, filter).len() ==> (#[trigger] matching_indices(names, filter)[k])
                < names.len(),
        forall|k: int, l: int|
            0 <= k < l < matching_indices(names, filter).len() ==> #[trigger] matching_indices(names, filter)[k]
                < #[trigger] matching_indices(names, filter)[l],
        matching_indices(names, filter).len() <= names.len(),
    decreases names.len(),
{
    if names.len() > 0 {
        let r = matching_indices(names.drop_last(), filter);
        lemma_matching_indices_in_range(names.drop_last(), filter);
        let s = matching_indices(names, filter);
        assert forall|k: int, l: int| 0 <= k < l < s.len() implies #[trigger] s[k] < #[trigger] s[l] by {
            if l < r.len() {
                assert(s[k] == r[k] && s[l] == r[l]);
            } else {
                assert(s[k] == r[k]);
                assert(r[k] < names.drop_last().len());
            }
        }
    }
}

/// With no filter every index is shown.
pub proof fn lemma_no_filter_shows_everything(names: Seq<Seq<char>>)
    requires
        names.len() <= usize::MAX,
    ensures
        matching_indices(names, None) == Seq::new(names.len(), |i: int| i as usize),
    decreases names.len(),
{
    if names.len() > 0 {
        lemma_no_filter_shows_everything(names.drop_last());
        assert(matching_indices(names, None) =~= Seq::new(names.len(), |i: int| i as usize));
    } else {
        assert(matching_indices(names, None) =~= Seq::new(names.len(), |i: int| i as usize));
    }
}

fn filtered_indices(names: &Vec<String>, filter: &Option<String>) -> (r: Vec<usize>)
    ensures
        r@ == matching_indices(names@.map_values(|s: String| s@), *filter),
{
    let ghost ns = names@.map_values(|s: String| s@);
    let needle: Option<String> = match filter {
        Some(f) => Some(to_lowercase(f.as_str())),
        None => None,
    };
    let mut out: Vec<usize> = Vec::new();
    let mut i: usize = 0;
    while i < names.len()
        invariant
            i <= names@.len(),
            ns == names@.map_values(|s: String| s@),
            out@ == matching_indices(ns.take(i as int), *filter),
            match *filter {
                Some(f) => needle matches Some(n) && n@ == spec_to_lowercase(f@),
                None => needle is None,
            },
        decreases names@.len() - i,
    {
        assert(ns.take(i + 1).drop_last() == ns.take(i as int));
        assert(ns.take(i + 1).last() == names@[i as int]@);
        let keep = match &needle {
            Some(n) => {
                let lower = to_lowercase(names[i].as_str());
                crate::text::str_contains(lower.as_str(), n.as_str())
            },
            None => true,
        };
        if keep {
            out.push(i);
        }
        i = i + 1;
    }
    assert(ns.take(names@.len() as int) == ns);
    out
}

// ---------------------------------------------------------------------------
// Looking profiles up
// ---------------------------------------------------------------------------

/// `i` is the first profile whose slug is `slug`.
pub open spec fn profile_slot(ps: Seq<(String, Profile)>, slug: Seq<char>, i: int) -> bool {
    &&& 0 <= i < ps.len()
    &&& ps[i].0@ == slug
    &&& forall|j: int| 0 <= j < i ==> (#[trigger] ps[j]).0@ != slug
}

/// The index of the first profile with this slug, if there is one.
pub open spec fn slot_of(ps: Seq<(String, Profile)>, slug: Seq<char>) -> Option<int> {
    if exists|i: int| profile_slot(ps, slug, i) {
        Some(choose|i: int| profile_slot(ps, slug, i))
    } else {
        None
    }
}

proof fn lemma_slot_unique(ps: Seq<(String, Profile)>, slug: Seq<char>, i: int)
    requires
        profile_slot(ps, slug, i),
    ensures
        slot_of(ps, slug) == Some(i),
{
    let j = choose|j: int| profile_slot(ps, slug, j);
    assert(profile_slot(ps, slug, j));
    if j < i {
        assert(ps[j].0@ != slug);
    } else if i < j {
        assert(ps[i].0@ != slug);
    }
}

/// App `b` is `a` with profile `i` replaced by `p` (its slug kept).
pub open spec fn replaced_profile(a: App, b: App, i: int, p: Profile) -> bool {
    &&& 0 <= i < a.profiles@.len()
    &&& b.profiles@ == a.profiles@.update(i, (a.profiles@[i].0, p))
    &&& b == (App { profiles: b.profiles, ..a })
}

/// The map a `MapField` refers to in `app`; none for a profile slug that
/// no profile has.
pub open spec fn map_of(app: App, field: MapField) -> Option<StrMap> {
    match field {
        MapField::Env => Some(app.cfg.env),
        MapField::WineDllOverride => Some(app.cfg.winedlloverride),
        MapField::ProfileEnv(slug) => match slot_of(app.profiles@, slug@) {
            Some(i) => Some(app.profiles@[i].1.env),
            None => None,
        },
        MapField::ProfileWineDllOverride(slug) => match slot_of(app.profiles@, slug@) {
            Some(i) => Some(app.profiles@[i].1.winedlloverride),
            None => None,
        },
    }
}

/// App `b` is `a` with the map that `field` refers to replaced by `m`.
pub open spec fn replaced_map(a: App, b: App, field: MapField, m: StrMap) -> bool {
    match field {
        MapField::Env => b == (App { cfg: Config { env: m, ..a.cfg }, ..a }),
        MapField::WineDllOverride => b == (App { cfg: Config { winedlloverride: m, ..a.cfg }, ..a }),
        MapField::ProfileEnv(slug) => match slot_of(a.profiles@, slug@) {
            Some(i) => replaced_profile(a, b, i, Profile { env: m, ..a.profiles@[i].1 }),
            None => b == a,
        },
        MapField::ProfileWineDllOverride(slug) => match slot_of(a.profiles@, slug@) {
            Some(i) => replaced_profile(a, b, i, Profile { winedlloverride: m, ..a.profiles@[i].1 }),
            None => b == a,
        },
    }
}

} // verus!

verus! {

// ---------------------------------------------------------------------------
// Library order
// ---------------------------------------------------------------------------

/// The library's sort key: a profile's name, lowercased.
pub open spec fn profile_key(e: (String, Profile)) -> Seq<char> {
    spec_to_lowercase(e.1.name@)
}

/// `x` inserted into a sorted list after every entry whose key is not
/// greater than its own, so entries with equal keys keep their order.
pub open spec fn insert_by_name(s: Seq<(String, Profile)>, x: (String, Profile)) -> Seq<(String, Profile)>
    decreases s.len(),
{
    if s.len() == 0 || !key_lt(profile_key(x), profile_key(s.last())) {
        s.push(x)
    } else {
        insert_by_name(s.drop_last(), x).push(s.last())
    }
}

/// The profiles in a stable order by lowercased name.
pub open spec fn sort_by_name(s: Seq<(String, Profile)>) -> Seq<(String, Profile)>
    decreases s.len(),
{
    if s.len() == 0 {
        s
    } else {
        insert_by_name(sort_by_name(s.drop_last()), s.last())
    }
}

proof fn lemma_insert_by_name_at(s: Seq<(String, Profile)>, x: (String, Profile), p: int)
    requires
        0 <= p <= s.len(),
        forall|k: int| p <= k < s.len() ==> key_lt(profile_key(x), #[trigger] profile_key(s[k])),
        p == 0 || !key_lt(profile_key(x), profile_key(s[p - 1])),
    ensures
        insert_by_name(s, x) == s.subrange(0, p).push(x) + s.subrange(p, s.len() as int),
    decreases s.len(),
{
    if p == s.len() {
        assert(s.subrange(0, p) == s);
        assert(s.push(x) + s.subrange(p, s.len() as int) =~= s.push(x));
    } else {
        assert(key_lt(profile_key(x), profile_key(s[s.len() - 1])));
        let t = s.drop_last();
        assert forall|k: int| p <= k < t.len() implies key_lt(profile_key(x), #[trigger] profile_key(t[k])) by {
            assert(t[k] == s[k]);
        }
        if p > 0 {
            assert(t[p - 1] == s[p - 1]);
        }
        lemma_insert_by_name_at(t, x, p);
        assert(s.subrange(0, p).push(x) + s.subrange(p, s.len() as int) =~= (t.subrange(0, p).push(x) + t.subrange(
            p,
            t.len() as int,
        )).push(s.last()));
    }
}

/// Sorts the library in place, stable, by lowercased name.
fn sort_profiles_by_name(v: &mut Vec<(String, Profile)>)
    ensures
        final(v)@ == sort_by_name(old(v)@),
{
    let ghost orig = old(v)@;
    let n = v.len();
    let mut keys: Vec<Vec<char>> = Vec::new();
    let mut i: usize = 0;
    while i < n
        invariant
            n == orig.len(),
            i <= n,
            v@.len() == n,
            v@.take(i as int) == sort_by_name(orig.take(i as int)),
            v@.skip(i as int) == orig.skip(i as int),
            keys@.len() == i,
            forall|k: int| 0 <= k < i ==> keys@[k]@ == #[trigger] profile_key(v@[k]),
        decreases n - i,
    {
        assert(orig.take(i + 1).drop_last() == orig.take(i as int));
        assert(orig.take(i + 1).last() == orig[i as int]);
        assert(v@[i as int] == v@.skip(i as int)[0]);
        let ghost sorted = v@.take(i as int);
        let ghost rest = v@.skip(i as int + 1);
        assert forall|k: int| 0 <= k < rest.len() implies rest[k] == orig.skip(i as int + 1)[k] by {
            assert(v@.skip(i as int)[k + 1] == orig.skip(i as int)[k + 1]);
        }
        assert(rest =~= orig.skip(i as int + 1));
        let x = v.remove(i);
        assert(x == orig[i as int]);
        assert(v@ =~= sorted + rest);
        let kx_s = to_lowercase(x.1.name.as_str());
        let kx = crate::text::chars_of(kx_s.as_str());
        let mut p: usize = i;
        while p > 0
            invariant_except_break
                p > 0 ==> p <= i,
            invariant
                p <= i,
                i < n,
                keys@.len() == i,
                v@ == sorted + rest,
                sorted.len() == i,
                forall|k: int| 0 <= k < i ==> keys@[k]@ == #[trigger] profile_key(sorted[k]),
                kx@ == profile_key(x),
                forall|k: int| p <= k < i ==> key_lt(profile_key(x), #[trigger] profile_key(sorted[k])),
            ensures
                p <= i,
                p == 0 || !key_lt(profile_key(x), profile_key(sorted[p - 1])),
            decreases p,
        {
            if !crate::strmap::chars_lt(&kx, &keys[p - 1]) {
                break;
            }
            p = p - 1;
        }
        proof {
            lemma_insert_by_name_at(sorted, x, p as int);
        }
        let ghost old_keys = keys@;
        v.insert(p, x);
        keys.insert(p, kx);
        assert(v@.take(i + 1) =~= sorted.subrange(0, p as int).push(x) + sorted.subrange(p as int, i as int));
        assert(v@.skip(i + 1) =~= rest);
        assert forall|k: int| 0 <= k < i + 1 implies keys@[k]@ == #[trigger] profile_key(v@[k]) by {
            if k < p {
                assert(keys@[k] == old_keys[k] && v@[k] == sorted[k]);
            } else if k > p {
                assert(keys@[k] == old_keys[k - 1] && v@[k] == sorted[k - 1]);
            }
        }
        i = i + 1;
    }
    assert(orig.take(n as int) == orig);
    assert(v@.take(n as int) == v@);
}

/// A selection index pulled back into a list of `len` items after the list
/// was replaced (an index past the end moves to the last item).
pub open spec fn clamp_selection(sel: int, len: int) -> int {
    if sel >= len {
        if len == 0 {
            0
        } else {
            len - 1
        }
    } else {
        sel
    }
}

/// The library order puts every profile after those whose lowercased name
/// sorts before its own, and keeps the profiles themselves: the result is
/// a rearrangement of the input.
pub proof fn lemma_sort_by_name_keeps_profiles(s: Seq<(String, Profile)>)
    ensures
        sort_by_name(s).to_multiset() == s.to_multiset(),
        sort_by_name(s).len() == s.len(),
    decreases s.len(),
{
    if s.len() > 0 {
        lemma_sort_by_name_keeps_profiles(s.drop_last());
        lemma_insert_by_name_multiset(sort_by_name(s.drop_last()), s.last());
        broadcast use vstd::seq_lib::group_to_multiset_ensures;
        assert(s == s.drop_last().push(s.last()));
        assert(s.drop_last().push(s.last()).to_multiset() == s.drop_last().to_multiset().insert(s.last()));
    }
}

proof fn lemma_insert_by_name_multiset(s: Seq<(String, Profile)>, x: (String, Profile))
    ensures
        insert_by_name(s, x).to_multiset() == s.to_multiset().insert(x),
        insert_by_name(s, x).len() == s.len() + 1,
    decreases s.len(),
{
    broadcast use vstd::seq_lib::group_to_multiset_ensures;
    if s.len() == 0 || !key_lt(profile_key(x), profile_key(s.last())) {
    } else {
        lemma_insert_by_name_multiset(s.drop_last(), x);
        assert(s == s.drop_last().push(s.last()));
        assert(s.drop_last().push(s.last()).to_multiset() == s.drop_last().to_multiset().insert(s.last()));
    }
}

} // verus!

verus! {

/// `b` is `a` after taking a fresh load of the library (or its error).
pub open spec fn after_refresh_profiles(a: App, b: App, loaded: Result<Vec<(String, Profile)>, String>) -> bool {
    &&& match loaded {
        Ok(ps) => b.profiles@ == sort_by_name(ps@) && b.status == a.status,
        Err(e) => b.profiles@ == a.profiles@ && opt_view(b.status) == Some("couldn't list library: "@ + e@),
    }
    &&& b.library_selected == clamp_selection(a.library_selected as int, b.profiles@.len() as int)
    &&& b == (App { profiles: b.profiles, library_selected: b.library_selected, status: b.status, ..a })
}

/// `b` is `a` after taking a fresh listing of the running games (or its
/// error).
pub open spec fn after_refresh_running(a: App, b: App, listed: Result<Vec<RunningEntry>, String>) -> bool {
    &&& match listed {
        Ok(es) => b.running@ == es@ && b.status == a.status,
        Err(e) => b.running@ == a.running@ && opt_view(b.status) == Some("couldn't list running games: "@ + e@),
    }
    &&& b.running_selected == clamp_selection(a.running_selected as int, b.running@.len() as int)
    &&& b == (App { running: b.running, running_selected: b.running_selected, status: b.status, ..a })
}

impl App {
    /// A fresh state on the Running tab with empty lists; the binary fills
    /// them through `refresh_running` and `refresh_profiles`.
    pub fn new(cfg: Config) -> (app: App)
        ensures
            app.cfg == cfg,
            app.tab == Tab::Running,
            app.mode is Normal,
            !app.should_quit,
            app.status is None,
            app.input_kind == InputKind::Keyboard,
            app.running@.len() == 0,
            app.running_selected == 0,
            app.running_filter is None,
            !app.running_filter_editing,
            app.profiles@.len() == 0,
            app.library_selected == 0,
            app.library_filter is None,
            !app.library_filter_editing,
            app.steam_slugs@.len() == 0,
            app.config_selected == 0,
            app.profile_editor is None,
            app.profile_field_selected == 0,
            app.help_scroll == 0,
            app.marquee_reset_ms == 0,
            app.marquee_last_signature@.len() == 0,
    {
        App {
            cfg,
            tab: Tab::Running,
            mode: Mode::Normal,
            should_quit: false,
            status: None,
            input_kind: InputKind::Keyboard,
            running: Vec::new(),
            running_selected: 0,
            running_filter: None,
            running_filter_editing: false,
            profiles: Vec::new(),
            library_selected: 0,
            library_filter: None,
            library_filter_editing: false,
            steam_slugs: Vec::new(),
            config_selected: 0,
            profile_editor: None,
            profile_field_selected: 0,
            help_scroll: 0,
            marquee_reset_ms: 0,
            marquee_last_signature: String::new(),
        }
    }

    /// Takes a fresh listing of the running games (or the error listing
    /// them gave), then pulls the selection back into the list.
    pub fn refresh_running(&mut self, listed: Result<Vec<RunningEntry>, String>)
        ensures
            after_refresh_running(*old(self), *final(self), listed),
    {
        match listed {
            Ok(entries) => self.running = entries,
            Err(err) => self.status = Some(crate::text::concat("couldn't list running games: ", err.as_str())),
        }
        if self.running_selected >= self.running.len() {
            self.running_selected = if self.running.len() == 0 {
                0
            } else {
                self.running.len() - 1
            };
        }
    }

    /// Takes a fresh load of the library (or the error loading it gave),
    /// sorted by lowercased name, then pulls the selection back into it.
    pub fn refresh_profiles(&mut self, loaded: Result<Vec<(String, Profile)>, String>)
        ensures
            after_refresh_profiles(*old(self), *final(self), loaded),
    {
        match loaded {
            Ok(mut profiles) => {
                sort_profiles_by_name(&mut profiles);
                self.profiles = profiles;
            },
            Err(err) => self.status = Some(crate::text::concat("couldn't list library: ", err.as_str())),
        }
        if self.library_selected >= self.profiles.len() {
            self.library_selected = if self.profiles.len() == 0 {
                0
            } else {
                self.profiles.len() - 1
            };
        }
    }

    /// Indices into `profiles` of the rows the Library tab shows: every
    /// index without a filter, else those whose name contains the filter
    /// (both lowercased).
    pub fn filtered_profile_indices(&self) -> (r: Vec<usize>)
        ensures
            r@ == matching_indices(profile_names(self.profiles@), self.library_filter),
    {
        let mut names: Vec<String> = Vec::new();
        let mut i: usize = 0;
        while i < self.profiles.len()
            invariant
                i <= self.profiles@.len(),
                names@.len() == i,
                forall|k: int| 0 <= k < i ==> (#[trigger] names@[k])@ == self.profiles@[k].1.name@,
            decreases self.profiles@.len() - i,
        {
            names.push(self.profiles[i].1.name.clone());
            i = i + 1;
        }
        assert(names@.map_values(|s: String| s@) =~= profile_names(self.profiles@));
        filtered_indices(&names, &self.library_filter)
    }

    /// Same as `filtered_profile_indices`, for the Running tab.
    pub fn filtered_running_indices(&self) -> (r: Vec<usize>)
        ensures
            r@ == matching_indices(running_names(self.running@), self.running_filter),
    {
        let mut names: Vec<String> = Vec::new();
        let mut i: usize = 0;
        while i < self.running.len()
            invariant
                i <= self.running@.len(),
                names@.len() == i,
                forall|k: int| 0 <= k < i ==> (#[trigger] names@[k])@ == self.running@[k].name@,
            decreases self.running@.len() - i,
        {
            names.push(self.running[i].name.clone());
            i = i + 1;
        }
        assert(names@.map_values(|s: String| s@) =~= running_names(self.running@));
        filtered_indices(&names, &self.running_filter)
    }

    /// Clears both quick-searches and moves one tab right.
    pub fn next_tab(&mut self)
        ensures
            *final(self) == (App {
                tab: tab_after(old(self).tab),
                library_filter: None,
                library_filter_editing: false,
                library_selected: 0,
                running_filter: None,
                running_filter_editing: false,
                running_selected: 0,
                ..*old(self)
            }),
    {
        self.clear_filters();
        self.tab = self.tab.next();
    }

    /// Clears both quick-searches and moves one tab left.
    pub fn prev_tab(&mut self)
        ensures
            *final(self) == (App {
                tab: tab_before(old(self).tab),
                library_filter: None,
                library_filter_editing: false,
                library_selected: 0,
                running_filter: None,
                running_filter_editing: false,
                running_selected: 0,
                ..*old(self)
            }),
    {
        self.clear_filters();
        self.tab = self.tab.prev();
    }

    /// Drops the Library quick-search, typing or locked.
    pub fn clear_library_filter(&mut self)
        ensures
            *final(self) == (App {
                library_filter: None,
                library_filter_editing: false,
                library_selected: 0,
                ..*old(self)
            }),
    {
        self.library_filter = None;
        self.library_filter_editing = false;
        self.library_selected = 0;
    }

    /// Drops the Running quick-search, typing or locked.
    pub fn clear_running_filter(&mut self)
        ensures
            *final(self) == (App {
                running_filter: None,
                running_filter_editing: false,
                running_selected: 0,
                ..*old(self)
            }),
    {
        self.running_filter = None;
        self.running_filter_editing = false;
        self.running_selected = 0;
    }

    /// Drops both quick-searches.
    pub fn clear_filters(&mut self)
        ensures
            *final(self) == (App {
                library_filter: None,
                library_filter_editing: false,
                library_selected: 0,
                running_filter: None,
                running_filter_editing: false,
                running_selected: 0,
                ..*old(self)
            }),
    {
        self.clear_library_filter();
        self.clear_running_filter();
    }

    /// The index of the first profile with this slug.
    pub fn profile_index(&self, slug: &str) -> (r: Option<usize>)
        ensures
            match r {
                Some(i) => profile_slot(self.profiles@, slug@, i as int) && slot_of(self.profiles@, slug@) == Some(
                    i as int,
                ),
                None => slot_of(self.profiles@, slug@) is None,
            },
    {
        let mut i: usize = 0;
        while i < self.profiles.len()
            invariant
                i <= self.profiles@.len(),
                forall|j: int| 0 <= j < i ==> (#[trigger] self.profiles@[j]).0@ != slug@,
            decreases self.profiles@.len() - i,
        {
            if crate::text::str_eq(self.profiles[i].0.as_str(), slug) {
                proof {
                    lemma_slot_unique(self.profiles@, slug@, i as int);
                }
                return Some(i);
            }
            i = i + 1;
        }
        proof {
            if exists|k: int| profile_slot(self.profiles@, slug@, k) {
                let k = choose|k: int| profile_slot(self.profiles@, slug@, k);
                assert(self.profiles@[k].0@ != slug@);
            }
        }
        None
    }

    /// The first profile with this slug.
    pub fn profile(&self, slug: &str) -> (r: Option<&Profile>)
        ensures
            match slot_of(self.profiles@, slug@) {
                Some(i) => r matches Some(p) && *p == self.profiles@[i].1,
                None => r is None,
            },
    {
        match self.profile_index(slug) {
            Some(i) => Some(&self.profiles[i].1),
            None => None,
        }
    }

    /// The map a `MapField` refers to; none for a slug no profile has.
    pub fn map(&self, field: &MapField) -> (r: Option<&StrMap>)
        ensures
            match map_of(*self, *field) {
                Some(m) => r matches Some(x) && *x == m,
                None => r is None,
            },
    {
        match field {
            MapField::Env => Some(&self.cfg.env),
            MapField::WineDllOverride => Some(&self.cfg.winedlloverride),
            MapField::ProfileEnv(slug) => match self.profile_index(slug.as_str()) {
                Some(i) => Some(&self.profiles[i].1.env),
                None => None,
            },
            MapField::ProfileWineDllOverride(slug) => match self.profile_index(slug.as_str()) {
                Some(i) => Some(&self.profiles[i].1.winedlloverride),
                None => None,
            },
        }
    }

    /// A copy of that map's entries in ascending key order (the order the
    /// map editor's selection indexes); empty for a missing profile.
    pub fn map_entries(&self, field: &MapField) -> (r: Vec<(String, String)>)
        ensures
            r@.map_values(|p: (String, String)| crate::strmap::pair_view(p)) == match map_of(*self, *field) {
                Some(m) => m.pairs(),
                None => Seq::empty(),
            },
    {
        let mut out: Vec<(String, String)> = Vec::new();
        match self.map(field) {
            Some(m) => {
                let es = m.entries();
                let mut i: usize = 0;
                while i < es.len()
                    invariant
                        i <= es@.len(),
                        out@.map_values(|p: (String, String)| crate::strmap::pair_view(p)) == es@.map_values(
                            |p: (String, String)| crate::strmap::pair_view(p),
                        ).take(i as int),
                    decreases es@.len() - i,
                {
                    let k = es[i].0.clone();
                    let v = es[i].1.clone();
                    let ghost before = out@;
                    out.push((k, v));
                    assert(out@ == before.push((k, v)));
                    assert(out@.map_values(|p: (String, String)| crate::strmap::pair_view(p)) =~= before.map_values(
                        |p: (String, String)| crate::strmap::pair_view(p),
                    ).push(crate::strmap::pair_view((k, v))));
                    assert(es@.map_values(|p: (String, String)| crate::strmap::pair_view(p)).take(i + 1)
                        =~= es@.map_values(|p: (String, String)| crate::strmap::pair_view(p)).take(i as int).push(
                        crate::strmap::pair_view(es@[i as int]),
                    ));
                    i = i + 1;
                }
                assert(es@.map_values(|p: (String, String)| crate::strmap::pair_view(p)).take(es@.len() as int)
                    == es@.map_values(|p: (String, String)| crate::strmap::pair_view(p)));
            },
            None => {
                assert(out@.map_values(|p: (String, String)| crate::strmap::pair_view(p)) =~= Seq::empty());
            },
        }
        out
    }

    /// Takes profile `i` out of the list; `put_profile` puts one back.
    pub(crate) fn take_profile(&mut self, i: usize) -> (r: (String, Profile))
        requires
            i < old(self).profiles@.len(),
        ensures
            r == old(self).profiles@[i as int],
            final(self).profiles@ == old(self).profiles@.remove(i as int),
            *final(self) == (App { profiles: final(self).profiles, ..*old(self) }),
    {
        self.profiles.remove(i)
    }

    pub(crate) fn put_profile(&mut self, i: usize, e: (String, Profile))
        requires
            i <= old(self).profiles@.len(),
        ensures
            final(self).profiles@ == old(self).profiles@.insert(i as int, e),
            *final(self) == (App { profiles: final(self).profiles, ..*old(self) }),
    {
        self.profiles.insert(i, e);
    }

    /// `0` for the first two seconds after the marquee target last changed,
    /// then one more every 200 ms. `now_ms` is on the same clock as
    /// `sync_marquee`'s.
    pub fn marquee_tick(&self, now_ms: u64) -> (r: usize)
        ensures
            r == (if now_ms < self.marquee_reset_ms + 2000 {
                0
            } else {
                ((now_ms - self.marquee_reset_ms - 2000) / 200) as usize
            }),
    {
        if now_ms < self.marquee_reset_ms || now_ms - self.marquee_reset_ms < 2000 {
            return 0;
        }
        let scrolling: u64 = now_ms - self.marquee_reset_ms - 2000;
        (scrolling / 200) as usize
    }

    /// Restarts the marquee delay when the selection signature changed
    /// since the last frame; a repeated signature leaves it running.
    pub fn sync_marquee(&mut self, signature: String, now_ms: u64)
        ensures
            if signature@ == old(self).marquee_last_signature@ {
                *final(self) == *old(self)
            } else {
                *final(self) == (App { marquee_last_signature: signature, marquee_reset_ms: now_ms, ..*old(self) })
            },
    {
        if !crate::text::str_eq(self.marquee_last_signature.as_str(), signature.as_str()) {
            self.marquee_last_signature = signature;
            self.marquee_reset_ms = now_ms;
        }
    }
}

impl App {
    /// Removes `k` from the map that `field` refers to; nothing happens when
    /// that profile is gone.
    pub fn map_remove(&mut self, field: &MapField, k: &str)
        ensures
            match map_of(*old(self), *field) {
                Some(m0) => map_of(*final(self), *field) matches Some(m1) && m1@ == m0@.remove(k@) && replaced_map(
                    *old(self),
                    *final(self),
                    *field,
                    m1,
                ),
                None => *final(self) == *old(self),
            },
    {
        match field {
            MapField::Env => {
                self.cfg.env.remove(k);
            },
            MapField::WineDllOverride => {
                self.cfg.winedlloverride.remove(k);
            },
            MapField::ProfileEnv(slug) => {
                if let Some(i) = self.profile_index(slug.as_str()) {
                    let ghost a = *self;
                    let (s, mut p) = self.take_profile(i);
                    p.env.remove(k);
                    self.put_profile(i, (s, p));
                    proof {
                        lemma_remove_insert(a.profiles@, i as int, (s, p));
                        assert(profile_slot(self.profiles@, slug@, i as int));
                        lemma_slot_unique(self.profiles@, slug@, i as int);
                    }
                }
            },
            MapField::ProfileWineDllOverride(slug) => {
                if let Some(i) = self.profile_index(slug.as_str()) {
                    let ghost a = *self;
                    let (s, mut p) = self.take_profile(i);
                    p.winedlloverride.remove(k);
                    self.put_profile(i, (s, p));
                    proof {
                        lemma_remove_insert(a.profiles@, i as int, (s, p));
                        assert(profile_slot(self.profiles@, slug@, i as int));
                        lemma_slot_unique(self.profiles@, slug@, i as int);
                    }
                }
            },
        }
    }

    /// Sets `k` to `v` in the map that `field` refers to; nothing happens
    /// when that profile is gone.
    pub fn map_insert(&mut self, field: &MapField, k: String, v: String)
        ensures
            match map_of(*old(self), *field) {
                Some(m0) => map_of(*final(self), *field) matches Some(m1) && m1@ == m0@.insert(k@, v@)
                    && replaced_map(*old(self), *final(self), *field, m1),
                None => *final(self) == *old(self),
            },
    {
        match field {
            MapField::Env => {
                self.cfg.env.insert(k, v);
            },
            MapField::WineDllOverride => {
                self.cfg.winedlloverride.insert(k, v);
            },
            MapField::ProfileEnv(slug) => {
                if let Some(i) = self.profile_index(slug.as_str()) {
                    let ghost a = *self;
                    let (s, mut p) = self.take_profile(i);
                    p.env.insert(k, v);
                    self.put_profile(i, (s, p));
                    proof {
                        lemma_remove_insert(a.profiles@, i as int, (s, p));
                        assert(profile_slot(self.profiles@, slug@, i as int));
                        lemma_slot_unique(self.profiles@, slug@, i as int);
                    }
                }
            },
            MapField::ProfileWineDllOverride(slug) => {
                if let Some(i) = self.profile_index(slug.as_str()) {
                    let ghost a = *self;
                    let (s, mut p) = self.take_profile(i);
                    p.winedlloverride.insert(k, v);
                    self.put_profile(i, (s, p));
                    proof {
                        lemma_remove_insert(a.profiles@, i as int, (s, p));
                        assert(profile_slot(self.profiles@, slug@, i as int));
                        lemma_slot_unique(self.profiles@, slug@, i as int);
                    }
                }
            },
        }
    }
}

/// The text an optional borrowed string holds, if any.
pub open spec fn opt_str_view(h: Option<&str>) -> Option<Seq<char>> {
    match h {
        Some(s) => Some(s@),
        None => None,
    }
}

/// Replacing one profile (its slug kept) leaves every slug where it was.
pub proof fn lemma_replaced_profile_keeps_slots(a: App, b: App, i: int, p: Profile, slug: Seq<char>)
    requires
        replaced_profile(a, b, i, p),
    ensures
        slot_of(b.profiles@, slug) == slot_of(a.profiles@, slug),
{
    assert forall|j: int| profile_slot(a.profiles@, slug, j) == profile_slot(b.profiles@, slug, j) by {
        if profile_slot(a.profiles@, slug, j) {
            assert forall|k: int| 0 <= k < j implies (#[trigger] b.profiles@[k]).0@ != slug by {
                assert(b.profiles@[k].0 == a.profiles@[k].0);
            }
        }
        if profile_slot(b.profiles@, slug, j) {
            assert forall|k: int| 0 <= k < j implies (#[trigger] a.profiles@[k]).0@ != slug by {
                assert(b.profiles@[k].0 == a.profiles@[k].0);
            }
        }
    }
}

/// Replacing the same map twice is replacing it once with the second map.
pub proof fn lemma_replaced_map_compose(a: App, m: App, b: App, field: MapField, m1: StrMap, m2: StrMap)
    requires
        replaced_map(a, m, field, m1),
        replaced_map(m, b, field, m2),
    ensures
        replaced_map(a, b, field, m2),
        map_of(m, field) is Some <==> map_of(a, field) is Some,
{
    match field {
        MapField::ProfileEnv(slug) => {
            if let Some(i) = slot_of(a.profiles@, slug@) {
                lemma_replaced_profile_keeps_slots(a, m, i, Profile { env: m1, ..a.profiles@[i].1 }, slug@);
                assert(b.profiles@ =~= a.profiles@.update(i, (a.profiles@[i].0, Profile { env: m2, ..a.profiles@[i].1 })));
            }
        },
        MapField::ProfileWineDllOverride(slug) => {
            if let Some(i) = slot_of(a.profiles@, slug@) {
                lemma_replaced_profile_keeps_slots(
                    a,
                    m,
                    i,
                    Profile { winedlloverride: m1, ..a.profiles@[i].1 },
                    slug@,
                );
                assert(b.profiles@ =~= a.profiles@.update(
                    i,
                    (a.profiles@[i].0, Profile { winedlloverride: m2, ..a.profiles@[i].1 }),
                ));
            }
        },
        _ => {},
    }
}

/// A quick-search text after Backspace (the last character dropped).
pub open spec fn popped_view(f: Option<String>) -> Option<Seq<char>> {
    match f {
        Some(s) => Some(
            if s@.len() > 0 {
                s@.drop_last()
            } else {
                s@
            },
        ),
        None => None,
    }
}

/// A quick-search text after typing `c`.
pub open spec fn pushed_view(f: Option<String>, c: char) -> Option<Seq<char>> {
    match f {
        Some(s) => Some(s@.push(c)),
        None => None,
    }
}

pub fn pop_filter(f: &Option<String>) -> (r: Option<String>)
    ensures
        opt_view(r) == popped_view(*f),
{
    match f {
        Some(s) => Some(crate::text::str_pop_char(s.as_str())),
        None => None,
    }
}

pub fn push_filter(f: &Option<String>, c: char) -> (r: Option<String>)
    ensures
        opt_view(r) == pushed_view(*f, c),
{
    match f {
        Some(s) => Some(crate::text::str_push_char(s.as_str(), c)),
        None => None,
    }
}

/// `remove` at `i` followed by `insert` at `i` is an update at `i`.
pub proof fn lemma_remove_insert<T>(s: Seq<T>, i: int, x: T)
    requires
        0 <= i < s.len(),
    ensures
        s.remove(i).insert(i, x) == s.update(i, x),
{
    assert(s.remove(i).insert(i, x) =~= s.update(i, x));
}

} // verus!
