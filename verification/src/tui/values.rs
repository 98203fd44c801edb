//! The value texts the settings lists show next to each field label.
use vstd::prelude::*;

use super::app::{ConfigField, ProfileField};
use crate::config::{
    Config, GamescopeFilter, GamescopeScaler, GamescopeSetting, LogMode, PrefixMode, Profile, RecordMode,
};
use crate::text::{decimal, u64_to_string};

verus! {

/// A `PrefixMode` as its variant name.
pub open spec fn prefix_mode_text_spec(v: PrefixMode) -> Seq<char> {
    match v {
        PrefixMode::Single => "Single"@,
        PrefixMode::PerSlug => "PerSlug"@,
    }
}

pub fn prefix_mode_text(v: PrefixMode) -> (r: &'static str)
    ensures
        r@ == prefix_mode_text_spec(v),
{
    match v {
        PrefixMode::Single => "Single",
        PrefixMode::PerSlug => "PerSlug",
    }
}

/// A `LogMode` as its variant name.
pub open spec fn log_mode_text_spec(v: LogMode) -> Seq<char> {
    match v {
        LogMode::Single => "Single"@,
        LogMode::Each => "Each"@,
    }
}

pub fn log_mode_text(v: LogMode) -> (r: &'static str)
    ensures
        r@ == log_mode_text_spec(v),
{
    match v {
        LogMode::Single => "Single",
        LogMode::Each => "Each",
    }
}

/// A `RecordMode` as its variant name.
pub open spec fn record_mode_text_spec(v: RecordMode) -> Seq<char> {
    match v {
        RecordMode::All => "All"@,
        RecordMode::Errors => "Errors"@,
        RecordMode::Off => "Off"@,
    }
}

pub fn record_mode_text(v: RecordMode) -> (r: &'static str)
    ensures
        r@ == record_mode_text_spec(v),
{
    match v {
        RecordMode::All => "All",
        RecordMode::Errors => "Errors",
        RecordMode::Off => "Off",
    }
}

/// A `GamescopeSetting` as its variant name.
pub open spec fn gamescope_setting_text_spec(v: GamescopeSetting) -> Seq<char> {
    match v {
        GamescopeSetting::Off => "Off"@,
        GamescopeSetting::Fullscreen => "Fullscreen"@,
        GamescopeSetting::Maximize => "Maximize"@,
    }
}

pub fn gamescope_setting_text(v: GamescopeSetting) -> (r: &'static str)
    ensures
        r@ == gamescope_setting_text_spec(v),
{
    match v {
        GamescopeSetting::Off => "Off",
        GamescopeSetting::Fullscreen => "Fullscreen",
        GamescopeSetting::Maximize => "Maximize",
    }
}

/// A `GamescopeFilter` as its variant name.
pub open spec fn gamescope_filter_text_spec(v: GamescopeFilter) -> Seq<char> {
    match v {
        GamescopeFilter::Linear => "Linear"@,
        GamescopeFilter::Nearest => "Nearest"@,
        GamescopeFilter::Fsr => "Fsr"@,
        GamescopeFilter::Nis => "Nis"@,
        GamescopeFilter::Pixel => "Pixel"@,
    }
}

pub fn gamescope_filter_text(v: GamescopeFilter) -> (r: &'static str)
    ensures
        r@ == gamescope_filter_text_spec(v),
{
    match v {
        GamescopeFilter::Linear => "Linear",
        GamescopeFilter::Nearest => "Nearest",
        GamescopeFilter::Fsr => "Fsr",
        GamescopeFilter::Nis => "Nis",
        GamescopeFilter::Pixel => "Pixel",
    }
}

/// A `GamescopeScaler` as its variant name.
pub open spec fn gamescope_scaler_text_spec(v: GamescopeScaler) -> Seq<char> {
    match v {
        GamescopeScaler::Auto => "Auto"@,
        GamescopeScaler::Integer => "Integer"@,
        GamescopeScaler::Fit => "Fit"@,
        GamescopeScaler::Fill => "Fill"@,
        GamescopeScaler::Stretch => "Stretch"@,
    }
}

pub fn gamescope_scaler_text(v: GamescopeScaler) -> (r: &'static str)
    ensures
        r@ == gamescope_scaler_text_spec(v),
{
    match v {
        GamescopeScaler::Auto => "Auto",
        GamescopeScaler::Integer => "Integer",
        GamescopeScaler::Fit => "Fit",
        GamescopeScaler::Fill => "Fill",
        GamescopeScaler::Stretch => "Stretch",
    }
}
/// `true` or `false`.
pub open spec fn bool_text_spec(b: bool) -> Seq<char> {
    if b {
        "true"@
    } else {
        "false"@
    }
}

/// An optional text, or `none` when unset.
pub open spec fn or_text(o: Option<Seq<char>>, none: Seq<char>) -> Seq<char> {
    match o {
        Some(t) => t,
        None => none,
    }
}

pub open spec fn opt_num(o: Option<u32>) -> Option<Seq<char>> {
    match o {
        Some(n) => Some(decimal(n as nat)),
        None => None,
    }
}

pub open spec fn opt_bool(o: Option<bool>) -> Option<Seq<char>> {
    match o {
        Some(b) => Some(bool_text_spec(b)),
        None => None,
    }
}

pub open spec fn opt_string(o: Option<String>) -> Option<Seq<char>> {
    match o {
        Some(s) => Some(s@),
        None => None,
    }
}

pub open spec fn opt_setting(o: Option<GamescopeSetting>) -> Option<Seq<char>> {
    match o {
        Some(v) => Some(gamescope_setting_text_spec(v)),
        None => None,
    }
}

pub open spec fn opt_filter(o: Option<GamescopeFilter>) -> Option<Seq<char>> {
    match o {
        Some(v) => Some(gamescope_filter_text_spec(v)),
        None => None,
    }
}

pub open spec fn opt_scaler(o: Option<GamescopeScaler>) -> Option<Seq<char>> {
    match o {
        Some(v) => Some(gamescope_scaler_text_spec(v)),
        None => None,
    }
}

pub open spec fn opt_record(o: Option<RecordMode>) -> Option<Seq<char>> {
    match o {
        Some(v) => Some(record_mode_text_spec(v)),
        None => None,
    }
}

fn bool_text(b: bool) -> (r: &'static str)
    ensures
        r@ == bool_text_spec(b),
{
    if b {
        "true"
    } else {
        "false"
    }
}

fn or_none(o: Option<String>, none: &str) -> (r: String)
    ensures
        r@ == or_text(opt_string(o), none@),
{
    match o {
        Some(s) => s,
        None => none.to_string(),
    }
}

fn num_text(o: Option<u32>) -> (r: Option<String>)
    ensures
        opt_string(r) == opt_num(o),
{
    match o {
        Some(n) => Some(u64_to_string(n as u64)),
        None => None,
    }
}

fn bool_opt_text(o: Option<bool>) -> (r: Option<String>)
    ensures
        opt_string(r) == opt_bool(o),
{
    match o {
        Some(b) => Some(bool_text(b).to_string()),
        None => None,
    }
}

/// What the profile editor shows as the value of `field` of profile
/// `slug`: the override, or what applies when it is not set.
pub open spec fn profile_value_spec(p: Profile, slug: Seq<char>, field: ProfileField) -> Seq<char> {
    let d = p.defaults;
    let g = d.gamescope_settings;
    let inherit = "(inherit)"@;
    match field {
        ProfileField::TargetPath => p.target_path@,
        ProfileField::Slug => slug,
        ProfileField::Name => p.name@,
        ProfileField::Title => or_text(opt_string(p.title), "(inherit: exe filename)"@),
        ProfileField::Args => if p.args@.len() == 0 {
            "(none)"@
        } else {
            crate::text::join_spec(crate::launch::strings(p.args@), " "@)
        },
        ProfileField::Proton => or_text(opt_string(d.proton), inherit),
        ProfileField::PrefixPath => or_text(opt_string(d.prefix_path), inherit),
        ProfileField::WindowsVersion => or_text(opt_string(d.windows_version), inherit),
        ProfileField::Gamescope => or_text(opt_setting(d.gamescope), inherit),
        ProfileField::GamescopeOutputWidth => or_text(opt_num(g.output_width), inherit),
        ProfileField::GamescopeOutputHeight => or_text(opt_num(g.output_height), inherit),
        ProfileField::GamescopeRefresh => or_text(opt_num(g.refresh), inherit),
        ProfileField::GamescopeNestedWidth => or_text(opt_num(g.nested_width), inherit),
        ProfileField::GamescopeNestedHeight => or_text(opt_num(g.nested_height), inherit),
        ProfileField::GamescopeFilter => or_text(opt_filter(g.filter), inherit),
        ProfileField::GamescopeScaler => or_text(opt_scaler(g.scaler), inherit),
        ProfileField::GamescopeBorderless => or_text(opt_bool(g.borderless), inherit),
        ProfileField::GamescopeGrabCursor => or_text(opt_bool(g.grab_cursor), inherit),
        ProfileField::GamescopeAdaptiveSync => or_text(opt_bool(g.adaptive_sync), inherit),
        ProfileField::LaunchWrapper => or_text(opt_string(d.launch_wrapper), inherit),
        ProfileField::LogKeep => or_text(opt_num(p.logging.keep), inherit),
        ProfileField::LogRecord => or_text(opt_record(p.logging.record), inherit),
        ProfileField::LogAutoOpen => or_text(opt_bool(p.logging.auto_open), inherit),
        ProfileField::EnvTable => super::ui::entry_count_spec(p.env@.dom().len()),
        ProfileField::WineDllOverrideTable => super::ui::entry_count_spec(p.winedlloverride@.dom().len()),
    }
}

/// The profile editor's value text of `field` (see `profile_value_spec`).
pub fn profile_value(p: &Profile, slug: &str, field: ProfileField) -> (r: String)
    ensures
        r@ == profile_value_spec(*p, slug@, field),
{
    let d = &p.defaults;
    let g = &d.gamescope_settings;
    let inherit = "(inherit)";
    match field {
        ProfileField::TargetPath => p.target_path.clone(),
        ProfileField::Slug => slug.to_string(),
        ProfileField::Name => p.name.clone(),
        ProfileField::Title => or_none(crate::config::clone_opt_string(&p.title), "(inherit: exe filename)"),
        ProfileField::Args => {
            if p.args.len() == 0 {
                "(none)".to_string()
            } else {
                let mut parts: Vec<Vec<char>> = Vec::new();
                let mut i: usize = 0;
                while i < p.args.len()
                    invariant
                        i <= p.args@.len(),
                        crate::text::views(parts@) == crate::launch::strings(p.args@.take(i as int)),
                    decreases p.args@.len() - i,
                {
                    parts.push(crate::text::chars_of(p.args[i].as_str()));
                    assert(crate::launch::strings(p.args@.take(i + 1)) =~= crate::launch::strings(
                        p.args@.take(i as int),
                    ).push(p.args@[i as int]@));
                    i = i + 1;
                }
                assert(p.args@.take(p.args@.len() as int) == p.args@);
                let sep = crate::text::chars_of(" ");
                let j = crate::text::join(&parts, &sep);
                crate::text::string_of(&j)
            }
        },
        ProfileField::Proton => or_none(crate::config::clone_opt_string(&d.proton), inherit),
        ProfileField::PrefixPath => or_none(crate::config::clone_opt_string(&d.prefix_path), inherit),
        ProfileField::WindowsVersion => or_none(crate::config::clone_opt_string(&d.windows_version), inherit),
        ProfileField::Gamescope => match d.gamescope {
            Some(v) => gamescope_setting_text(v).to_string(),
            None => inherit.to_string(),
        },
        ProfileField::GamescopeOutputWidth => or_none(num_text(g.output_width), inherit),
        ProfileField::GamescopeOutputHeight => or_none(num_text(g.output_height), inherit),
        ProfileField::GamescopeRefresh => or_none(num_text(g.refresh), inherit),
        ProfileField::GamescopeNestedWidth => or_none(num_text(g.nested_width), inherit),
        ProfileField::GamescopeNestedHeight => or_none(num_text(g.nested_height), inherit),
        ProfileField::GamescopeFilter => match g.filter {
            Some(v) => gamescope_filter_text(v).to_string(),
            None => inherit.to_string(),
        },
        ProfileField::GamescopeScaler => match g.scaler {
            Some(v) => gamescope_scaler_text(v).to_string(),
            None => inherit.to_string(),
        },
        ProfileField::GamescopeBorderless => or_none(bool_opt_text(g.borderless), inherit),
        ProfileField::GamescopeGrabCursor => or_none(bool_opt_text(g.grab_cursor), inherit),
        ProfileField::GamescopeAdaptiveSync => or_none(bool_opt_text(g.adaptive_sync), inherit),
        ProfileField::LaunchWrapper => or_none(crate::config::clone_opt_string(&d.launch_wrapper), inherit),
        ProfileField::LogKeep => or_none(num_text(p.logging.keep), inherit),
        ProfileField::LogRecord => match p.logging.record {
            Some(v) => record_mode_text(v).to_string(),
            None => inherit.to_string(),
        },
        ProfileField::LogAutoOpen => or_none(bool_opt_text(p.logging.auto_open), inherit),
        ProfileField::EnvTable => super::ui::entry_count(&p.env),
        ProfileField::WineDllOverrideTable => super::ui::entry_count(&p.winedlloverride),
    }
}

/// What the Config tab shows as the value of `field`.
pub open spec fn config_value_spec(cfg: Config, field: ConfigField) -> Seq<char> {
    let d = cfg.defaults;
    let g = d.gamescope_settings;
    let l = cfg.logging;
    let unset = "(unset)"@;
    match field {
        ConfigField::Proton => d.proton@,
        ConfigField::PrefixMode => prefix_mode_text_spec(d.prefix_mode),
        ConfigField::PrefixPath => d.prefix_path@,
        ConfigField::PrefixesRoot => d.prefixes_root@,
        ConfigField::WindowsVersion => d.windows_version@,
        ConfigField::Gamescope => gamescope_setting_text_spec(d.gamescope),
        ConfigField::GamescopeOutputWidth => or_text(opt_num(g.output_width), unset),
        ConfigField::GamescopeOutputHeight => or_text(opt_num(g.output_height), unset),
        ConfigField::GamescopeRefresh => or_text(opt_num(g.refresh), unset),
        ConfigField::GamescopeNestedWidth => or_text(opt_num(g.nested_width), unset),
        ConfigField::GamescopeNestedHeight => or_text(opt_num(g.nested_height), unset),
        ConfigField::GamescopeFilter => or_text(opt_filter(g.filter), unset),
        ConfigField::GamescopeScaler => or_text(opt_scaler(g.scaler), unset),
        ConfigField::GamescopeBorderless => or_text(opt_bool(g.borderless), unset),
        ConfigField::GamescopeGrabCursor => or_text(opt_bool(g.grab_cursor), unset),
        ConfigField::GamescopeAdaptiveSync => or_text(opt_bool(g.adaptive_sync), unset),
        ConfigField::LaunchWrapper => or_text(opt_string(d.launch_wrapper), unset),
        ConfigField::LogMode => log_mode_text_spec(l.mode),
        ConfigField::LogPath => l.path@,
        ConfigField::LogKeep => decimal(l.keep as nat),
        ConfigField::LogRecord => record_mode_text_spec(l.record),
        ConfigField::LogAutoOpen => bool_text_spec(l.auto_open),
        ConfigField::GamedbInterval => decimal(cfg.gamedb.update_interval_days as nat),
        ConfigField::EnvTable => super::ui::entry_count_spec(cfg.env@.dom().len()),
        ConfigField::WineDllOverrideTable => super::ui::entry_count_spec(cfg.winedlloverride@.dom().len()),
    }
}

/// The Config tab's value text of `field` (see `config_value_spec`).
pub fn config_value(cfg: &Config, field: ConfigField) -> (r: String)
    ensures
        r@ == config_value_spec(*cfg, field),
{
    let d = &cfg.defaults;
    let g = &d.gamescope_settings;
    let l = &cfg.logging;
    let unset = "(unset)";
    match field {
        ConfigField::Proton => d.proton.clone(),
        ConfigField::PrefixMode => prefix_mode_text(d.prefix_mode).to_string(),
        ConfigField::PrefixPath => d.prefix_path.clone(),
        ConfigField::PrefixesRoot => d.prefixes_root.clone(),
        ConfigField::WindowsVersion => d.windows_version.clone(),
        ConfigField::Gamescope => gamescope_setting_text(d.gamescope).to_string(),
        ConfigField::GamescopeOutputWidth => or_none(num_text(g.output_width), unset),
        ConfigField::GamescopeOutputHeight => or_none(num_text(g.output_height), unset),
        ConfigField::GamescopeRefresh => or_none(num_text(g.refresh), unset),
        ConfigField::GamescopeNestedWidth => or_none(num_text(g.nested_width), unset),
        ConfigField::GamescopeNestedHeight => or_none(num_text(g.nested_height), unset),
        ConfigField::GamescopeFilter => match g.filter {
            Some(v) => gamescope_filter_text(v).to_string(),
            None => unset.to_string(),
        },
        ConfigField::GamescopeScaler => match g.scaler {
            Some(v) => gamescope_scaler_text(v).to_string(),
            None => unset.to_string(),
        },
        ConfigField::GamescopeBorderless => or_none(bool_opt_text(g.borderless), unset),
        ConfigField::GamescopeGrabCursor => or_none(bool_opt_text(g.grab_cursor), unset),
        ConfigField::GamescopeAdaptiveSync => or_none(bool_opt_text(g.adaptive_sync), unset),
        ConfigField::LaunchWrapper => or_none(crate::config::clone_opt_string(&d.launch_wrapper), unset),
        ConfigField::LogMode => log_mode_text(l.mode).to_string(),
        ConfigField::LogPath => l.path.clone(),
        ConfigField::LogKeep => u64_to_string(l.keep as u64),
        ConfigField::LogRecord => record_mode_text(l.record).to_string(),
        ConfigField::LogAutoOpen => bool_text(l.auto_open).to_string(),
        ConfigField::GamedbInterval => u64_to_string(cfg.gamedb.update_interval_days as u64),
        ConfigField::EnvTable => super::ui::entry_count(&cfg.env),
        ConfigField::WineDllOverrideTable => super::ui::entry_count(&cfg.winedlloverride),
    }
}

} // verus!
