//! The Config tab: the global settings list, the desktop integration table
//! below it, and the popups they open (text, Proton picker, map editor).
use super::app::{
    move_selection, move_selection_spec, optional_bool_after, slot_of, replaced_map, replaced_profile,
    lemma_remove_insert, map_of, App, ConfigField, Effect, FieldKind, IntegrateAction, IntegrateField, Key, MapEntryStep,
    MapField, Mode, ProtonPickerTarget, TextInputPurpose,
};
use crate::config::{opt_view, Config, Defaults, GamescopeSettings, Logging, GameDb};
use crate::proton::ProtonBuild;
use crate::text::{concat, concat3};
use vstd::prelude::*;

verus! {

/// Rows of the settings list plus rows of the integration table; one
/// selection index runs over both.
pub open spec fn total_rows_spec() -> int {
    ConfigField::ALL.len() + IntegrateField::ALL.len()
}

pub fn total_rows() -> (r: usize)
    ensures
        r == total_rows_spec(),
{
    ConfigField::ALL.len() + IntegrateField::ALL.len()
}

/// A step of `delta` applied to `v`, saturating at both ends of `u32`.
pub open spec fn adjust_u32_spec(v: u32, delta: i64) -> u32 {
    let t = v + delta;
    if t < 0 {
        0
    } else if t > u32::MAX {
        u32::MAX
    } else {
        t as u32
    }
}

pub fn adjust_u32(v: u32, delta: i64) -> (r: u32)
    ensures
        r == adjust_u32_spec(v, delta),
{
    if delta < 0 {
        let d: u64 = (0 - (delta + 1)) as u64 + 1;
        if d >= v as u64 {
            0
        } else {
            (v as u64 - d) as u32
        }
    } else {
        let d: u64 = delta as u64;
        if d >= (u32::MAX - v) as u64 {
            u32::MAX
        } else {
            v + d as u32
        }
    }
}

/// Why a desktop integration action makes no sense right now (setting up
/// what is already installed, or reapplying or removing what is not), as
/// the status line to show instead of running it.
pub open spec fn integrate_guard_spec(action: IntegrateAction, installed: bool) -> Option<Seq<char>> {
    match (action, installed) {
        (IntegrateAction::Setup, true) => Some("Already installed — use Reapply to refresh the binary path."@),
        (IntegrateAction::Reapply, false) => Some("Not installed yet — use Setup first."@),
        (IntegrateAction::Uninstall, false) => Some("Not installed yet — use Setup first."@),
        _ => None,
    }
}

pub fn integrate_guard_message(action: IntegrateAction, installed: bool) -> (r: Option<&'static str>)
    ensures
        match r {
            Some(m) => integrate_guard_spec(action, installed) == Some(m@),
            None => integrate_guard_spec(action, installed) is None,
        },
{
    match (action, installed) {
        (IntegrateAction::Setup, true) => Some("Already installed — use Reapply to refresh the binary path."),
        (IntegrateAction::Reapply, false) => Some("Not installed yet — use Setup first."),
        (IntegrateAction::Uninstall, false) => Some("Not installed yet — use Setup first."),
        _ => None,
    }
}

/// The status line after a desktop integration action ran.
pub open spec fn integrate_message(action: IntegrateAction, result: Result<(), String>) -> Seq<char> {
    match result {
        Err(err) => "Desktop integration failed: "@ + err@,
        Ok(()) => match action {
            IntegrateAction::Setup => "Set up as default handler."@,
            IntegrateAction::Reapply => "Reapplied — binary path refreshed."@,
            IntegrateAction::Uninstall => "Removed as default handler."@,
        },
    }
}

/// Reports how a desktop integration action went.
pub fn finish_integrate(app: &mut App, action: IntegrateAction, result: Result<(), String>)
    ensures
        opt_view(final(app).status) == Some(integrate_message(action, result)),
        *final(app) == (App { status: final(app).status, ..*old(app) }),
{
    app.status = Some(
        match result {
            Err(err) => concat("Desktop integration failed: ", err.as_str()),
            Ok(()) => match action {
                IntegrateAction::Setup => "Set up as default handler.".to_string(),
                IntegrateAction::Reapply => "Reapplied — binary path refreshed.".to_string(),
                IntegrateAction::Uninstall => "Removed as default handler.".to_string(),
            },
        },
    );
}

/// Reports how writing the global config went.
pub fn finish_save_config(app: &mut App, saved: Result<(), String>)
    ensures
        opt_view(final(app).status) == Some(
            match saved {
                Ok(()) => "Saved."@,
                Err(err) => "Failed to save config: "@ + err@,
            },
        ),
        *final(app) == (App { status: final(app).status, ..*old(app) }),
{
    app.status = Some(
        match saved {
            Ok(()) => "Saved.".to_string(),
            Err(err) => concat("Failed to save config: ", err.as_str()),
        },
    );
}

// ---------------------------------------------------------------------------
// Cycling, toggling and stepping
// ---------------------------------------------------------------------------

/// `c` with a cycling field moved to its next state (other fields as they
/// are).
pub open spec fn config_cycled(c: Config, field: ConfigField) -> Config {
    let d = c.defaults;
    let gs = d.gamescope_settings;
    let l = c.logging;
    match field {
        ConfigField::PrefixMode => Config {
            defaults: Defaults { prefix_mode: super::app::prefix_mode_after(d.prefix_mode), ..d },
            ..c
        },
        ConfigField::LogMode => Config { logging: Logging { mode: super::app::log_mode_after(l.mode), ..l }, ..c },
        ConfigField::LogRecord => Config {
            logging: Logging { record: super::app::record_mode_after(l.record), ..l },
            ..c
        },
        ConfigField::Gamescope => Config {
            defaults: Defaults { gamescope: super::app::gamescope_setting_after(d.gamescope), ..d },
            ..c
        },
        ConfigField::GamescopeFilter => Config {
            defaults: Defaults {
                gamescope_settings: GamescopeSettings { filter: super::app::gamescope_filter_after(gs.filter), ..gs },
                ..d
            },
            ..c
        },
        ConfigField::GamescopeScaler => Config {
            defaults: Defaults {
                gamescope_settings: GamescopeSettings { scaler: super::app::gamescope_scaler_after(gs.scaler), ..gs },
                ..d
            },
            ..c
        },
        ConfigField::GamescopeBorderless => Config {
            defaults: Defaults {
                gamescope_settings: GamescopeSettings { borderless: optional_bool_after(gs.borderless), ..gs },
                ..d
            },
            ..c
        },
        ConfigField::GamescopeGrabCursor => Config {
            defaults: Defaults {
                gamescope_settings: GamescopeSettings { grab_cursor: optional_bool_after(gs.grab_cursor), ..gs },
                ..d
            },
            ..c
        },
        ConfigField::GamescopeAdaptiveSync => Config {
            defaults: Defaults {
                gamescope_settings: GamescopeSettings { adaptive_sync: optional_bool_after(gs.adaptive_sync), ..gs },
                ..d
            },
            ..c
        },
        _ => c,
    }
}

/// Advances a cycling setting and asks to save the config.
pub fn cycle_field(app: &mut App, field: ConfigField) -> (e: Effect)
    ensures
        *final(app) == (App { cfg: config_cycled(old(app).cfg, field), ..*old(app) }),
        e is SaveConfig,
{
    match field {
        ConfigField::PrefixMode => {
            app.cfg.defaults.prefix_mode = super::app::next_prefix_mode(app.cfg.defaults.prefix_mode);
        },
        ConfigField::LogMode => {
            app.cfg.logging.mode = super::app::next_log_mode(app.cfg.logging.mode);
        },
        ConfigField::LogRecord => {
            app.cfg.logging.record = super::app::next_record_mode(app.cfg.logging.record);
        },
        ConfigField::Gamescope => {
            app.cfg.defaults.gamescope = super::app::next_gamescope_setting(app.cfg.defaults.gamescope);
        },
        ConfigField::GamescopeFilter => {
            app.cfg.defaults.gamescope_settings.filter = super::app::next_gamescope_filter(
                app.cfg.defaults.gamescope_settings.filter,
            );
        },
        ConfigField::GamescopeScaler => {
            app.cfg.defaults.gamescope_settings.scaler = super::app::next_gamescope_scaler(
                app.cfg.defaults.gamescope_settings.scaler,
            );
        },
        ConfigField::GamescopeBorderless => {
            app.cfg.defaults.gamescope_settings.borderless = super::app::next_optional_bool(
                app.cfg.defaults.gamescope_settings.borderless,
            );
        },
        ConfigField::GamescopeGrabCursor => {
            app.cfg.defaults.gamescope_settings.grab_cursor = super::app::next_optional_bool(
                app.cfg.defaults.gamescope_settings.grab_cursor,
            );
        },
        ConfigField::GamescopeAdaptiveSync => {
            app.cfg.defaults.gamescope_settings.adaptive_sync = super::app::next_optional_bool(
                app.cfg.defaults.gamescope_settings.adaptive_sync,
            );
        },
        _ => {},
    }
    Effect::SaveConfig
}

/// Left/Right on a number row (`logging.keep`, the database update
/// interval) steps it and asks to save; anywhere else it does nothing.
pub open spec fn adjust_number_spec(a: App, b: App, delta: i64, e: Effect) -> bool {
    if (a.config_selected as int) < ConfigField::ALL.len() && ConfigField::ALL[a.config_selected as int]
        == ConfigField::LogKeep {
        b == (App {
            cfg: Config { logging: Logging { keep: adjust_u32_spec(a.cfg.logging.keep, delta), ..a.cfg.logging }, ..a.cfg },
            ..a
        }) && e is SaveConfig
    } else if (a.config_selected as int) < ConfigField::ALL.len() && ConfigField::ALL[a.config_selected as int]
        == ConfigField::GamedbInterval {
        b == (App {
            cfg: Config {
                gamedb: GameDb {
                    update_interval_days: adjust_u32_spec(a.cfg.gamedb.update_interval_days, delta),
                    ..a.cfg.gamedb
                },
                ..a.cfg
            },
            ..a
        }) && e is SaveConfig
    } else {
        b == a && e is Nothing
    }
}

pub fn adjust_number(app: &mut App, delta: i64) -> (e: Effect)
    ensures
        adjust_number_spec(*old(app), *final(app), delta, e),
{
    if app.config_selected >= ConfigField::ALL.len() {
        return Effect::Nothing;
    }
    let field = ConfigField::ALL[app.config_selected];
    if field == ConfigField::LogKeep {
        app.cfg.logging.keep = adjust_u32(app.cfg.logging.keep, delta);
        Effect::SaveConfig
    } else if field == ConfigField::GamedbInterval {
        app.cfg.gamedb.update_interval_days = adjust_u32(app.cfg.gamedb.update_interval_days, delta);
        Effect::SaveConfig
    } else {
        Effect::Nothing
    }
}

// ---------------------------------------------------------------------------
// Text fields
// ---------------------------------------------------------------------------

/// The text a settings row's edit popup starts with (blank for an unset
/// number or wrapper).
pub open spec fn config_text_value(c: Config, field: ConfigField) -> Seq<char> {
    let gs = c.defaults.gamescope_settings;
    match field {
        ConfigField::PrefixPath => c.defaults.prefix_path@,
        ConfigField::PrefixesRoot => c.defaults.prefixes_root@,
        ConfigField::WindowsVersion => c.defaults.windows_version@,
        ConfigField::LogPath => c.logging.path@,
        ConfigField::GamescopeOutputWidth => super::profile_editor::num_text(gs.output_width),
        ConfigField::GamescopeOutputHeight => super::profile_editor::num_text(gs.output_height),
        ConfigField::GamescopeRefresh => super::profile_editor::num_text(gs.refresh),
        ConfigField::GamescopeNestedWidth => super::profile_editor::num_text(gs.nested_width),
        ConfigField::GamescopeNestedHeight => super::profile_editor::num_text(gs.nested_height),
        ConfigField::LaunchWrapper => super::profile_editor::opt_text(c.defaults.launch_wrapper),
        _ => Seq::empty(),
    }
}

fn num_text_of(o: Option<u32>) -> (r: String)
    ensures
        r@ == super::profile_editor::num_text(o),
{
    match o {
        Some(v) => crate::text::u64_to_string(v as u64),
        None => String::new(),
    }
}

pub fn current_text_value(app: &App, field: ConfigField) -> (r: String)
    ensures
        r@ == config_text_value(app.cfg, field),
{
    let gs = app.cfg.defaults.gamescope_settings;
    match field {
        ConfigField::PrefixPath => app.cfg.defaults.prefix_path.clone(),
        ConfigField::PrefixesRoot => app.cfg.defaults.prefixes_root.clone(),
        ConfigField::WindowsVersion => app.cfg.defaults.windows_version.clone(),
        ConfigField::LogPath => app.cfg.logging.path.clone(),
        ConfigField::GamescopeOutputWidth => num_text_of(gs.output_width),
        ConfigField::GamescopeOutputHeight => num_text_of(gs.output_height),
        ConfigField::GamescopeRefresh => num_text_of(gs.refresh),
        ConfigField::GamescopeNestedWidth => num_text_of(gs.nested_width),
        ConfigField::GamescopeNestedHeight => num_text_of(gs.nested_height),
        ConfigField::LaunchWrapper => match &app.cfg.defaults.launch_wrapper {
            Some(w) => w.clone(),
            None => String::new(),
        },
        _ => String::new(),
    }
}

/// Settings rows whose text must be a whole number (or blank).
pub open spec fn numeric_config_field(f: ConfigField) -> bool {
    ||| f == ConfigField::GamescopeOutputWidth
    ||| f == ConfigField::GamescopeOutputHeight
    ||| f == ConfigField::GamescopeRefresh
    ||| f == ConfigField::GamescopeNestedWidth
    ||| f == ConfigField::GamescopeNestedHeight
}

/// `d` is config `c` with a text row set from the popup's `value`: paths
/// and the Windows version take it as typed, numbers are parsed from its
/// trimmed text (blank unsets them), the wrapper is its trimmed text
/// (blank unsets it).
pub open spec fn config_text_applied(c: Config, d: Config, field: ConfigField, value: Seq<char>) -> bool {
    let t = crate::text::trim_spec(value);
    let n = crate::text::parse_u32_spec(t);
    let df = c.defaults;
    let gs = df.gamescope_settings;
    match field {
        ConfigField::PrefixPath => d.defaults.prefix_path@ == value && d == (Config {
            defaults: Defaults { prefix_path: d.defaults.prefix_path, ..df },
            ..c
        }),
        ConfigField::PrefixesRoot => d.defaults.prefixes_root@ == value && d == (Config {
            defaults: Defaults { prefixes_root: d.defaults.prefixes_root, ..df },
            ..c
        }),
        ConfigField::WindowsVersion => d.defaults.windows_version@ == value && d == (Config {
            defaults: Defaults { windows_version: d.defaults.windows_version, ..df },
            ..c
        }),
        ConfigField::LogPath => d.logging.path@ == value && d == (Config {
            logging: Logging { path: d.logging.path, ..c.logging },
            ..c
        }),
        ConfigField::GamescopeOutputWidth => d == (Config {
            defaults: Defaults { gamescope_settings: GamescopeSettings { output_width: n, ..gs }, ..df },
            ..c
        }),
        ConfigField::GamescopeOutputHeight => d == (Config {
            defaults: Defaults { gamescope_settings: GamescopeSettings { output_height: n, ..gs }, ..df },
            ..c
        }),
        ConfigField::GamescopeRefresh => d == (Config {
            defaults: Defaults { gamescope_settings: GamescopeSettings { refresh: n, ..gs }, ..df },
            ..c
        }),
        ConfigField::GamescopeNestedWidth => d == (Config {
            defaults: Defaults { gamescope_settings: GamescopeSettings { nested_width: n, ..gs }, ..df },
            ..c
        }),
        ConfigField::GamescopeNestedHeight => d == (Config {
            defaults: Defaults { gamescope_settings: GamescopeSettings { nested_height: n, ..gs }, ..df },
            ..c
        }),
        ConfigField::LaunchWrapper => opt_view(d.defaults.launch_wrapper) == super::profile_editor::nonblank(t) && d
            == (Config { defaults: Defaults { launch_wrapper: d.defaults.launch_wrapper, ..df }, ..c }),
        _ => d == c,
    }
}

/// Applies a confirmed text popup to a settings row: a number row refuses
/// a non-number (reported, nothing changed); otherwise the row is set and
/// the config saved.
pub fn apply_text_field(app: &mut App, field: ConfigField, value: String) -> (e: Effect)
    ensures
        ({
            let t = crate::text::trim_spec(value@);
            if numeric_config_field(field) && t.len() > 0 && crate::text::parse_u32_spec(t) is None {
                opt_view(final(app).status) == Some(
                    "\""@ + t + "\" isn't a whole number — "@ + super::app::config_field_label(field)
                        + " left unchanged."@,
                ) && *final(app) == (App { status: final(app).status, ..*old(app) }) && e is Nothing
            } else {
                config_text_applied(old(app).cfg, final(app).cfg, field, value@) && *final(app) == (App {
                    cfg: final(app).cfg,
                    ..*old(app)
                }) && e is SaveConfig
            }
        }),
{
    let vv = crate::text::chars_of(value.as_str());
    let t = crate::text::trim(&vv);
    let numeric = field == ConfigField::GamescopeOutputWidth || field == ConfigField::GamescopeOutputHeight || field
        == ConfigField::GamescopeRefresh || field == ConfigField::GamescopeNestedWidth || field
        == ConfigField::GamescopeNestedHeight;
    let n = crate::text::parse_u32(&t);
    if numeric && t.len() > 0 && n.is_none() {
        let ts = crate::text::string_of(&t);
        let head = concat3("\"", ts.as_str(), "\" isn't a whole number — ");
        app.status = Some(concat3(head.as_str(), field.label(), " left unchanged."));
        return Effect::Nothing;
    }
    match field {
        ConfigField::PrefixPath => app.cfg.defaults.prefix_path = value,
        ConfigField::PrefixesRoot => app.cfg.defaults.prefixes_root = value,
        ConfigField::WindowsVersion => app.cfg.defaults.windows_version = value,
        ConfigField::LogPath => app.cfg.logging.path = value,
        ConfigField::GamescopeOutputWidth => app.cfg.defaults.gamescope_settings.output_width = n,
        ConfigField::GamescopeOutputHeight => app.cfg.defaults.gamescope_settings.output_height = n,
        ConfigField::GamescopeRefresh => app.cfg.defaults.gamescope_settings.refresh = n,
        ConfigField::GamescopeNestedWidth => app.cfg.defaults.gamescope_settings.nested_width = n,
        ConfigField::GamescopeNestedHeight => app.cfg.defaults.gamescope_settings.nested_height = n,
        ConfigField::LaunchWrapper => {
            app.cfg.defaults.launch_wrapper = if t.len() == 0 {
                None
            } else {
                Some(crate::text::string_of(&t))
            };
        },
        _ => {},
    }
    Effect::SaveConfig
}

// ---------------------------------------------------------------------------
// The Proton picker
// ---------------------------------------------------------------------------

/// `k` is the first build whose id is `id`.
pub open spec fn first_build_with_id(bs: Seq<ProtonBuild>, id: Seq<char>, k: int) -> bool {
    &&& 0 <= k < bs.len()
    &&& bs[k].id@ == id
    &&& forall|j: int| 0 <= j < k ==> (#[trigger] bs[j]).id@ != id
}

/// The row to highlight for the current setting `id` when the picker's
/// build rows start at row `offset`; `fallback` when no build has that id
/// (or its row would not fit in a `usize`).
pub open spec fn row_of_id(bs: Seq<ProtonBuild>, id: Seq<char>, offset: int, fallback: int) -> int {
    if exists|k: int| first_build_with_id(bs, id, k) && k + offset <= usize::MAX {
        (choose|k: int| first_build_with_id(bs, id, k)) + offset
    } else {
        fallback
    }
}

fn find_build(builds: &Vec<ProtonBuild>, id: &str) -> (r: Option<usize>)
    ensures
        match r {
            Some(k) => first_build_with_id(builds@, id@, k as int),
            None => !exists|k: int| first_build_with_id(builds@, id@, k),
        },
{
    let mut i: usize = 0;
    while i < builds.len()
        invariant
            i <= builds@.len(),
            forall|j: int| 0 <= j < i ==> (#[trigger] builds@[j]).id@ != id@,
        decreases builds@.len() - i,
    {
        if crate::text::str_eq(builds[i].id.as_str(), id) {
            return Some(i);
        }
        i = i + 1;
    }
    proof {
        assert forall|k: int| !first_build_with_id(builds@, id@, k) by {
            if first_build_with_id(builds@, id@, k) {
                assert(builds@[k].id@ != id@);
            }
        }
    }
    None
}

proof fn lemma_first_build_unique(bs: Seq<ProtonBuild>, id: Seq<char>, k: int)
    requires
        first_build_with_id(bs, id, k),
    ensures
        (choose|j: int| first_build_with_id(bs, id, j)) == k,
{
    let j = choose|j: int| first_build_with_id(bs, id, j);
    assert(first_build_with_id(bs, id, j));
    if j < k {
        assert(bs[j].id@ != id);
    } else if k < j {
        assert(bs[k].id@ != id);
    }
}

/// The row the picker opens on: for the global default, the current
/// build's row (builds start at row 1, after "system"), else 0; for a
/// profile, 0 ("inherit") without an override, 1 for "system", else the
/// build's row (builds start at row 2), falling back to 1.
pub open spec fn initial_pick(a: App, bs: Seq<ProtonBuild>, target: ProtonPickerTarget) -> int {
    match target {
        ProtonPickerTarget::Global => row_of_id(bs, a.cfg.defaults.proton@, 1, 0),
        ProtonPickerTarget::Profile(slug) => {
            let cur = match slot_of(a.profiles@, slug@) {
                Some(i) => opt_view(a.profiles@[i].1.defaults.proton),
                None => None,
            };
            match cur {
                None => 0,
                Some(id) => if id == "system"@ {
                    1
                } else {
                    row_of_id(bs, id, 2, 1)
                },
            }
        },
    }
}

/// Opens the Proton picker on the scanned builds, or reports the failed
/// scan.
pub fn open_proton_picker(app: &mut App, target: ProtonPickerTarget, scan: Result<Vec<ProtonBuild>, String>)
    ensures
        match scan {
            Ok(bs) => (final(app).mode matches Mode::ProtonPicker { builds, selected, target: t } && builds == bs
                && selected == initial_pick(*old(app), bs@, target) && t == target) && *final(app) == (App {
                mode: final(app).mode,
                ..*old(app)
            }),
            Err(err) => opt_view(final(app).status) == Some("proton scan failed: "@ + err@) && *final(app) == (App {
                status: final(app).status,
                ..*old(app)
            }),
        },
{
    match scan {
        Ok(builds) => {
            let selected: usize = match &target {
                ProtonPickerTarget::Global => match find_build(&builds, app.cfg.defaults.proton.as_str()) {
                    Some(k) => {
                        proof {
                            lemma_first_build_unique(builds@, app.cfg.defaults.proton@, k as int);
                        }
                        match k.checked_add(1) {
                            Some(r) => r,
                            None => 0,
                        }
                    },
                    None => 0,
                },
                ProtonPickerTarget::Profile(slug) => {
                    let cur: Option<String> = match app.profile(slug.as_str()) {
                        Some(p) => crate::config::clone_opt_string(&p.defaults.proton),
                        None => None,
                    };
                    match cur {
                        None => 0,
                        Some(id) => {
                            if crate::text::str_eq(id.as_str(), "system") {
                                1
                            } else {
                                match find_build(&builds, id.as_str()) {
                                    Some(k) => {
                                        proof {
                                            lemma_first_build_unique(builds@, id@, k as int);
                                        }
                                        match k.checked_add(2) {
                                            Some(r) => r,
                                            None => 1,
                                        }
                                    },
                                    None => 1,
                                }
                            }
                        },
                    }
                },
            };
            app.mode = Mode::ProtonPicker { builds, selected, target };
        },
        Err(err) => {
            app.status = Some(concat("proton scan failed: ", err.as_str()));
        },
    }
}

/// The Proton id a picker row stands for. Globally row 0 is "system" and
/// row `k + 1` build `k`; for a profile row 0 is "inherit" (no override),
/// row 1 "system" and row `k + 2` build `k`. A row past the builds counts
/// as "system" globally and as "inherit" for a profile.
pub open spec fn picked_id(bs: Seq<ProtonBuild>, selected: int, global: bool) -> Option<Seq<char>> {
    if global {
        if selected == 0 || selected - 1 >= bs.len() {
            Some("system"@)
        } else {
            Some(bs[selected - 1].id@)
        }
    } else {
        if selected == 0 {
            None
        } else if selected == 1 {
            Some("system"@)
        } else if selected - 2 < bs.len() {
            Some(bs[selected - 2].id@)
        } else {
            None
        }
    }
}

/// What applying Proton picker row `selected` does (see `picked_id`).
pub open spec fn proton_choice_spec(
    a: App,
    b: App,
    bs: Seq<ProtonBuild>,
    selected: usize,
    target: ProtonPickerTarget,
    e: Effect,
) -> bool {
    match target {
        ProtonPickerTarget::Global => Some(b.cfg.defaults.proton@) == picked_id(
            bs,
            selected as int,
            true,
        ) && b == (App {
            cfg: Config {
                defaults: Defaults { proton: b.cfg.defaults.proton, ..a.cfg.defaults },
                ..a.cfg
            },
            ..a
        }) && e is SaveConfig,
        ProtonPickerTarget::Profile(slug) => (e matches Effect::SaveProfile(s) && s == slug) && match slot_of(
            a.profiles@,
            slug@,
        ) {
            Some(i) => replaced_profile(a, b, i, b.profiles@[i].1) && opt_view(
                b.profiles@[i].1.defaults.proton,
            ) == picked_id(bs, selected as int, false) && b.profiles@[i].1 == (crate::config::Profile {
                defaults: crate::config::ProfileDefaults {
                    proton: b.profiles@[i].1.defaults.proton,
                    ..a.profiles@[i].1.defaults
                },
                ..a.profiles@[i].1
            }),
            None => b == a,
        },
    }
}

/// Applies a picker choice: to the global default (then the config is
/// saved), or to the first profile with the target's slug (then that
/// profile is saved).
pub fn apply_proton_choice(app: &mut App, builds: &Vec<ProtonBuild>, selected: usize, target: &ProtonPickerTarget) -> (e: Effect)
    ensures
        proton_choice_spec(*old(app), *final(app), builds@, selected, *target, e),
{
    match target {
        ProtonPickerTarget::Global => {
            app.cfg.defaults.proton = if selected == 0 || selected - 1 >= builds.len() {
                "system".to_string()
            } else {
                builds[selected - 1].id.clone()
            };
            Effect::SaveConfig
        },
        ProtonPickerTarget::Profile(slug) => {
            let value: Option<String> = if selected == 0 {
                None
            } else if selected == 1 {
                Some("system".to_string())
            } else if selected - 2 < builds.len() {
                Some(builds[selected - 2].id.clone())
            } else {
                None
            };
            if let Some(i) = app.profile_index(slug.as_str()) {
                let ghost a = *app;
                let (s, mut p) = app.take_profile(i);
                p.defaults.proton = value;
                let ghost q = p;
                app.put_profile(i, (s, p));
                proof {
                    lemma_remove_insert(a.profiles@, i as int, (s, q));
                }
            }
            Effect::SaveProfile(slug.clone())
        },
    }
}

// ---------------------------------------------------------------------------
// Keys
// ---------------------------------------------------------------------------

/// Enter on a settings or integration row.
pub open spec fn activate_spec(a: App, b: App, e: Effect) -> bool {
    let sel = a.config_selected as int;
    if sel >= ConfigField::ALL.len() {
        if sel < total_rows_spec() {
            match IntegrateField::ALL[sel - ConfigField::ALL.len()] {
                IntegrateField::Setup => b == a && (e matches Effect::Integrate(x) && x == IntegrateAction::Setup),
                IntegrateField::Reapply => b == a && (e matches Effect::Integrate(x) && x == IntegrateAction::Reapply),
                IntegrateField::Uninstall => b == a && (e matches Effect::Integrate(x) && x
                    == IntegrateAction::Uninstall),
                _ => b == a && e is Nothing,
            }
        } else {
            b == a && e is Nothing
        }
    } else {
        let field = ConfigField::ALL[sel];
        match super::app::config_field_kind(field) {
            FieldKind::Cycle => b == (App { cfg: config_cycled(a.cfg, field), ..a }) && e is SaveConfig,
            FieldKind::Toggle => b == (App {
                cfg: Config { logging: Logging { auto_open: !a.cfg.logging.auto_open, ..a.cfg.logging }, ..a.cfg },
                ..a
            }) && e is SaveConfig,
            FieldKind::Text => (b.mode matches Mode::TextInput { purpose, buffer, cursor } && purpose
                == TextInputPurpose::ConfigField(field) && buffer@ == config_text_value(a.cfg, field) && cursor
                == buffer@.len()) && b == (App { mode: b.mode, ..a }) && e is Nothing,
            FieldKind::ProtonPicker => b == a && (e matches Effect::ScanProton(t) && t == ProtonPickerTarget::Global),
            FieldKind::MapEditor => b == (App {
                mode: Mode::MapEditor {
                    field: if field == ConfigField::EnvTable {
                        MapField::Env
                    } else {
                        MapField::WineDllOverride
                    },
                    selected: 0,
                },
                ..a
            }) && e is Nothing,
            FieldKind::Number => b == a && e is Nothing,
        }
    }
}

pub fn activate_selected(app: &mut App) -> (e: Effect)
    ensures
        activate_spec(*old(app), *final(app), e),
{
    let sel = app.config_selected;
    if sel >= ConfigField::ALL.len() {
        if sel < total_rows() {
            return match IntegrateField::ALL[sel - ConfigField::ALL.len()] {
                IntegrateField::Setup => Effect::Integrate(IntegrateAction::Setup),
                IntegrateField::Reapply => Effect::Integrate(IntegrateAction::Reapply),
                IntegrateField::Uninstall => Effect::Integrate(IntegrateAction::Uninstall),
                _ => Effect::Nothing,
            };
        }
        return Effect::Nothing;
    }
    let field = ConfigField::ALL[sel];
    match field.kind() {
        FieldKind::Cycle => cycle_field(app, field),
        FieldKind::Toggle => {
            app.cfg.logging.auto_open = !app.cfg.logging.auto_open;
            Effect::SaveConfig
        },
        FieldKind::Text => {
            let buffer = current_text_value(app, field);
            let cursor = crate::text::chars_of(buffer.as_str()).len();
            app.mode = Mode::TextInput { purpose: TextInputPurpose::ConfigField(field), buffer, cursor };
            Effect::Nothing
        },
        FieldKind::ProtonPicker => Effect::ScanProton(ProtonPickerTarget::Global),
        FieldKind::MapEditor => {
            let map_field = if field == ConfigField::EnvTable {
                MapField::Env
            } else {
                MapField::WineDllOverride
            };
            app.mode = Mode::MapEditor { field: map_field, selected: 0 };
            Effect::Nothing
        },
        FieldKind::Number => Effect::Nothing,
    }
}

/// What a key does on the Config tab: Up/Down move over both tables,
/// Left/Right step a number, Enter activates the selected row.
pub open spec fn config_key_spec(a: App, b: App, key: Key, e: Effect) -> bool {
    match key {
        Key::Up => b == (App {
            config_selected: move_selection_spec(a.config_selected as int, total_rows_spec(), -1) as usize,
            ..a
        }) && e is Nothing,
        Key::Down => b == (App {
            config_selected: move_selection_spec(a.config_selected as int, total_rows_spec(), 1) as usize,
            ..a
        }) && e is Nothing,
        Key::Left => adjust_number_spec(a, b, -1i64, e),
        Key::Right => adjust_number_spec(a, b, 1i64, e),
        Key::Enter => activate_spec(a, b, e),
        _ => b == a && e is Nothing,
    }
}

pub fn on_key(app: &mut App, key: Key) -> (e: Effect)
    ensures
        config_key_spec(*old(app), *final(app), key, e),
{
    match key {
        Key::Up => {
            app.config_selected = move_selection(app.config_selected, total_rows(), -1);
            Effect::Nothing
        },
        Key::Down => {
            app.config_selected = move_selection(app.config_selected, total_rows(), 1);
            Effect::Nothing
        },
        Key::Left => adjust_number(app, -1),
        Key::Right => adjust_number(app, 1),
        Key::Enter => activate_selected(app),
        _ => Effect::Nothing,
    }
}

// ---------------------------------------------------------------------------
// The map editor
// ---------------------------------------------------------------------------

/// The entries of the map `field` refers to, in ascending key order.
pub open spec fn map_pairs(a: App, field: MapField) -> Seq<(Seq<char>, Seq<char>)> {
    match map_of(a, field) {
        Some(m) => m.pairs(),
        None => Seq::empty(),
    }
}

/// `e` asks to save whichever file the map belongs to.
pub open spec fn saves_owner(field: MapField, e: Effect) -> bool {
    match field {
        MapField::Env => e is SaveConfig,
        MapField::WineDllOverride => e is SaveConfig,
        MapField::ProfileEnv(s) => e matches Effect::SaveProfile(x) && x == s,
        MapField::ProfileWineDllOverride(s) => e matches Effect::SaveProfile(x) && x == s,
    }
}

/// The file a map belongs to: the global config, or that profile's.
pub fn save_map_owner(field: &MapField) -> (e: Effect)
    ensures
        saves_owner(*field, e),
{
    match field {
        MapField::Env | MapField::WineDllOverride => Effect::SaveConfig,
        MapField::ProfileEnv(slug) | MapField::ProfileWineDllOverride(slug) => Effect::SaveProfile(slug.clone()),
    }
}

/// The selection after a delete left `len` entries.
pub open spec fn clamp_after_delete(selected: int, len: int) -> int {
    if len == 0 {
        0
    } else if selected < len - 1 {
        selected
    } else {
        len - 1
    }
}

/// What a key does in the map editor: Esc closes it, Up/Down move, `a`
/// starts adding an entry, `e` edits the selected one, `d` deletes it (and
/// asks to save).
pub open spec fn map_editor_key_spec(a: App, b: App, key: Key, e: Effect) -> bool {
    match a.mode {
        Mode::MapEditor { field, selected } => {
            let ps = map_pairs(a, field);
            match key {
                Key::Esc => b == (App { mode: Mode::Normal, ..a }) && e is Nothing,
                Key::Up => b == (App {
                    mode: Mode::MapEditor {
                        field,
                        selected: move_selection_spec(selected as int, ps.len() as int, -1) as usize,
                    },
                    ..a
                }) && e is Nothing,
                Key::Down => b == (App {
                    mode: Mode::MapEditor {
                        field,
                        selected: move_selection_spec(selected as int, ps.len() as int, 1) as usize,
                    },
                    ..a
                }) && e is Nothing,
                Key::Char('a') => (b.mode matches Mode::MapEntryInput { field: f, original_key: o, step, key: k, value: v }
                    && f == field && o is None && step == MapEntryStep::Key && k@.len() == 0 && v@.len() == 0) && b
                    == (App { mode: b.mode, ..a }) && e is Nothing,
                Key::Char('e') => if (selected as int) < ps.len() {
                    (b.mode matches Mode::MapEntryInput { field: f, original_key: o, step, key: k, value: v } && f
                        == field && opt_view(o) == Some(ps[selected as int].0) && step == MapEntryStep::Key && k@
                        == ps[selected as int].0 && v@ == ps[selected as int].1) && b == (App { mode: b.mode, ..a })
                        && e is Nothing
                } else {
                    b == a && e is Nothing
                },
                Key::Char('d') => if (selected as int) < ps.len() {
                    &&& map_of(a, field) matches Some(m0)
                    &&& map_of(b, field) matches Some(m1)
                    &&& m1@ == m0@.remove(ps[selected as int].0)
                    &&& replaced_map(a, App { mode: a.mode, ..b }, field, m1)
                    &&& b.mode == Mode::MapEditor {
                        field,
                        selected: clamp_after_delete(selected as int, m1.pairs().len() as int) as usize,
                    }
                    &&& saves_owner(field, e)
                } else {
                    b == (App {
                        mode: Mode::MapEditor { field, selected: clamp_after_delete(selected as int, ps.len() as int) as usize },
                        ..a
                    }) && e is Nothing
                },
                _ => b == a && e is Nothing,
            }
        },
        _ => b == a && e is Nothing,
    }
}

/// A key while browsing one map's entries.
pub fn map_editor_key(app: &mut App, key: Key) -> (e: Effect)
    ensures
        map_editor_key_spec(*old(app), *final(app), key, e),
{
    let (field, selected) = match &app.mode {
        Mode::MapEditor { field, selected } => (field.clone(), *selected),
        _ => return Effect::Nothing,
    };
    let entries = app.map_entries(&field);
    let ghost ps = entries@.map_values(|p: (String, String)| crate::strmap::pair_view(p));
    assert(ps.len() == entries@.len());
    match key {
        Key::Esc => {
            app.mode = Mode::Normal;
            Effect::Nothing
        },
        Key::Up => {
            app.mode = Mode::MapEditor { field, selected: move_selection(selected, entries.len(), -1) };
            Effect::Nothing
        },
        Key::Down => {
            app.mode = Mode::MapEditor { field, selected: move_selection(selected, entries.len(), 1) };
            Effect::Nothing
        },
        Key::Char('a') => {
            app.mode = Mode::MapEntryInput {
                field,
                original_key: None,
                step: MapEntryStep::Key,
                key: String::new(),
                value: String::new(),
            };
            Effect::Nothing
        },
        Key::Char('e') => {
            if selected < entries.len() {
                assert(ps[selected as int] == crate::strmap::pair_view(entries@[selected as int]));
                app.mode = Mode::MapEntryInput {
                    field,
                    original_key: Some(entries[selected].0.clone()),
                    step: MapEntryStep::Key,
                    key: entries[selected].0.clone(),
                    value: entries[selected].1.clone(),
                };
            }
            Effect::Nothing
        },
        Key::Char('d') => {
            let mut e = Effect::Nothing;
            if selected < entries.len() {
                assert(ps[selected as int] == crate::strmap::pair_view(entries@[selected as int]));
                let k = entries[selected].0.clone();
                app.map_remove(&field, k.as_str());
                e = save_map_owner(&field);
            }
            let new_len = app.map_entries(&field).len();
            let sel = if new_len == 0 {
                0
            } else if selected < new_len - 1 {
                selected
            } else {
                new_len - 1
            };
            app.mode = Mode::MapEditor { field, selected: sel };
            e
        },
        _ => Effect::Nothing,
    }
}

/// A text after Backspace: its last character dropped.
pub open spec fn popped(s: Seq<char>) -> Seq<char> {
    if s.len() > 0 {
        s.drop_last()
    } else {
        s
    }
}

/// The map after committing an edited entry: the original key removed when
/// the key was changed, then `key` set to `value`.
pub open spec fn committed_map(
    m0: Map<Seq<char>, Seq<char>>,
    original_key: Option<String>,
    key: Seq<char>,
    value: Seq<char>,
) -> Map<Seq<char>, Seq<char>> {
    let base = match original_key {
        Some(o) => if o@ != key {
            m0.remove(o@)
        } else {
            m0
        },
        None => m0,
    };
    base.insert(key, value)
}

/// What a key does while adding or editing one map entry: typing and
/// Backspace edit the current step's text; Esc goes back to the map
/// editor without changing anything; Enter moves from the key to the value
/// and, on the value, commits the entry under its trimmed key (unless that
/// is blank) and goes back to the map editor.
pub open spec fn map_entry_key_spec(a: App, b: App, key: Key, e: Effect) -> bool {
    match a.mode {
        Mode::MapEntryInput { field, original_key, step, key: k, value: v } => match key {
            Key::Esc => b == (App { mode: Mode::MapEditor { field, selected: 0 }, ..a }) && e is Nothing,
            Key::Backspace => (b.mode matches Mode::MapEntryInput { field: f, original_key: o, step: s, key: k2, value: v2 }
                && f == field && o == original_key && s == step && if step == MapEntryStep::Key {
                k2@ == popped(k@) && v2 == v
            } else {
                k2 == k && v2@ == popped(v@)
            }) && b == (App { mode: b.mode, ..a }) && e is Nothing,
            Key::Char(c) => (b.mode matches Mode::MapEntryInput { field: f, original_key: o, step: s, key: k2, value: v2 }
                && f == field && o == original_key && s == step && if step == MapEntryStep::Key {
                k2@ == k@.push(c) && v2 == v
            } else {
                k2 == k && v2@ == v@.push(c)
            }) && b == (App { mode: b.mode, ..a }) && e is Nothing,
            Key::Enter => if step == MapEntryStep::Key {
                b == (App {
                    mode: Mode::MapEntryInput { field, original_key, step: MapEntryStep::Value, key: k, value: v },
                    ..a
                }) && e is Nothing
            } else {
                let t = crate::text::trim_spec(k@);
                b.mode == Mode::MapEditor { field, selected: 0 } && if t.len() > 0 && map_of(a, field) is Some {
                    &&& map_of(a, field) matches Some(m0)
                    &&& map_of(b, field) matches Some(m1)
                    &&& m1@ == committed_map(m0@, original_key, t, v@)
                    &&& replaced_map(a, App { mode: a.mode, ..b }, field, m1)
                    &&& saves_owner(field, e)
                } else {
                    b == (App { mode: b.mode, ..a }) && e is Nothing
                }
            },
            _ => b == a && e is Nothing,
        },
        _ => if key is Enter {
            b == (App { mode: Mode::Normal, ..a }) && e is Nothing
        } else {
            b == a && e is Nothing
        },
    }
}

/// A key while adding or editing one map entry.
pub fn map_entry_input_key(app: &mut App, key: Key) -> (e: Effect)
    ensures
        map_entry_key_spec(*old(app), *final(app), key, e),
{
    match key {
        Key::Esc | Key::Backspace | Key::Char(_) => {},
        Key::Enter => {},
        _ => return Effect::Nothing,
    }
    let ghost a = *app;
    let m = super::library::take_mode(app);
    match m {
        Mode::MapEntryInput { field, original_key, step, key: k, value: v } => match key {
            Key::Esc => {
                app.mode = Mode::MapEditor { field, selected: 0 };
                Effect::Nothing
            },
            Key::Backspace => {
                if step == MapEntryStep::Key {
                    let k2 = crate::text::str_pop_char(k.as_str());
                    app.mode = Mode::MapEntryInput { field, original_key, step, key: k2, value: v };
                } else {
                    let v2 = crate::text::str_pop_char(v.as_str());
                    app.mode = Mode::MapEntryInput { field, original_key, step, key: k, value: v2 };
                }
                Effect::Nothing
            },
            Key::Char(c) => {
                if step == MapEntryStep::Key {
                    let k2 = crate::text::str_push_char(k.as_str(), c);
                    app.mode = Mode::MapEntryInput { field, original_key, step, key: k2, value: v };
                } else {
                    let v2 = crate::text::str_push_char(v.as_str(), c);
                    app.mode = Mode::MapEntryInput { field, original_key, step, key: k, value: v2 };
                }
                Effect::Nothing
            },
            _ => {
                if step == MapEntryStep::Key {
                    app.mode = Mode::MapEntryInput { field, original_key, step: MapEntryStep::Value, key: k, value: v };
                    return Effect::Nothing;
                }
                let kv = crate::text::chars_of(k.as_str());
                let t = crate::text::trim(&kv);
                let mut e = Effect::Nothing;
                let has_map = app.map(&field).is_some();
                if t.len() > 0 && has_map {
                    let ts = crate::text::string_of(&t);
                    let ghost a1 = *app;
                    let changed = match &original_key {
                        Some(o) => !crate::text::str_eq(o.as_str(), ts.as_str()),
                        None => false,
                    };
                    if changed {
                        match &original_key {
                            Some(o) => app.map_remove(&field, o.as_str()),
                            None => {},
                        }
                    }
                    let ghost a2 = *app;
                    app.map_insert(&field, ts, v);
                    proof {
                        let m2 = map_of(*app, field)->0;
                        if changed {
                            super::app::lemma_replaced_map_compose(a1, a2, *app, field, map_of(a2, field)->0, m2);
                        }
                    }
                    e = save_map_owner(&field);
                }
                app.mode = Mode::MapEditor { field, selected: 0 };
                e
            },
        },
        other => {
            if key == Key::Enter {
                Effect::Nothing
            } else {
                app.mode = other;
                Effect::Nothing
            }
        },
    }
}

} // verus!
