use iprolaunch::config::{
    Config, GamescopeFilter, GamescopeScaler, GamescopeSetting, GamescopeSettings, Profile,
    ProfileDefaults, ProfileLogging,
};
use iprolaunch::launch::{
    ensure_profile_with_base, gamescope_filter_value, gamescope_scaler_value,
    gamescope_settings_args, iprolaunch_cli_flags_for, launch_command, launch_env, merge_env,
    next_available_slug_and_name, should_wrap_with_gamescope, spawn_failure_message,
    summarize_protonfixes, winedlloverrides_value, wrapper_argv, wrapper_argv_with, GamescopeMode,
};
use iprolaunch::strmap::StrMap;

fn profile_named(slug: &str, name: &str) -> (String, Profile) {
    (
        slug.to_string(),
        Profile {
            name: name.to_string(),
            target_path: format!("/tmp/{slug}.exe"),
            title: None,
            last_launched: None,
            defaults: ProfileDefaults::default(),
            logging: ProfileLogging::default(),
            env: StrMap::new(),
            winedlloverride: StrMap::new(),
            args: Vec::new(),
        },
    )
}

#[test]
fn next_available_slug_and_name_checks_the_name_even_when_the_slug_is_free() {
    let existing = vec![profile_named("monster-g", "game#1")];
    assert_eq!(
        next_available_slug_and_name("game", &existing),
        ("game-2".to_string(), "game#2".to_string())
    );
}

#[test]
fn next_available_slug_and_name_is_just_base_hash_1_with_nothing_existing() {
    assert_eq!(
        next_available_slug_and_name("game", &[]),
        ("game".to_string(), "game#1".to_string())
    );
}

#[test]
fn next_available_slug_and_name_skips_every_taken_candidate() {
    let existing = vec![
        profile_named("game", "other#1"),
        profile_named("x", "game#2"),
        profile_named("game-3", "y"),
    ];
    assert_eq!(
        next_available_slug_and_name("game", &existing),
        ("game-4".to_string(), "game#4".to_string())
    );
}

#[test]
fn ensure_profile_reuses_the_existing_profile_for_the_same_exe() {
    let existing = vec![profile_named("game", "game#1")];
    let (slug, p, created) = ensure_profile_with_base("/tmp/game.exe", "game", &existing);
    assert_eq!(slug, "game");
    assert_eq!(p.name, "game#1");
    assert!(!created);
    let (slug, p, created) = ensure_profile_with_base("/other/game.exe", "game", &existing);
    assert_eq!(slug, "game-2");
    assert_eq!(p.name, "game#2");
    assert_eq!(p.target_path, "/other/game.exe");
    assert!(created);
}

#[test]
fn gamescope_mode_default_is_inactive_with_no_args() {
    let mode = GamescopeMode::default();
    assert!(!mode.is_active());
    assert!(mode.args().is_empty());
}

#[test]
fn fullscreen_maps_to_gamescopes_own_dash_f() {
    let mode = GamescopeMode { fullscreen: true, maximize: false, borderless: false };
    assert!(mode.is_active());
    assert_eq!(mode.args(), vec!["-f"]);
}

#[test]
fn maximize_maps_to_force_windows_fullscreen() {
    let mode = GamescopeMode { fullscreen: false, maximize: true, borderless: false };
    assert!(mode.is_active());
    assert_eq!(mode.args(), vec!["--force-windows-fullscreen"]);
}

#[test]
fn borderless_maps_to_gamescopes_own_dash_b() {
    let mode = GamescopeMode { fullscreen: false, maximize: false, borderless: true };
    assert!(mode.is_active());
    assert_eq!(mode.args(), vec!["-b"]);
}

#[test]
fn all_three_stack_fullscreen_then_maximize_then_borderless() {
    let mode = GamescopeMode { fullscreen: true, maximize: true, borderless: true };
    assert_eq!(mode.args(), vec!["-f", "--force-windows-fullscreen", "-b"]);
}

#[test]
fn should_wrap_with_gamescope_only_when_requested_and_not_already_nested() {
    assert!(should_wrap_with_gamescope(true, false));
    assert!(!should_wrap_with_gamescope(true, true));
    assert!(!should_wrap_with_gamescope(false, false));
    assert!(!should_wrap_with_gamescope(false, true));
}

#[test]
fn iprolaunch_cli_flags_for_maps_gamescope_setting_and_borderless() {
    let mut cfg = Config::default();
    assert!(iprolaunch_cli_flags_for(&cfg.effective(None)).is_empty());
    cfg.defaults.gamescope = GamescopeSetting::Fullscreen;
    assert_eq!(iprolaunch_cli_flags_for(&cfg.effective(None)), vec!["-f"]);
    cfg.defaults.gamescope = GamescopeSetting::Maximize;
    cfg.defaults.gamescope_settings.borderless = Some(true);
    assert_eq!(iprolaunch_cli_flags_for(&cfg.effective(None)), vec!["-w", "-b"]);
}

#[test]
fn gamescope_setting_converts_to_the_matching_mode() {
    assert!(!GamescopeMode::from(GamescopeSetting::Off).is_active());
    assert_eq!(GamescopeMode::from(GamescopeSetting::Fullscreen).args(), vec!["-f"]);
    assert_eq!(
        GamescopeMode::from(GamescopeSetting::Maximize).args(),
        vec!["--force-windows-fullscreen"]
    );
}

#[test]
fn gamescope_settings_args_is_empty_when_nothing_set() {
    assert!(gamescope_settings_args(&GamescopeSettings::default()).is_empty());
}

#[test]
fn gamescope_settings_args_maps_every_field_to_its_real_flag() {
    let settings = GamescopeSettings {
        output_width: Some(1920),
        output_height: Some(1080),
        refresh: Some(60),
        nested_width: Some(1280),
        nested_height: Some(800),
        filter: Some(GamescopeFilter::Fsr),
        scaler: Some(GamescopeScaler::Fit),
        borderless: None,
        grab_cursor: None,
        adaptive_sync: None,
    };
    assert_eq!(
        gamescope_settings_args(&settings),
        vec!["-W", "1920", "-H", "1080", "-r", "60", "-w", "1280", "-h", "800", "-F", "fsr", "-S", "fit"]
    );
}

#[test]
fn gamescope_settings_args_maps_grab_cursor_but_not_borderless() {
    let settings = GamescopeSettings {
        borderless: Some(true),
        grab_cursor: Some(true),
        ..Default::default()
    };
    assert_eq!(gamescope_settings_args(&settings), vec!["--force-grab-cursor"]);
    let settings = GamescopeSettings { grab_cursor: Some(false), ..Default::default() };
    assert!(gamescope_settings_args(&settings).is_empty());
}

#[test]
fn gamescope_settings_args_maps_scaler_and_adaptive_sync() {
    let settings = GamescopeSettings {
        scaler: Some(GamescopeScaler::Auto),
        adaptive_sync: Some(true),
        ..Default::default()
    };
    assert_eq!(gamescope_settings_args(&settings), vec!["-S", "auto", "--adaptive-sync"]);
    let settings = GamescopeSettings { adaptive_sync: Some(false), ..Default::default() };
    assert!(gamescope_settings_args(&settings).is_empty());
}

#[test]
fn gamescope_filter_value_matches_real_gamescope_option_names() {
    assert_eq!(gamescope_filter_value(GamescopeFilter::Linear), "linear");
    assert_eq!(gamescope_filter_value(GamescopeFilter::Nearest), "nearest");
    assert_eq!(gamescope_filter_value(GamescopeFilter::Fsr), "fsr");
    assert_eq!(gamescope_filter_value(GamescopeFilter::Nis), "nis");
    assert_eq!(gamescope_filter_value(GamescopeFilter::Pixel), "pixel");
}

#[test]
fn gamescope_scaler_value_matches_real_gamescope_option_names() {
    assert_eq!(gamescope_scaler_value(GamescopeScaler::Auto), "auto");
    assert_eq!(gamescope_scaler_value(GamescopeScaler::Integer), "integer");
    assert_eq!(gamescope_scaler_value(GamescopeScaler::Fit), "fit");
    assert_eq!(gamescope_scaler_value(GamescopeScaler::Fill), "fill");
    assert_eq!(gamescope_scaler_value(GamescopeScaler::Stretch), "stretch");
}

#[test]
fn wrapper_argv_splits_on_whitespace() {
    assert_eq!(wrapper_argv("gamemoderun --something"), vec!["gamemoderun", "--something"]);
    assert_eq!(wrapper_argv("mangohud"), vec!["mangohud"]);
}

#[test]
fn wrapper_argv_expands_home_in_just_the_program_not_its_args() {
    assert_eq!(
        wrapper_argv_with("~/lsfg --keep-tilde ~/not-expanded", Some("/home/u")),
        vec!["/home/u/lsfg", "--keep-tilde", "~/not-expanded"]
    );
}

#[test]
fn winedlloverrides_joins_deterministically_by_key_order() {
    let mut overrides = StrMap::new();
    overrides.insert("LunaHook64".to_string(), "n,b".to_string());
    overrides.insert("winhttp".to_string(), "n,b".to_string());
    assert_eq!(
        winedlloverrides_value(&overrides),
        Some("LunaHook64=n,b;winhttp=n,b".to_string())
    );
}

#[test]
fn winedlloverrides_none_when_empty() {
    assert_eq!(winedlloverrides_value(&StrMap::new()), None);
}

#[test]
fn cli_env_overrides_only_the_keys_it_sets() {
    let mut profile_and_global_env = StrMap::new();
    profile_and_global_env.insert("PROTON_LOG".to_string(), "1".to_string());
    profile_and_global_env.insert("MANGOHUD".to_string(), "1".to_string());
    let cli_env = vec![("PROTON_LOG".to_string(), "0".to_string())];
    let merged = merge_env(&profile_and_global_env, &cli_env);
    assert_eq!(merged.get("PROTON_LOG").as_deref(), Some("0"));
    assert_eq!(merged.get("MANGOHUD").as_deref(), Some("1"));
}

#[test]
fn launch_env_adds_run_verb_only_for_a_busy_prefix_without_one() {
    let base = StrMap::new();
    assert_eq!(launch_env(&base, &[], true).get("PROTON_VERB").as_deref(), Some("run"));
    assert_eq!(launch_env(&base, &[], false).get("PROTON_VERB"), None);
    let cli = vec![("PROTON_VERB".to_string(), "waitforexitandrun".to_string())];
    assert_eq!(
        launch_env(&base, &cli, true).get("PROTON_VERB").as_deref(),
        Some("waitforexitandrun")
    );
}

#[test]
fn launch_command_wraps_in_gamescope_and_then_the_wrapper() {
    let mode = GamescopeMode { fullscreen: true, maximize: false, borderless: false };
    let settings = GamescopeSettings { refresh: Some(60), ..Default::default() };
    let (prog, args) = launch_command(true, mode, &settings, "/g/a.exe", &["--dx11".to_string()], &["x".to_string()], None);
    assert_eq!(prog, "gamescope");
    assert_eq!(args, vec!["-f", "-r", "60", "--", "umu-run", "/g/a.exe", "--dx11", "x"]);
    let wrapper = vec!["gamemoderun".to_string(), "-v".to_string()];
    let (prog, args) = launch_command(false, mode, &settings, "/g/a.exe", &[], &[], Some(&wrapper));
    assert_eq!(prog, "gamemoderun");
    assert_eq!(args, vec!["-v", "umu-run", "/g/a.exe"]);
    assert_eq!(
        spawn_failure_message(None, false),
        "failed to spawn umu-run (is it installed and on $PATH?)"
    );
}

#[test]
fn protonfix_not_found_reported_from_real_observed_log_excerpt() {
    let log = "\
ProtonFixes[1298151] INFO: Running protonfixes on \"UMU-Proton-10.0-4\", build at 2026-03-30 07:33:47+00:00.
ProtonFixes[1298151] INFO: Running checks
ProtonFixes[1298151] INFO: All checks successful
ProtonFixes[1298151] WARN: Game title not found in CSV
ProtonFixes[1298151] INFO: Non-steam game UNKNOWN (umu-default)
ProtonFixes[1298151] INFO: No store specified, using UMU database
ProtonFixes[1298151] INFO: Using early stage global defaults for UNKNOWN (umu-default)
ProtonFixes[1298151] INFO: No early stage global protonfix found for UNKNOWN (umu-default)
ProtonFixes[1298151] INFO: Using main stage global defaults for UNKNOWN (umu-default)
ProtonFixes[1298151] INFO: No main stage global protonfix found for UNKNOWN (umu-default)
";
    assert_eq!(
        summarize_protonfixes(log),
        Some("no protonfix found for this game".to_string())
    );
}

#[test]
fn protonfix_applied_is_distinguished_from_defaults() {
    let log = "\
ProtonFixes[1298151] INFO: Using early stage global defaults for Some Game (12345)
ProtonFixes[1298151] INFO: Using early stage global protonfix for Some Game (12345)
";
    let summary = summarize_protonfixes(log).unwrap();
    assert!(summary.starts_with("protonfix applied"));
    assert!(summary.contains("Some Game (12345)"));
    assert!(!summary.contains("defaults"));
}

#[test]
fn no_summary_when_protonfixes_never_ran() {
    assert_eq!(summarize_protonfixes("some unrelated umu-run output\n"), None);
}
