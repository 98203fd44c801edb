use iprolaunch::config::{
    name_base, Config, GamescopeFilter, GamescopeScaler, GamescopeSetting, PrefixMode, Profile,
    ProfileDefaults, ProfileLogging, RecordMode,
};
use iprolaunch::config::expand_home_with;
use iprolaunch::strmap::StrMap;

fn profile(name: &str, target: &str) -> Profile {
    Profile {
        name: name.into(),
        target_path: target.into(),
        title: None,
        last_launched: None,
        defaults: ProfileDefaults::default(),
        logging: ProfileLogging::default(),
        env: StrMap::new(),
        winedlloverride: StrMap::new(),
        args: Vec::new(),
    }
}

#[test]
fn name_base_splits_on_the_last_hash() {
    assert_eq!(name_base("game#1"), "game");
    assert_eq!(name_base("no-hash-here"), "no-hash-here");
    assert_eq!(name_base("weird#name#2"), "weird#name");
}

#[test]
fn display_title_prefers_title_then_falls_back_to_name_base() {
    let mut profile = profile("game#1", "/tmp/game.exe");
    assert_eq!(profile.display_title(), "game");
    profile.title = Some("A Real Game Title".to_string());
    assert_eq!(profile.display_title(), "A Real Game Title");
}

#[test]
fn matches_query_checks_both_name_and_target_path() {
    let profile = profile("EldenRing#1", "/a/b/c/Downloads/EldenRing.exe");
    assert!(profile.matches_query("elden"));
    assert!(profile.matches_query("downloads"));
    assert!(!profile.matches_query("nonexistent"));
}

#[test]
fn windows_version_only_applies_in_per_slug_mode() {
    let mut cfg = Config::default();
    cfg.defaults.prefix_mode = PrefixMode::Single;
    assert_eq!(cfg.effective(None).windows_version, None);
    cfg.defaults.prefix_mode = PrefixMode::PerSlug;
    assert_eq!(
        cfg.effective(None).windows_version,
        Some(cfg.defaults.windows_version.clone())
    );
}

#[test]
fn profile_proton_override_is_ignored_outside_per_slug_mode() {
    let mut cfg = Config::default();
    cfg.defaults.proton = "system".into();
    let mut profile = profile("game#1", "/tmp/game.exe");
    profile.defaults.proton = Some("GE-Proton10-34".into());
    cfg.defaults.prefix_mode = PrefixMode::Single;
    assert_eq!(cfg.effective(Some(&profile)).proton, "system");
    cfg.defaults.prefix_mode = PrefixMode::PerSlug;
    assert_eq!(cfg.effective(Some(&profile)).proton, "GE-Proton10-34");
}

#[test]
fn gamescope_defaults_to_none_and_a_profile_override_wins() {
    let cfg = Config::default();
    assert_eq!(cfg.effective(None).gamescope, GamescopeSetting::Off);
    let mut profile = profile("game#1", "/tmp/game.exe");
    profile.defaults.gamescope = Some(GamescopeSetting::Fullscreen);
    assert_eq!(
        cfg.effective(Some(&profile)).gamescope,
        GamescopeSetting::Fullscreen
    );
}

#[test]
fn launch_wrapper_profile_override_wins_over_global_default() {
    let mut cfg = Config::default();
    assert_eq!(cfg.effective(None).launch_wrapper, None);
    cfg.defaults.launch_wrapper = Some("gamemoderun".to_string());
    assert_eq!(
        cfg.effective(None).launch_wrapper,
        Some("gamemoderun".to_string())
    );
    let mut profile = profile("game#1", "/tmp/game.exe");
    assert_eq!(
        cfg.effective(Some(&profile)).launch_wrapper,
        Some("gamemoderun".to_string())
    );
    profile.defaults.launch_wrapper = Some("~/lsfg".to_string());
    assert_eq!(
        cfg.effective(Some(&profile)).launch_wrapper,
        Some("~/lsfg".to_string())
    );
}

#[test]
fn gamescope_settings_merge_per_field_profile_wins_when_set() {
    let mut cfg = Config::default();
    cfg.defaults.gamescope_settings.output_width = Some(1920);
    cfg.defaults.gamescope_settings.output_height = Some(1080);
    cfg.defaults.gamescope_settings.filter = Some(GamescopeFilter::Fsr);
    let mut profile = profile("game#1", "/tmp/game.exe");
    let effective = cfg.effective(Some(&profile));
    assert_eq!(effective.gamescope_settings.output_width, Some(1920));
    assert_eq!(effective.gamescope_settings.output_height, Some(1080));
    assert_eq!(
        effective.gamescope_settings.filter,
        Some(GamescopeFilter::Fsr)
    );
    assert_eq!(effective.gamescope_settings.refresh, None);
    profile.defaults.gamescope_settings.output_width = Some(1280);
    let effective = cfg.effective(Some(&profile));
    assert_eq!(effective.gamescope_settings.output_width, Some(1280));
    assert_eq!(effective.gamescope_settings.output_height, Some(1080));
    cfg.defaults.gamescope_settings.borderless = Some(true);
    cfg.defaults.gamescope_settings.grab_cursor = Some(true);
    assert_eq!(
        cfg.effective(Some(&profile)).gamescope_settings.borderless,
        Some(true)
    );
    profile.defaults.gamescope_settings.grab_cursor = Some(false);
    assert_eq!(
        cfg.effective(Some(&profile)).gamescope_settings.grab_cursor,
        Some(false)
    );
    cfg.defaults.gamescope_settings.scaler = Some(GamescopeScaler::Fit);
    cfg.defaults.gamescope_settings.adaptive_sync = Some(true);
    assert_eq!(
        cfg.effective(Some(&profile)).gamescope_settings.scaler,
        Some(GamescopeScaler::Fit)
    );
    profile.defaults.gamescope_settings.scaler = Some(GamescopeScaler::Stretch);
    profile.defaults.gamescope_settings.adaptive_sync = Some(false);
    assert_eq!(
        cfg.effective(Some(&profile)).gamescope_settings.scaler,
        Some(GamescopeScaler::Stretch)
    );
    assert_eq!(
        cfg.effective(Some(&profile))
            .gamescope_settings
            .adaptive_sync,
        Some(false)
    );
}

#[test]
fn auto_open_forced_off_when_record_is_off() {
    let mut cfg = Config::default();
    cfg.logging.record = RecordMode::Off;
    cfg.logging.auto_open = true;
    assert!(!cfg.effective(None).auto_open);
}

#[test]
fn profile_env_overrides_global_on_collision() {
    let mut cfg = Config::default();
    cfg.env.insert("DXVK_HUD".into(), "0".into());
    let mut profile = profile("game#1", "/tmp/game.exe");
    profile.env.insert("DXVK_HUD".into(), "fps".into());
    assert_eq!(
        cfg.effective(Some(&profile)).env.get("DXVK_HUD").as_deref(),
        Some("fps")
    );
}

#[test]
fn mark_launched_now_formats_dd_mon_yyyy_hh_mm_ss() {
    let mut profile = profile("game#1", "/tmp/game.exe");
    profile.mark_launched_now();
    let stamp = profile.last_launched.expect("mark_launched_now sets it");
    let (date, time) = stamp.split_once(", ").expect("`DD-Mon-YYYY, HH:MM:SS`");
    let date_parts: Vec<&str> = date.split('-').collect();
    let time_parts: Vec<&str> = time.split(':').collect();
    assert_eq!(date_parts.len(), 3, "date should be DD-Mon-YYYY: {stamp}");
    assert_eq!(time_parts.len(), 3, "time should be HH:MM:SS: {stamp}");
    assert_eq!(date_parts[0].len(), 2, "day should be zero-padded: {stamp}");
    assert_eq!(date_parts[1].len(), 3, "month should be a 3-letter abbreviation: {stamp}");
    assert_eq!(date_parts[2].len(), 4, "year should be 4 digits: {stamp}");
    assert!(
        time_parts.iter().all(|p| p.len() == 2),
        "HH/MM/SS should be zero-padded: {stamp}"
    );
}

#[test]
fn mark_launched_at_formats_a_known_instant() {
    let mut profile = profile("game#1", "/tmp/game.exe");
    profile.mark_launched_at(5, 9, 2026, 7, 3, 59);
    assert_eq!(profile.last_launched.as_deref(), Some("05-Sep-2026, 07:03:59"));
    profile.mark_launched_at(31, 12, 1999, 23, 59, 0);
    assert_eq!(profile.last_launched.as_deref(), Some("31-Dec-1999, 23:59:00"));
}

#[test]
fn effective_without_a_profile_is_the_global_defaults() {
    let cfg = Config::default();
    let e = cfg.effective(None);
    assert_eq!(e.proton, "system");
    assert_eq!(e.prefix_path, "~/.local/share/iprolaunch/prefix");
    assert_eq!(e.keep, 3);
    assert_eq!(e.record, RecordMode::Errors);
    assert!(e.auto_open);
    assert!(e.env.is_empty());
}

#[test]
fn profile_logging_overrides_win() {
    let cfg = Config::default();
    let mut p = profile("g#1", "/tmp/g.exe");
    p.logging.keep = Some(9);
    p.logging.record = Some(RecordMode::All);
    p.logging.auto_open = Some(false);
    let e = cfg.effective(Some(&p));
    assert_eq!(e.keep, 9);
    assert_eq!(e.record, RecordMode::All);
    assert!(!e.auto_open);
}

#[test]
fn log_dir_uses_the_single_mode_path_or_the_config_logs_folder() {
    let mut cfg = Config::default();
    assert_eq!(cfg.log_dir_with("/home/u/.config/iprolaunch", Some("/home/u")), "/home/u/.config/iprolaunch/logs");
    cfg.logging.path = "~/mylogs".into();
    assert_eq!(cfg.log_dir_with("/cfg", Some("/home/u")), "/home/u/mylogs");
    cfg.logging.mode = iprolaunch::config::LogMode::Each;
    assert_eq!(cfg.log_dir_with("/cfg", Some("/home/u")), "/cfg/logs");
}

#[test]
fn expand_home_only_touches_a_leading_tilde_slash() {
    assert_eq!(expand_home_with("~/x/y", Some("/home/u")), "/home/u/x/y");
    assert_eq!(expand_home_with("~x", Some("/home/u")), "~x");
    assert_eq!(expand_home_with("/abs", Some("/home/u")), "/abs");
    assert_eq!(expand_home_with("~/x", None), "~/x");
}

#[test]
fn strmap_keeps_keys_sorted_and_last_insert_wins() {
    let mut m = StrMap::new();
    m.insert("winhttp".into(), "n,b".into());
    m.insert("LunaHook64".into(), "n".into());
    m.insert("LunaHook64".into(), "n,b".into());
    let keys: Vec<&str> = m.entries().iter().map(|(k, _)| k.as_str()).collect();
    assert_eq!(keys, vec!["LunaHook64", "winhttp"]);
    assert_eq!(m.get("LunaHook64").as_deref(), Some("n,b"));
    assert_eq!(m.len(), 2);
    assert_eq!(m.remove("winhttp").as_deref(), Some("n,b"));
    assert!(!m.contains_key("winhttp"));
    assert_eq!(m.remove("winhttp"), None);
}

#[test]
fn stamping_a_launch_keeps_every_other_setting() {
    let mut profile = profile("game#1", "/tmp/game.exe");
    profile.logging.keep = Some(5);
    profile.defaults.proton = Some("GE-Proton9-1".to_string());
    profile.env.insert("DXVK_HUD".to_string(), "1".to_string());
    profile.mark_launched_at(1, 1, 2030, 0, 0, 0);
    assert_eq!(profile.logging.keep, Some(5));
    assert_eq!(profile.defaults.proton.as_deref(), Some("GE-Proton9-1"));
    assert_eq!(profile.env.get("DXVK_HUD"), Some("1".to_string()));
    assert_eq!(profile.last_launched.as_deref(), Some("01-Jan-2030, 00:00:00"));
}

#[test]
fn single_mode_log_dir_with_a_set_path_needs_no_config_dir() {
    let mut cfg = Config::default();
    cfg.logging.path = "/tmp/custom-logs".to_string();
    assert_eq!(cfg.log_dir(), Ok("/tmp/custom-logs".to_string()));
}
