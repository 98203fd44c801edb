use iprolaunch::config::{Effective, GamescopeSetting, GamescopeSettings, LogMode, PrefixMode, RecordMode};
use iprolaunch::prefix::{resolve_with, sanitize, slug_from_exe, slug_from_stem};
use iprolaunch::strmap::StrMap;

#[test]
fn slug_sanitizes_and_lowercases() {
    assert_eq!(slug_from_exe("/games/Elden Ring/eldenring.exe"), "eldenring");
    assert_eq!(slug_from_exe("C:/Foo Bar!!.exe"), "foo-bar");
}

#[test]
fn slug_from_exe_falls_back_to_app_when_the_stem_is_entirely_non_ascii() {
    assert_eq!(slug_from_exe("/games/真・痴漢の極み.exe"), "app");
}

#[test]
fn sanitize_collapses_runs_and_trims_dashes() {
    assert_eq!(sanitize("--A  b__C--"), "a-b-c");
    assert_eq!(sanitize(""), "");
    assert_eq!(slug_from_stem(None), "app");
}

#[test]
fn per_slug_mode_uses_the_given_slug_directly_not_the_exe_path() {
    let effective = Effective {
        proton: "system".to_string(),
        prefix_mode: PrefixMode::PerSlug,
        prefix_path: "~/unused".to_string(),
        prefixes_root: "~/prefixes".to_string(),
        windows_version: Some("win10".to_string()),
        gamescope: GamescopeSetting::Off,
        gamescope_settings: GamescopeSettings::default(),
        launch_wrapper: None,
        log_mode: LogMode::Single,
        keep: 0,
        record: RecordMode::Off,
        auto_open: false,
        env: StrMap::new(),
        winedlloverride: StrMap::new(),
    };
    assert_eq!(resolve_with(&effective, "game", Some("/home/u")), "/home/u/prefixes/game");
    assert_eq!(resolve_with(&effective, "game-2", Some("/home/u")), "/home/u/prefixes/game-2");
    let mut single = effective.clone();
    single.prefix_mode = PrefixMode::Single;
    assert_eq!(resolve_with(&single, "game", Some("/home/u")), "/home/u/unused");
}

#[test]
fn sanitizing_a_slug_again_changes_nothing() {
    for text in ["Elden Ring!!", "--A  b--C--", "game.exe", "x", "ÜBER Spiel Ω", "ǅemal"] {
        let once = sanitize(text);
        assert_eq!(sanitize(&once), once);
    }
}

#[test]
fn the_slug_is_empty_exactly_without_letters_or_digits() {
    assert_eq!(sanitize("!!! ---"), "");
    assert_eq!(sanitize(""), "");
    assert_eq!(sanitize("!a!"), "a");
}
