use iprolaunch::cli::{parse_env_kv, parse_leading_env, select_profile, split_leading_env, SelectError};
use iprolaunch::config::Profile;
use iprolaunch::proton::{
    compat_build, display_name_in, is_official_proton, library_paths_in, order_builds, path_candidates,
    resolve_binary_dir_with, ProtonBuild, ResolveError,
};
use iprolaunch::updater::{decide_update, parse_version, CheckError, Release, ReleaseAsset, UpdateCheck};

fn strs(v: &[&str]) -> Vec<String> {
    v.iter().map(|s| s.to_string()).collect()
}

#[test]
fn splits_leading_env_and_stops_at_first_non_matching_token() {
    let (env, args) = split_leading_env(strs(&["PROTON_LOG=1", "DXVK_HUD=0", "MANGOHUD=1", "-fullscreen"]));
    assert_eq!(
        env,
        vec![
            ("PROTON_LOG".into(), "1".into()),
            ("DXVK_HUD".into(), "0".into()),
            ("MANGOHUD".into(), "1".into()),
        ]
    );
    assert_eq!(args, strs(&["-fullscreen"]));
}

#[test]
fn does_not_treat_a_flag_containing_equals_as_env() {
    let (env, args) = split_leading_env(strs(&["-connect=1.2.3.4", "FOO=bar"]));
    assert!(env.is_empty());
    assert_eq!(args, strs(&["-connect=1.2.3.4", "FOO=bar"]));
}

#[test]
fn env_tokens_need_an_env_style_name() {
    assert_eq!(parse_leading_env("_A1=x=y"), Some(("_A1".to_string(), "x=y".to_string())));
    assert_eq!(parse_leading_env("1A=x"), None);
    assert_eq!(parse_leading_env("=x"), None);
    assert_eq!(parse_env_kv("A=b"), Ok(("A".to_string(), "b".to_string())));
    assert_eq!(parse_env_kv("nope"), Err("expected KEY=VALUE, got `nope`".to_string()));
}

#[test]
fn quick_launch_matches_slug_or_name_case_insensitively_and_rejects_ambiguity() {
    let a = ("game".to_string(), Profile::fresh("Game#1".into(), "/a.exe".into()));
    let b = ("other".to_string(), Profile::fresh("GAME".into(), "/b.exe".into()));
    let list = vec![a, b];
    assert_eq!(select_profile(&list, "OTHER"), Ok(1));
    assert_eq!(select_profile(&list, "game#1"), Ok(0));
    assert_eq!(select_profile(&list, "game"), Err(SelectError::Ambiguous));
    assert_eq!(select_profile(&list, "zzz"), Err(SelectError::NoMatch));
}

#[test]
fn extracts_display_name_from_real_manifest_format() {
    let text = "\"compatibilitytools\"\n{\n  \"compat_tools\"\n  {\n    \"GE-Proton10-34\"\n    {\n      \"install_path\" \".\"\n      \"display_name\" \"GE-Proton10-34\"\n      \"from_oslist\"  \"windows\"\n      \"to_oslist\"    \"linux\"\n    }\n  }\n}\n";
    assert_eq!(display_name_in(text), Some("GE-Proton10-34".to_string()));
    assert_eq!(display_name_in(""), None);
}

#[test]
fn steam_library_paths_extracts_every_path_from_real_manifest_format() {
    let text = "\"libraryfolders\"\n{\n\t\"0\"\n\t{\n\t\t\"path\"\t\t\"/home/user/.local/share/Steam\"\n\t\t\"label\"\t\t\"\"\n\t\t\"apps\"\n\t\t{\n\t\t\t\"228980\"\t\t\"451331579\"\n\t\t}\n\t}\n\t\"1\"\n\t{\n\t\t\"path\"\t\t\"/media/game/SteamLibrary\"\n\t\t\"label\"\t\t\"Viper 1TB\"\n\t}\n}\n";
    assert_eq!(
        library_paths_in(text),
        vec!["/home/user/.local/share/Steam".to_string(), "/media/game/SteamLibrary".to_string()]
    );
}

#[test]
fn official_and_community_builds_get_the_right_ids() {
    assert!(is_official_proton("Proton 9.0", true));
    assert!(!is_official_proton("Proton 10.0", false));
    assert!(!is_official_proton("NotProton", true));
    let b = compat_build("/usr/share/steam/compatibilitytools.d/x", "x", true, None);
    assert_eq!(b.id, "/usr/share/steam/compatibilitytools.d/x");
    assert_eq!(b.display_name, b.id);
    let b = compat_build("/home/u/.steam/compatibilitytools.d/GE-Proton10-34", "GE-Proton10-34", false, Some("GE 10".into()));
    assert_eq!(b.id, "GE-Proton10-34");
    assert_eq!(b.display_name, "GE 10");
}

#[test]
fn builds_are_sorted_case_insensitively_and_deduplicated_by_id() {
    let b = |id: &str, name: &str| ProtonBuild { id: id.into(), display_name: name.into() };
    let out = order_builds(vec![b("z", "zeta"), b("a", "Alpha"), b("a", "alpha"), b("m", "Mid")]);
    let ids: Vec<&str> = out.iter().map(|x| x.id.as_str()).collect();
    assert_eq!(ids, vec!["a", "m", "z"]);
    assert_eq!(out[0].display_name, "Alpha");
}

#[test]
fn resolve_binary_dir_passes_an_absolute_id_through_unchanged() {
    assert_eq!(resolve_binary_dir_with("/opt/proton", Some("/home/u")), Ok("/opt/proton".to_string()));
}

#[test]
fn resolve_binary_dir_joins_a_bare_name_against_the_users_steam_root() {
    assert_eq!(
        resolve_binary_dir_with("GE-Proton10-34", Some("/home/u")),
        Ok("/home/u/.local/share/Steam/compatibilitytools.d/GE-Proton10-34".to_string())
    );
}

#[test]
fn resolve_binary_dir_rejects_system_and_empty() {
    assert_eq!(resolve_binary_dir_with("system", Some("/home/u")), Err(ResolveError::NoBuildSelected));
    assert_eq!(resolve_binary_dir_with("", Some("/home/u")), Err(ResolveError::NoBuildSelected));
}

#[test]
fn find_on_path_candidates_follow_the_path_order() {
    assert_eq!(path_candidates("/a:/b/", "wine"), vec!["/a/wine".to_string(), "/b/wine".to_string()]);
}

#[test]
fn parse_version_strips_a_leading_v() {
    assert_eq!(parse_version("v1.31.1"), Some((1, 31, 1)));
    assert_eq!(parse_version("1.31.1"), Some((1, 31, 1)));
}

#[test]
fn parse_version_rejects_anything_else() {
    assert_eq!(parse_version("not-a-version"), None);
    assert_eq!(parse_version("1.31"), None);
    assert_eq!(parse_version(""), None);
}

#[test]
fn update_decisions_follow_the_version_order() {
    let release = |tag: &str, names: &[&str]| Release {
        tag_name: tag.into(),
        assets: names
            .iter()
            .map(|n| ReleaseAsset { name: n.to_string(), browser_download_url: format!("https://x/{n}") })
            .collect(),
    };
    assert_eq!(
        decide_update("1.2.3", &release("v1.2.3", &["a.tar.gz"])),
        Ok(UpdateCheck::UpToDate { current: "1.2.3".into() })
    );
    assert_eq!(
        decide_update("1.2.3", &release("v1.10.0", &["notes.txt", "b.tar.gz"])),
        Ok(UpdateCheck::Available {
            current: "1.2.3".into(),
            latest: "v1.10.0".into(),
            asset_name: "b.tar.gz".into(),
            asset_url: "https://x/b.tar.gz".into(),
        })
    );
    assert_eq!(decide_update("1.2.3", &release("v2.0.0", &[])), Err(CheckError::NoArchive("v2.0.0".into())));
    assert_eq!(decide_update("x", &release("v2.0.0", &[])), Err(CheckError::BadCurrent("x".into())));
}
