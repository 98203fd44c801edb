use iprolaunch::config::{Config, GamescopeSetting, Profile};
use iprolaunch::steam_shortcut::{
    find_obj, find_str, matching_slug, parse_object, percent_encode_path, shortcut_flags,
    slugs_from_shortcuts_bytes, steam_url, wrapper_contents, VdfValue,
};

#[test]
fn wrapper_contents_reuses_the_exact_quick_launch_command_format() {
    let contents = wrapper_contents("Elden Ring#1", "/opt/iprolaunch", &[], "eldenring");
    assert_eq!(
        contents,
        "[Desktop Entry]\nType=Application\nName=Elden Ring#1\nExec=\"/opt/iprolaunch\" eldenring\n"
    );
}

#[test]
fn wrapper_contents_inserts_extra_flags_as_separate_tokens_before_the_slug() {
    let contents = wrapper_contents("Game#1", "/opt/iprolaunch", &["-w", "-b"], "game");
    assert!(contents.contains("Exec=\"/opt/iprolaunch\" -w -b game\n"));
}

#[test]
fn wrapper_contents_handles_an_exe_path_containing_a_space() {
    let contents = wrapper_contents("Game#1", "/home/user/My Games/iprolaunch", &["-f"], "game");
    assert!(contents.contains("Exec=\"/home/user/My Games/iprolaunch\" -f game\n"));
}

#[test]
fn wrapper_contents_collapses_a_newline_in_the_name_to_a_space() {
    let contents = wrapper_contents("weird\nname", "/opt/iprolaunch", &[], "game");
    let name_line = contents.lines().nth(2).expect("Name= is the 3rd line");
    assert_eq!(name_line, "Name=weird name");
}

#[test]
fn percent_encode_path_leaves_unreserved_characters_bare() {
    assert_eq!(percent_encode_path("abc-_.~XYZ"), "abc-_.~XYZ");
}

#[test]
fn percent_encode_path_encodes_slashes_and_spaces() {
    assert_eq!(
        percent_encode_path("/home/user/my game.desktop"),
        "%2Fhome%2Fuser%2Fmy%20game.desktop"
    );
}

#[test]
fn percent_encode_path_encodes_each_utf8_byte() {
    assert_eq!(percent_encode_path("é"), "%C3%A9");
}

#[test]
fn steam_url_has_the_real_scheme_and_the_encoded_path() {
    assert_eq!(
        steam_url("/tmp/game.desktop"),
        "steam://addnonsteamgame/%2Ftmp%2Fgame.desktop"
    );
}

fn fake_shortcuts_vdf(exe: &str, launch_options: &str) -> Vec<u8> {
    let mut bytes = Vec::new();
    bytes.push(0x00);
    bytes.extend(b"shortcuts\0");
    bytes.push(0x00);
    bytes.extend(b"0\0");
    bytes.push(0x02);
    bytes.extend(b"appid\0");
    bytes.extend(42i32.to_le_bytes());
    bytes.push(0x01);
    bytes.extend(b"appname\0");
    bytes.extend(b"Some Game\0");
    bytes.push(0x01);
    bytes.extend(b"exe\0");
    bytes.extend(exe.as_bytes());
    bytes.push(0);
    bytes.push(0x01);
    bytes.extend(b"LaunchOptions\0");
    bytes.extend(launch_options.as_bytes());
    bytes.push(0);
    bytes.push(0x08);
    bytes.push(0x08);
    bytes
}

#[test]
fn parse_object_reads_nested_strings_across_an_interleaved_int_field() {
    let bytes = fake_shortcuts_vdf("\"/opt/iprolaunch\"", "\"ktsysview\"");
    let mut pos = 0;
    let root = parse_object(&bytes, &mut pos);
    let shortcuts = find_obj(&root, "shortcuts").expect("shortcuts object");
    let (_, VdfValue::Obj(entry)) = &shortcuts[0] else {
        panic!("expected the first shortcut to be an object")
    };
    assert_eq!(find_str(entry, "appname").as_deref(), Some("Some Game"));
    assert_eq!(find_str(entry, "exe").as_deref(), Some("\"/opt/iprolaunch\""));
    assert_eq!(find_str(entry, "LaunchOptions").as_deref(), Some("\"ktsysview\""));
    assert_eq!(pos, bytes.len());
}

#[test]
fn matching_slug_strips_quotes_and_requires_an_iprolaunch_exe() {
    assert_eq!(
        matching_slug("\"/opt/iprolaunch\"", "\"ktsysview\""),
        Some("ktsysview".to_string())
    );
    assert_eq!(
        matching_slug("\"/opt/iprolaunch\"", "\"-w\" \"ktsysview\""),
        Some("ktsysview".to_string())
    );
    assert_eq!(
        matching_slug("\"/opt/some-other-game.exe\"", "MANGOHUD=1 %command%"),
        None
    );
}

#[test]
fn slugs_from_shortcuts_bytes_extracts_the_slug_from_a_real_shaped_file() {
    let bytes = fake_shortcuts_vdf("\"/home/user/iprolaunch\"", "\"eldenring\"");
    let found = slugs_from_shortcuts_bytes(&bytes);
    assert!(found.contains(&"eldenring".to_string()));
    assert_eq!(found.len(), 1);
}

#[test]
fn slugs_from_shortcuts_bytes_is_empty_for_garbage_input() {
    assert!(slugs_from_shortcuts_bytes(b"not a real vdf file at all").is_empty());
    assert!(slugs_from_shortcuts_bytes(b"").is_empty());
}

#[test]
fn shortcut_flags_bake_in_the_profiles_borderless_setting() {
    let cfg = Config::default();
    let mut p = Profile::fresh("g#1".to_string(), "/g.exe".to_string());
    p.defaults.gamescope = Some(GamescopeSetting::Fullscreen);
    p.defaults.gamescope_settings.borderless = Some(true);
    assert_eq!(shortcut_flags(&cfg, &p, true), vec!["-f", "-b"]);
    assert!(shortcut_flags(&cfg, &p, false).is_empty());
    p.defaults.gamescope_settings.borderless = None;
    assert_eq!(shortcut_flags(&cfg, &p, true), vec!["-f"]);
}
