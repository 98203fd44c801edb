use iprolaunch::config::{Config, LogMode, PrefixMode};
use iprolaunch::gamedb::{is_stale, lookup_gameid};
use iprolaunch::logging::{file_stamp, is_noise_line, prune_victims, session_dir, strip_noise_text};
use iprolaunch::quick_launch_cmd::command_for;
use iprolaunch::running::{
    environ_value, is_prefix_active, launch_id_from, matching_pids_for_launch, matching_pids_for_prefix, new_entry,
    prefix_matches,
};
use iprolaunch::terminal::{basename, exec_style, gnome_terminal_command, kde_terminal_command, terminal_args, ExecStyle};

const SAMPLE_CSV: &str = "TITLE,STORE,CODENAME,UMU_ID,COMMON ACRONYM (Optional),NOTE (Optional),EXE_STRINGS (Optional)
Grand Theft Auto V,egs,9d2d0eb64d5c44529cece33fe2a46482,umu-271590,gtav,,
Duet Night Abyss,none,none,umu-999999,,,Duet Night Abyss/EMLauncher.exe
";

#[test]
fn exact_title_match_wins() {
    assert_eq!(lookup_gameid(SAMPLE_CSV, "Grand Theft Auto V"), Some("umu-271590".to_string()));
    assert_eq!(lookup_gameid(SAMPLE_CSV, "grand theft auto v"), Some("umu-271590".to_string()));
}

#[test]
fn exe_strings_substring_match_as_fallback() {
    assert_eq!(lookup_gameid(SAMPLE_CSV, "emlauncher"), Some("umu-999999".to_string()));
}

#[test]
fn no_match_returns_none() {
    assert_eq!(lookup_gameid(SAMPLE_CSV, "Some Totally Unrelated Game"), None);
}

#[test]
fn missing_cache_returns_none_not_error() {
    assert_eq!(lookup_gameid("", "anything"), None);
}

#[test]
fn is_stale_true_when_cache_missing() {
    assert!(is_stale(None, 7));
    assert!(!is_stale(Some(1_000_000_000), 7));
    assert!(is_stale(Some(8 * 86_400 * 1_000_000_000), 7));
}

#[test]
fn command_for_quotes_the_binary_path_and_appends_the_slug() {
    assert_eq!(
        command_for("/home/user/.local/bin/iprolaunch", "eldenring"),
        "\"/home/user/.local/bin/iprolaunch\" eldenring"
    );
}

#[test]
fn exec_style_matches_known_binaries_and_defaults_to_dash_e() {
    assert!(matches!(exec_style("gnome-terminal"), ExecStyle::DoubleDash));
    assert!(matches!(exec_style("kitty"), ExecStyle::BareArgv));
    assert!(matches!(exec_style("foot"), ExecStyle::BareArgv));
    assert!(matches!(exec_style("wezterm"), ExecStyle::WeztermStart));
    assert!(matches!(exec_style("konsole"), ExecStyle::DashE));
    assert!(matches!(exec_style("some-unknown-terminal"), ExecStyle::DashE));
}

#[test]
fn basename_strips_a_full_path_down_to_the_binary_name() {
    assert_eq!(basename("/usr/bin/gnome-terminal"), "gnome-terminal");
    assert_eq!(basename("konsole"), "konsole");
}

#[test]
fn terminal_commands_are_built_per_style() {
    assert_eq!(
        terminal_args(ExecStyle::WeztermStart, &[], "less", "/l.log"),
        vec!["start", "--", "less", "/l.log"]
    );
    assert_eq!(
        terminal_args(ExecStyle::DashE, &["--x".to_string()], "less", "/l.log"),
        vec!["--x", "-e", "less", "/l.log"]
    );
    assert_eq!(
        kde_terminal_command(" /usr/bin/ghostty --gtk-single-instance=true\n"),
        Some(("/usr/bin/ghostty".to_string(), vec!["--gtk-single-instance=true".to_string()]))
    );
    assert_eq!(gnome_terminal_command("'xdg-terminal-exec'\n"), None);
    assert_eq!(gnome_terminal_command("'kgx'\n"), Some(("kgx".to_string(), vec![])));
}

#[test]
fn is_noise_line_recognizes_the_two_real_reported_patterns() {
    assert!(is_noise_line(
        "ERROR: ld.so: object '/home/user/.local/share/Steam/ubuntu12_32/gameoverlayrenderer.so' from LD_PRELOAD cannot be preloaded (wrong ELF class: ELFCLASS32): ignored."
    ));
    assert!(is_noise_line("pid 874042 != 869873, skipping destruction (fork without exec?)"));
    assert!(!is_noise_line("iprolaunch: logging to /some/real/path.log"));
    assert!(!is_noise_line("wine: could not load kernel32.dll, status c0000135"));
}

#[test]
fn strip_noise_removes_only_the_matching_lines_and_keeps_the_rest_in_order() {
    let raw = "iprolaunch: logging to /some/path.log\n\
         ERROR: ld.so: object '.../gameoverlayrenderer.so' from LD_PRELOAD cannot be preloaded (wrong ELF class: ELFCLASS32): ignored.\n\
         pid 1 != 2, skipping destruction (fork without exec?)\n\
         a real error the user actually needs to see\n";
    assert_eq!(
        strip_noise_text(raw),
        "iprolaunch: logging to /some/path.log\na real error the user actually needs to see\n"
    );
}

#[test]
fn prunes_down_to_keep_count_scoped_by_slug() {
    let names: Vec<String> = vec![
        "game-20260100.log".into(),
        "game-20260101.log".into(),
        "other-20260101.log".into(),
        "game-20260102.log".into(),
        "game-20260103.log".into(),
        "game-notes.txt".into(),
    ];
    let times = vec![Some(10), Some(11), Some(1), Some(12), Some(13), Some(0)];
    assert_eq!(prune_victims(&names, &times, "game", 2), vec![0, 1]);
    assert_eq!(prune_victims(&names, &times, "game", 0), vec![0, 1, 3, 4]);
}

#[test]
fn file_stamp_replaces_colons() {
    assert_eq!(file_stamp("2026-01-02T03:04:05+01:00"), "2026-01-02T03-04-05+01-00");
}

#[test]
fn single_mode_uses_the_given_log_dir_as_is() {
    let cfg = Config::default();
    let e = cfg.effective(None);
    assert_eq!(e.log_mode, LogMode::Single);
    assert_eq!(session_dir(&e, "/tmp/custom-logs", "game-1"), Ok("/tmp/custom-logs".to_string()));
}

#[test]
fn each_mode_ignores_log_dir_and_uses_the_profile_folder_instead() {
    let mut cfg = Config::default();
    cfg.logging.mode = LogMode::Each;
    let e = cfg.effective(None);
    let dir = session_dir(&e, "/tmp/custom-logs", "game-1").unwrap();
    assert!(
        dir.ends_with("profiles/game-1/logs"),
        "expected a .../profiles/game-1/logs path, got {dir}"
    );
    assert!(!dir.starts_with("/tmp/custom-logs"));
}

#[test]
fn effective_defaults_are_sane() {
    let cfg = Config::default();
    assert_eq!(cfg.defaults.prefix_mode, PrefixMode::Single);
}

#[test]
fn matching_pids_for_prefix_is_empty_for_an_unused_prefix() {
    assert!(matching_pids_for_prefix("/nonexistent/prefix/for/testing", &[]).is_empty());
    let procs = vec![
        (1u32, "/p".to_string()),
        (2u32, "/p/pfx".to_string()),
        (3u32, "/pother".to_string()),
    ];
    assert_eq!(matching_pids_for_prefix("/p/", &procs), vec![1, 2]);
    assert!(prefix_matches("/p", "/p"));
    assert!(!prefix_matches("/p", "/pq"));
    assert!(is_prefix_active("/p", &["/x".to_string(), "/p/pfx".to_string()]));
    assert!(!is_prefix_active("/p", &[]));
}

#[test]
fn environ_values_are_read_from_a_nul_separated_block() {
    let block = b"A=1\0WINEPREFIX=/pre\0\xff\xfe\0B=2\0";
    assert_eq!(environ_value(block, "WINEPREFIX"), Some("/pre".to_string()));
    assert_eq!(environ_value(block, "C"), None);
    assert_eq!(launch_id_from(12, 345), "12-345");
}

#[test]
fn launch_ids_of_different_launches_differ() {
    assert_eq!(launch_id_from(12, 34), "12-34");
    assert_ne!(launch_id_from(12, 34), launch_id_from(123, 4));
    assert_ne!(launch_id_from(1, 23), launch_id_from(12, 3));
}

#[test]
fn launch_pids_match_only_their_own_launch_id() {
    let procs = vec![
        (10, "111-5".to_string()),
        (11, "222-7".to_string()),
        (12, "111-5".to_string()),
        (13, "111-50".to_string()),
    ];
    assert_eq!(matching_pids_for_launch("111-5", &procs), vec![10, 12]);
    assert!(matching_pids_for_launch("333-1", &procs).is_empty());
}

#[test]
fn new_entry_keeps_what_it_was_given() {
    let e = new_entry(42, "Game#1", "/g/game.exe", "/p", "42-7");
    assert_eq!(e.pid, 42);
    assert_eq!(e.name, "Game#1");
    assert_eq!(e.target_path, "/g/game.exe");
    assert_eq!(e.prefix_path, "/p");
    assert_eq!(e.launch_id, "42-7");
    assert!(!e.started_at.is_empty());
}
