use iprolaunch::config::{
    Config, GamescopeSetting, PrefixMode, Profile, ProfileDefaults, ProfileLogging, RecordMode,
};
use iprolaunch::proton::ProtonBuild;
use iprolaunch::running::{nothing_running_message, RunningEntry};
use iprolaunch::strmap::StrMap;
use iprolaunch::tui::app::{
    move_selection, next_gamescope_setting, next_prefix_mode, next_profile_auto_open,
    next_profile_gamescope_setting, next_profile_record_mode, next_record_mode, App, ConfigField,
    Effect, IntegrateAction, IntegrateField, Key, MapEntryStep, MapField, Mode, ProfileField,
    ProtonPickerTarget, Tab, TextInputPurpose,
};
use iprolaunch::tui::config::{
    adjust_u32, apply_proton_choice, integrate_guard_message, map_editor_key,
    map_entry_input_key, open_proton_picker, total_rows,
};
use iprolaunch::tui::gamepad::{translate, PadButton};
use iprolaunch::tui::library::{
    confirm_add_to_steam_key, confirm_delete_key, edit_filter, edit_selected, filter_key,
    finish_delete, prompt_add_to_steam, prompt_delete_selected, refresh, start_filter,
    DeleteOutcome,
};
use iprolaunch::tui::profile_editor::{
    activate_selected, apply_text_field, confirm_rename_slug_key, finish_prefix_check,
    next_available_name, next_available_slug, per_slug_prefix_dir,
};
use iprolaunch::tui::values::{config_value, profile_value};
use iprolaunch::tui::ui::{
    filter_title, help_text_line_count, library_row_text, text_input_title, marquee, marquee_signature, marquee_title,
    shortened_parent_hint,
};

fn profile(name: &str, target: &str) -> Profile {
    Profile {
        name: name.to_string(),
        target_path: target.to_string(),
        title: None,
        last_launched: None,
        args: Vec::new(),
        defaults: ProfileDefaults::default(),
        logging: ProfileLogging::default(),
        env: StrMap::new(),
        winedlloverride: StrMap::new(),
    }
}

fn test_app() -> App {
    App::new(Config::default())
}

// ---------------------------------------------------------------------------
// App
// ---------------------------------------------------------------------------

#[test]
fn marquee_tick_is_zero_immediately_after_a_reset() {
    let mut app = test_app();
    app.sync_marquee("first".to_string(), 10_000);
    assert_eq!(app.marquee_tick(10_000), 0);
}

#[test]
fn resyncing_with_the_same_signature_does_not_reset_the_timer() {
    let mut app = test_app();
    app.sync_marquee("same".to_string(), 10_000);
    let reset_at_first = app.marquee_reset_ms;
    app.sync_marquee("same".to_string(), 15_000);
    assert_eq!(app.marquee_reset_ms, reset_at_first);
}

#[test]
fn resyncing_with_a_different_signature_does_reset_the_timer() {
    let mut app = test_app();
    app.sync_marquee("one".to_string(), 10_000);
    let reset_at_first = app.marquee_reset_ms;
    app.sync_marquee("two".to_string(), 10_005);
    assert!(app.marquee_reset_ms > reset_at_first);
}

#[test]
fn marquee_tick_waits_two_seconds_then_advances_every_200ms() {
    let mut app = test_app();
    app.sync_marquee("x".to_string(), 1_000);
    assert_eq!(app.marquee_tick(2_999), 0);
    assert_eq!(app.marquee_tick(3_000), 0);
    assert_eq!(app.marquee_tick(3_199), 0);
    assert_eq!(app.marquee_tick(3_200), 1);
    assert_eq!(app.marquee_tick(4_000), 5);
    assert_eq!(app.marquee_tick(500), 0);
}

#[test]
fn tab_cycling_wraps_both_ways() {
    assert_eq!(Tab::Running.next(), Tab::Library);
    assert_eq!(Tab::Help.next(), Tab::Running);
    assert_eq!(Tab::Running.prev(), Tab::Help);
}

#[test]
fn tab_next_then_prev_returns_to_each_tab_and_four_steps_cycle() {
    for tab in Tab::ALL {
        assert_eq!(tab.next().prev(), tab);
        assert_eq!(tab.prev().next(), tab);
        assert_eq!(tab.next().next().next().next(), tab);
    }
    assert_eq!(Tab::Config.title(), "Config");
}

#[test]
fn enum_cycles_cover_every_variant_and_return_to_start() {
    let mut m = PrefixMode::Single;
    m = next_prefix_mode(m);
    assert_eq!(m, PrefixMode::PerSlug);
    m = next_prefix_mode(m);
    assert_eq!(m, PrefixMode::Single);

    let mut r = RecordMode::All;
    r = next_record_mode(r);
    assert_eq!(r, RecordMode::Errors);
    r = next_record_mode(r);
    assert_eq!(r, RecordMode::Off);
    r = next_record_mode(r);
    assert_eq!(r, RecordMode::All);

    let mut g = GamescopeSetting::Off;
    g = next_gamescope_setting(g);
    assert_eq!(g, GamescopeSetting::Fullscreen);
    g = next_gamescope_setting(g);
    assert_eq!(g, GamescopeSetting::Maximize);
    g = next_gamescope_setting(g);
    assert_eq!(g, GamescopeSetting::Off);
}

#[test]
fn profile_gamescope_setting_cycle_includes_inherit_and_returns_to_it() {
    let mut g = None;
    g = next_profile_gamescope_setting(g);
    assert_eq!(g, Some(GamescopeSetting::Off));
    g = next_profile_gamescope_setting(g);
    assert_eq!(g, Some(GamescopeSetting::Fullscreen));
    g = next_profile_gamescope_setting(g);
    assert_eq!(g, Some(GamescopeSetting::Maximize));
    g = next_profile_gamescope_setting(g);
    assert_eq!(g, None);
}

#[test]
fn profile_record_mode_cycle_includes_inherit_and_returns_to_it() {
    let mut r = None;
    r = next_profile_record_mode(r);
    assert_eq!(r, Some(RecordMode::All));
    r = next_profile_record_mode(r);
    assert_eq!(r, Some(RecordMode::Errors));
    r = next_profile_record_mode(r);
    assert_eq!(r, Some(RecordMode::Off));
    r = next_profile_record_mode(r);
    assert_eq!(r, None);
}

#[test]
fn profile_auto_open_cycle_includes_inherit_and_returns_to_it() {
    let mut v = None;
    v = next_profile_auto_open(v);
    assert_eq!(v, Some(true));
    v = next_profile_auto_open(v);
    assert_eq!(v, Some(false));
    v = next_profile_auto_open(v);
    assert_eq!(v, None);
}

#[test]
fn move_selection_clamps_at_both_ends() {
    assert_eq!(move_selection(0, 3, -1), 0);
    assert_eq!(move_selection(2, 3, 1), 2);
    assert_eq!(move_selection(1, 3, 1), 2);
    assert_eq!(move_selection(1, 3, -1), 0);
}

#[test]
fn move_selection_on_empty_list_is_always_zero() {
    assert_eq!(move_selection(5, 0, 1), 0);
    assert_eq!(move_selection(5, 0, -1), 0);
}

#[test]
fn move_selection_clamps_an_out_of_range_start_first() {
    assert_eq!(move_selection(10, 3, 1), 2);
    assert_eq!(move_selection(10, 3, -1), 1);
}

#[test]
fn move_selection_handles_extreme_deltas() {
    assert_eq!(move_selection(4, 10, isize::MAX), 9);
    assert_eq!(move_selection(4, 10, isize::MIN), 0);
}

#[test]
fn refresh_profiles_sorts_by_lowercase_name_keeping_equal_names_in_order() {
    let mut app = test_app();
    app.library_selected = 7;
    app.refresh_profiles(Ok(vec![
        ("b".to_string(), profile("beta", "/b.exe")),
        ("a2".to_string(), profile("Alpha", "/a2.exe")),
        ("a1".to_string(), profile("alpha", "/a1.exe")),
    ]));
    let slugs: Vec<&str> = app.profiles.iter().map(|(s, _)| s.as_str()).collect();
    assert_eq!(slugs, vec!["a2", "a1", "b"]);
    assert_eq!(app.library_selected, 2);
}

#[test]
fn refresh_errors_are_reported_and_keep_the_old_lists() {
    let mut app = test_app();
    app.refresh_profiles(Err("boom".to_string()));
    assert_eq!(app.status.as_deref(), Some("couldn't list library: boom"));
    app.refresh_running(Err("nope".to_string()));
    assert_eq!(app.status.as_deref(), Some("couldn't list running games: nope"));
}

#[test]
fn map_field_labels_name_the_profile_they_belong_to() {
    assert_eq!(MapField::Env.label(), "env");
    assert_eq!(
        MapField::ProfileWineDllOverride("game".to_string()).label(),
        "game's winedlloverride override"
    );
}

// ---------------------------------------------------------------------------
// Config tab
// ---------------------------------------------------------------------------

#[test]
fn adjust_u32_saturates_instead_of_underflowing() {
    assert_eq!(adjust_u32(0, -1), 0);
    assert_eq!(adjust_u32(3, -1), 2);
    assert_eq!(adjust_u32(3, 1), 4);
    assert_eq!(adjust_u32(u32::MAX, 1), u32::MAX);
}

#[test]
fn total_rows_spans_both_config_and_integrate_tables() {
    assert_eq!(total_rows(), ConfigField::ALL.len() + IntegrateField::ALL.len());
}

#[test]
fn integrate_guard_blocks_setup_when_already_installed() {
    assert!(integrate_guard_message(IntegrateAction::Setup, true).is_some());
    assert!(integrate_guard_message(IntegrateAction::Setup, false).is_none());
}

#[test]
fn integrate_guard_blocks_reapply_and_uninstall_when_not_installed() {
    assert!(integrate_guard_message(IntegrateAction::Reapply, false).is_some());
    assert!(integrate_guard_message(IntegrateAction::Uninstall, false).is_some());
    assert!(integrate_guard_message(IntegrateAction::Reapply, true).is_none());
    assert!(integrate_guard_message(IntegrateAction::Uninstall, true).is_none());
}

#[test]
fn map_editor_navigation_wraps_within_entry_count() {
    let mut app = test_app();
    app.cfg.env.insert("A".into(), "1".into());
    app.cfg.env.insert("B".into(), "2".into());
    app.mode = Mode::MapEditor { field: MapField::Env, selected: 0 };

    map_editor_key(&mut app, Key::Down);
    assert!(matches!(app.mode, Mode::MapEditor { selected: 1, .. }));
    map_editor_key(&mut app, Key::Down);
    assert!(matches!(app.mode, Mode::MapEditor { selected: 1, .. }));
    map_editor_key(&mut app, Key::Up);
    assert!(matches!(app.mode, Mode::MapEditor { selected: 0, .. }));
}

#[test]
fn map_editor_esc_returns_to_normal() {
    let mut app = test_app();
    app.mode = Mode::MapEditor { field: MapField::Env, selected: 0 };
    map_editor_key(&mut app, Key::Esc);
    assert!(matches!(app.mode, Mode::Normal));
}

#[test]
fn add_opens_entry_input_with_empty_buffers() {
    let mut app = test_app();
    app.mode = Mode::MapEditor { field: MapField::WineDllOverride, selected: 0 };
    map_editor_key(&mut app, Key::Char('a'));

    match &app.mode {
        Mode::MapEntryInput { field, original_key, step, key, value } => {
            assert_eq!(*field, MapField::WineDllOverride);
            assert_eq!(*original_key, None);
            assert_eq!(*step, MapEntryStep::Key);
            assert_eq!(key, "");
            assert_eq!(value, "");
        }
        _ => panic!("expected MapEntryInput"),
    }
}

#[test]
fn edit_opens_entry_input_prefilled_with_the_selected_entry() {
    let mut app = test_app();
    app.cfg.winedlloverride.insert("winhttp".into(), "n,b".into());
    app.mode = Mode::MapEditor { field: MapField::WineDllOverride, selected: 0 };
    map_editor_key(&mut app, Key::Char('e'));

    match &app.mode {
        Mode::MapEntryInput { original_key, key, value, .. } => {
            assert_eq!(original_key.as_deref(), Some("winhttp"));
            assert_eq!(key, "winhttp");
            assert_eq!(value, "n,b");
        }
        _ => panic!("expected MapEntryInput"),
    }
}

#[test]
fn typing_and_backspace_edit_the_active_steps_buffer() {
    let mut app = test_app();
    app.mode = Mode::MapEntryInput {
        field: MapField::Env,
        original_key: None,
        step: MapEntryStep::Key,
        key: String::new(),
        value: String::new(),
    };
    for c in "FOO".chars() {
        map_entry_input_key(&mut app, Key::Char(c));
    }
    map_entry_input_key(&mut app, Key::Backspace);

    let Mode::MapEntryInput { key, .. } = &app.mode else {
        panic!("expected MapEntryInput")
    };
    assert_eq!(key, "FO");
}

#[test]
fn enter_on_key_step_advances_to_value_step_keeping_the_key() {
    let mut app = test_app();
    app.mode = Mode::MapEntryInput {
        field: MapField::Env,
        original_key: None,
        step: MapEntryStep::Key,
        key: "FOO".to_string(),
        value: String::new(),
    };
    map_entry_input_key(&mut app, Key::Enter);

    match &app.mode {
        Mode::MapEntryInput { step, key, .. } => {
            assert_eq!(*step, MapEntryStep::Value);
            assert_eq!(key, "FOO");
        }
        _ => panic!("expected MapEntryInput still, on the Value step"),
    }
}

#[test]
fn esc_during_entry_input_cancels_back_to_the_map_editor() {
    let mut app = test_app();
    app.mode = Mode::MapEntryInput {
        field: MapField::Env,
        original_key: None,
        step: MapEntryStep::Value,
        key: "FOO".to_string(),
        value: "bar".to_string(),
    };
    map_entry_input_key(&mut app, Key::Esc);

    assert!(matches!(app.mode, Mode::MapEditor { field: MapField::Env, .. }));
    assert!(app.cfg.env.is_empty());
}

#[test]
fn committing_an_edited_entry_under_a_new_key_replaces_the_old_key_and_asks_to_save() {
    let mut app = test_app();
    app.cfg.env.insert("OLD".into(), "1".into());
    app.mode = Mode::MapEntryInput {
        field: MapField::Env,
        original_key: Some("OLD".to_string()),
        step: MapEntryStep::Value,
        key: "  NEW ".to_string(),
        value: "2".to_string(),
    };
    let e = map_entry_input_key(&mut app, Key::Enter);
    assert!(matches!(e, Effect::SaveConfig));
    assert_eq!(app.cfg.env.get("OLD"), None);
    assert_eq!(app.cfg.env.get("NEW").as_deref(), Some("2"));
    assert!(matches!(app.mode, Mode::MapEditor { field: MapField::Env, selected: 0 }));
}

#[test]
fn deleting_a_profile_map_entry_asks_to_save_that_profile() {
    let mut app = test_app();
    let mut p = profile("Game#1", "/g.exe");
    p.env.insert("K".into(), "v".into());
    app.profiles = vec![("game".to_string(), p)];
    app.mode = Mode::MapEditor { field: MapField::ProfileEnv("game".to_string()), selected: 0 };
    let e = map_editor_key(&mut app, Key::Char('d'));
    assert!(matches!(e, Effect::SaveProfile(ref s) if s == "game"));
    assert!(app.profiles[0].1.env.is_empty());
    assert!(matches!(app.mode, Mode::MapEditor { selected: 0, .. }));
}

#[test]
fn a_non_numeric_gamescope_width_is_refused_with_a_message() {
    let mut app = test_app();
    let e = iprolaunch::tui::config::apply_text_field(
        &mut app,
        ConfigField::GamescopeOutputWidth,
        "wide".to_string(),
    );
    assert!(matches!(e, Effect::Nothing));
    assert_eq!(
        app.status.as_deref(),
        Some("\"wide\" isn't a whole number — defaults.gamescope_settings.output_width (-W) left unchanged.")
    );
    let e = iprolaunch::tui::config::apply_text_field(
        &mut app,
        ConfigField::GamescopeOutputWidth,
        " 1920 ".to_string(),
    );
    assert!(matches!(e, Effect::SaveConfig));
    assert_eq!(app.cfg.defaults.gamescope_settings.output_width, Some(1920));
}

#[test]
fn proton_picker_opens_on_the_current_build_and_applies_a_choice() {
    let mut app = test_app();
    app.cfg.defaults.proton = "GE-Proton10-34".to_string();
    let builds = vec![
        ProtonBuild { id: "Proton 9".to_string(), display_name: "Proton 9".to_string() },
        ProtonBuild { id: "GE-Proton10-34".to_string(), display_name: "GE-Proton10-34".to_string() },
    ];
    open_proton_picker(&mut app, ProtonPickerTarget::Global, Ok(builds.clone()));
    assert!(matches!(app.mode, Mode::ProtonPicker { selected: 2, .. }));
    let e = apply_proton_choice(&mut app, &builds, 0, &ProtonPickerTarget::Global);
    assert!(matches!(e, Effect::SaveConfig));
    assert_eq!(app.cfg.defaults.proton, "system");
    apply_proton_choice(&mut app, &builds, 1, &ProtonPickerTarget::Global);
    assert_eq!(app.cfg.defaults.proton, "Proton 9");
}

#[test]
fn profile_proton_choice_rows_are_inherit_system_then_builds() {
    let mut app = test_app();
    app.profiles = vec![("g".to_string(), profile("G#1", "/g.exe"))];
    let builds = vec![ProtonBuild { id: "P".to_string(), display_name: "P".to_string() }];
    let target = ProtonPickerTarget::Profile("g".to_string());
    apply_proton_choice(&mut app, &builds, 2, &target);
    assert_eq!(app.profiles[0].1.defaults.proton.as_deref(), Some("P"));
    apply_proton_choice(&mut app, &builds, 1, &target);
    assert_eq!(app.profiles[0].1.defaults.proton.as_deref(), Some("system"));
    let e = apply_proton_choice(&mut app, &builds, 0, &target);
    assert_eq!(app.profiles[0].1.defaults.proton, None);
    assert!(matches!(e, Effect::SaveProfile(ref s) if s == "g"));
}

#[test]
fn a_failed_proton_scan_is_reported() {
    let mut app = test_app();
    open_proton_picker(&mut app, ProtonPickerTarget::Global, Err("no steam".to_string()));
    assert_eq!(app.status.as_deref(), Some("proton scan failed: no steam"));
    assert!(matches!(app.mode, Mode::Normal));
}

// ---------------------------------------------------------------------------
// Gamepad
// ---------------------------------------------------------------------------

#[test]
fn dpad_maps_to_arrow_keys() {
    assert_eq!(translate(PadButton::DPadUp), Some(Key::Up));
    assert_eq!(translate(PadButton::DPadDown), Some(Key::Down));
    assert_eq!(translate(PadButton::DPadLeft), Some(Key::Left));
    assert_eq!(translate(PadButton::DPadRight), Some(Key::Right));
}

#[test]
fn face_buttons_map_to_confirm_cancel_and_context_actions() {
    assert_eq!(translate(PadButton::South), Some(Key::Enter));
    assert_eq!(translate(PadButton::East), Some(Key::Esc));
    assert_eq!(translate(PadButton::West), Some(Key::Delete));
    assert_eq!(translate(PadButton::North), Some(Key::Char('?')));
}

#[test]
fn right_trigger_2_confirms_a_destructive_prompt_distinctly_from_south() {
    assert_eq!(translate(PadButton::RightTrigger2), Some(Key::Char('y')));
    assert_ne!(translate(PadButton::RightTrigger2), translate(PadButton::South));
}

#[test]
fn unmapped_buttons_return_none() {
    assert_eq!(translate(PadButton::C), None);
    assert_eq!(translate(PadButton::Z), None);
    assert_eq!(translate(PadButton::Unknown), None);
}

// ---------------------------------------------------------------------------
// Library tab
// ---------------------------------------------------------------------------

fn test_app_with_profile(slug: &str, name: &str) -> App {
    let mut app = test_app();
    app.profiles = vec![(slug.to_string(), profile(name, &format!("/tmp/{slug}.exe")))];
    app.library_selected = 0;
    app
}

#[test]
fn e_opens_the_profile_editor_for_the_selected_slug() {
    let mut app = test_app_with_profile("game-1", "Game#1");
    edit_selected(&mut app);
    assert_eq!(app.profile_editor.as_deref(), Some("game-1"));
    assert_eq!(app.profile_field_selected, 0);
}

#[test]
fn s_opens_the_confirm_popup_for_a_profile_not_yet_in_steam() {
    let mut app = test_app_with_profile("game-1", "Game#1");
    app.steam_slugs.clear();
    prompt_add_to_steam(&mut app);
    match &app.mode {
        Mode::ConfirmAddToSteam { slug, name, selected } => {
            assert_eq!(slug, "game-1");
            assert_eq!(name, "Game#1");
            assert_eq!(*selected, 0);
        }
        _ => panic!("expected ConfirmAddToSteam"),
    }
}

#[test]
fn s_just_reports_already_added_without_opening_a_popup() {
    let mut app = test_app_with_profile("game-1", "Game#1");
    app.steam_slugs.push("game-1".to_string());
    prompt_add_to_steam(&mut app);
    assert!(matches!(app.mode, Mode::Normal));
    assert!(app.status.as_deref().unwrap().contains("already looks added"));
}

#[test]
fn confirm_add_to_steam_up_down_wrap_within_the_three_options() {
    let mut app = test_app_with_profile("game-1", "Game#1");
    app.mode = Mode::ConfirmAddToSteam {
        slug: "game-1".to_string(),
        name: "Game#1".to_string(),
        selected: 0,
    };
    confirm_add_to_steam_key(&mut app, Key::Up);
    assert!(matches!(app.mode, Mode::ConfirmAddToSteam { selected: 0, .. }));
    confirm_add_to_steam_key(&mut app, Key::Down);
    confirm_add_to_steam_key(&mut app, Key::Down);
    assert!(matches!(app.mode, Mode::ConfirmAddToSteam { selected: 2, .. }));
    confirm_add_to_steam_key(&mut app, Key::Down);
    assert!(matches!(app.mode, Mode::ConfirmAddToSteam { selected: 2, .. }));
}

#[test]
fn confirm_add_to_steam_esc_cancels_without_touching_anything() {
    let mut app = test_app_with_profile("game-1", "Game#1");
    app.mode = Mode::ConfirmAddToSteam {
        slug: "game-1".to_string(),
        name: "Game#1".to_string(),
        selected: 1,
    };
    confirm_add_to_steam_key(&mut app, Key::Esc);
    assert!(matches!(app.mode, Mode::Normal));
}

#[test]
fn confirm_add_to_steam_enter_on_cancel_returns_to_normal_without_side_effects() {
    let mut app = test_app_with_profile("game-1", "Game#1");
    app.mode = Mode::ConfirmAddToSteam {
        slug: "game-1".to_string(),
        name: "Game#1".to_string(),
        selected: 2,
    };
    let e = confirm_add_to_steam_key(&mut app, Key::Enter);
    assert!(matches!(app.mode, Mode::Normal));
    assert_eq!(app.status, None);
    assert!(matches!(e, Effect::Nothing));
}

#[test]
fn confirm_add_to_steam_enter_on_the_second_row_asks_for_the_gamescope_flags() {
    let mut app = test_app_with_profile("game-1", "Game#1");
    app.mode = Mode::ConfirmAddToSteam {
        slug: "game-1".to_string(),
        name: "Game#1".to_string(),
        selected: 1,
    };
    let e = confirm_add_to_steam_key(&mut app, Key::Enter);
    assert!(matches!(
        e,
        Effect::AddToSteam { ref slug, with_gamescope_flags: true, .. } if slug == "game-1"
    ));
}

#[test]
fn d_opens_a_confirm_prompt_naming_the_selected_profile() {
    let mut app = test_app_with_profile("game-1", "Game#1");
    prompt_delete_selected(&mut app);
    match &app.mode {
        Mode::ConfirmDeleteProfile { slug, name } => {
            assert_eq!(slug, "game-1");
            assert_eq!(name, "Game#1");
        }
        _ => panic!("expected ConfirmDeleteProfile"),
    }
}

#[test]
fn confirm_delete_cancels_on_anything_but_y_without_touching_disk() {
    let mut app = test_app_with_profile("game-1", "Game#1");
    app.mode = Mode::ConfirmDeleteProfile {
        slug: "game-1".to_string(),
        name: "Game#1".to_string(),
    };
    let e = confirm_delete_key(&mut app, Key::Esc);
    assert!(matches!(app.mode, Mode::Normal));
    assert!(matches!(e, Effect::Nothing));
    assert_eq!(app.profiles.len(), 1);
}

#[test]
fn confirm_delete_y_asks_to_delete_and_a_finished_delete_closes_its_editor() {
    let mut app = test_app_with_profile("game-1", "Game#1");
    app.profile_editor = Some("game-1".to_string());
    app.mode = Mode::ConfirmDeleteProfile {
        slug: "game-1".to_string(),
        name: "Game#1".to_string(),
    };
    let e = confirm_delete_key(&mut app, Key::Char('y'));
    assert!(matches!(e, Effect::DeleteProfile { ref slug, .. } if slug == "game-1"));
    finish_delete(&mut app, "game-1", "Game#1", DeleteOutcome::Deleted, Ok(Vec::new()));
    assert_eq!(app.status.as_deref(), Some("Deleted \"Game#1\"."));
    assert_eq!(app.profile_editor, None);
    assert!(app.profiles.is_empty());
}

#[test]
fn r_refreshes_without_crashing() {
    let mut app = test_app_with_profile("game-1", "Game#1");
    let reloaded = app.profiles.clone();
    refresh(&mut app, Ok(reloaded));
    assert_eq!(app.status.as_deref(), Some("Refreshed."));
}

fn test_app_with_two_profiles() -> App {
    let mut app = test_app();
    app.profiles = vec![
        ("eldenring".to_string(), profile("eldenring#1", "/tmp/eldenring.exe")),
        ("ktsysview".to_string(), profile("ktsysview#1", "/tmp/ktsysview.exe")),
    ];
    app
}

#[test]
fn library_f_starts_an_empty_filter_and_resets_selection() {
    let mut app = test_app_with_two_profiles();
    app.library_selected = 1;
    start_filter(&mut app);
    assert_eq!(app.library_filter.as_deref(), Some(""));
    assert_eq!(app.library_selected, 0);
}

#[test]
fn library_typing_narrows_the_filtered_list_case_insensitively() {
    let mut app = test_app_with_two_profiles();
    start_filter(&mut app);
    for c in "KT".chars() {
        edit_filter(&mut app, Key::Char(c));
    }
    assert_eq!(app.library_filter.as_deref(), Some("KT"));
    let indices = app.filtered_profile_indices();
    assert_eq!(indices, vec![1]);
}

#[test]
fn library_backspace_removes_the_last_filter_character() {
    let mut app = test_app_with_two_profiles();
    start_filter(&mut app);
    edit_filter(&mut app, Key::Char('x'));
    edit_filter(&mut app, Key::Char('y'));
    edit_filter(&mut app, Key::Backspace);
    assert_eq!(app.library_filter.as_deref(), Some("x"));
}

#[test]
fn library_esc_clears_the_filter_entirely() {
    let mut app = test_app_with_two_profiles();
    start_filter(&mut app);
    edit_filter(&mut app, Key::Char('k'));
    edit_filter(&mut app, Key::Esc);
    assert_eq!(app.library_filter, None);
    assert_eq!(app.library_selected, 0);
    assert!(!app.library_filter_editing);
}

#[test]
fn library_up_down_navigate_within_the_filtered_subset_only() {
    let mut app = test_app_with_two_profiles();
    app.library_filter = Some("elden".to_string());
    edit_filter(&mut app, Key::Down);
    assert_eq!(app.library_selected, 0, "only one match — nowhere to go");
}

#[test]
fn enter_locks_the_filter_instead_of_launching() {
    let mut app = test_app_with_two_profiles();
    start_filter(&mut app);
    for c in "kt".chars() {
        edit_filter(&mut app, Key::Char(c));
    }
    filter_key(&mut app, Key::Enter);
    assert!(!app.library_filter_editing);
    assert_eq!(app.library_filter.as_deref(), Some("kt"));
    assert!(!edit_filter(&mut app, Key::Enter));
}

#[test]
fn once_locked_r_still_means_refresh_not_edit_the_filter() {
    let mut app = test_app_with_two_profiles();
    start_filter(&mut app);
    filter_key(&mut app, Key::Enter);
    assert!(!app.library_filter_editing);
    let reloaded = app.profiles.clone();
    refresh(&mut app, Ok(reloaded));
    assert_eq!(app.status.as_deref(), Some("Refreshed."));
    assert!(app.library_filter.is_some());
}

#[test]
fn clear_library_filter_resets_both_the_text_and_the_editing_flag() {
    let mut app = test_app_with_two_profiles();
    start_filter(&mut app);
    edit_filter(&mut app, Key::Char('x'));
    filter_key(&mut app, Key::Enter);
    assert!(app.library_filter.is_some());
    app.clear_library_filter();
    assert_eq!(app.library_filter, None);
    assert!(!app.library_filter_editing);
}

#[test]
fn library_enter_asks_to_launch_the_selected_game_by_name() {
    let mut app = test_app_with_two_profiles();
    app.library_selected = 1;
    let e = iprolaunch::tui::library::on_key(&mut app, Key::Enter);
    assert!(matches!(
        e,
        Effect::Launch { ref target, ref label } if target == "/tmp/ktsysview.exe" && label == "ktsysview#1"
    ));
}

// ---------------------------------------------------------------------------
// Profile editor
// ---------------------------------------------------------------------------

fn test_app_with_titled_profile(slug: &str) -> App {
    let mut app = test_app();
    let mut p = profile("Game#1", &format!("/tmp/{slug}.exe"));
    p.title = Some("Real Title".to_string());
    p.args = vec!["--dx11".to_string()];
    app.profiles = vec![(slug.to_string(), p)];
    app
}

#[test]
fn up_down_wrap_within_field_count() {
    let mut app = test_app_with_titled_profile("game-1");
    app.profile_field_selected = 0;
    iprolaunch::tui::profile_editor::on_key(&mut app, Key::Up);
    assert_eq!(app.profile_field_selected, 0);
    for _ in 0..ProfileField::ALL.len() + 2 {
        iprolaunch::tui::profile_editor::on_key(&mut app, Key::Down);
    }
    assert_eq!(app.profile_field_selected, ProfileField::ALL.len() - 1);
}

#[test]
fn esc_leaves_the_editor() {
    let mut app = test_app_with_titled_profile("game-1");
    app.profile_editor = Some("game-1".to_string());
    iprolaunch::tui::profile_editor::on_key(&mut app, Key::Esc);
    assert_eq!(app.profile_editor, None);
}

#[test]
fn enter_on_a_text_field_opens_prefilled_text_input() {
    let mut app = test_app_with_titled_profile("game-1");
    app.profile_field_selected = ProfileField::ALL.iter().position(|f| *f == ProfileField::Title).unwrap();
    activate_selected(&mut app, "game-1".to_string());

    match &app.mode {
        Mode::TextInput { purpose, buffer, cursor } => {
            assert!(matches!(
                purpose,
                TextInputPurpose::ProfileField(slug, ProfileField::Title) if slug == "game-1"
            ));
            assert_eq!(buffer, "Real Title");
            assert_eq!(*cursor, buffer.chars().count(), "cursor starts at the end");
        }
        _ => panic!("expected TextInput"),
    }
}

#[test]
fn enter_on_the_args_field_shows_them_space_joined_and_name_without_its_number() {
    let mut app = test_app_with_titled_profile("game-1");
    app.profiles[0].1.args.push("-windowed".to_string());
    app.profile_field_selected = ProfileField::ALL.iter().position(|f| *f == ProfileField::Args).unwrap();
    activate_selected(&mut app, "game-1".to_string());
    assert!(matches!(app.mode, Mode::TextInput { ref buffer, .. } if buffer == "--dx11 -windowed"));
    app.mode = Mode::Normal;
    app.profile_field_selected = ProfileField::ALL.iter().position(|f| *f == ProfileField::Name).unwrap();
    activate_selected(&mut app, "game-1".to_string());
    assert!(matches!(app.mode, Mode::TextInput { ref buffer, .. } if buffer == "Game"));
}

#[test]
fn enter_on_the_env_field_opens_the_profile_scoped_map_editor() {
    let mut app = test_app_with_titled_profile("game-1");
    app.profile_field_selected = ProfileField::ALL.iter().position(|f| *f == ProfileField::EnvTable).unwrap();
    activate_selected(&mut app, "game-1".to_string());

    assert!(matches!(
        app.mode,
        Mode::MapEditor { field: MapField::ProfileEnv(ref slug), selected: 0 } if slug == "game-1"
    ));
}

#[test]
fn apply_text_field_rejects_a_non_numeric_log_keep_without_touching_the_profile() {
    let mut app = test_app_with_titled_profile("game-1");
    apply_text_field(&mut app, "game-1", ProfileField::LogKeep, "not-a-number".to_string(), None);
    assert!(app.status.as_deref().unwrap().contains("isn't a whole number"));
    assert_eq!(app.profile("game-1").unwrap().logging.keep, None);
}

#[test]
fn apply_text_field_sets_overrides_and_blank_clears_them() {
    let mut app = test_app_with_titled_profile("game-1");
    let e = apply_text_field(&mut app, "game-1", ProfileField::LogKeep, " 5 ".to_string(), None);
    assert!(matches!(e, Effect::SaveProfile(ref s) if s == "game-1"));
    assert_eq!(app.profiles[0].1.logging.keep, Some(5));
    apply_text_field(&mut app, "game-1", ProfileField::Title, "   ".to_string(), None);
    assert_eq!(app.profiles[0].1.title, None);
    apply_text_field(&mut app, "game-1", ProfileField::Args, " -a  -b ".to_string(), None);
    assert_eq!(app.profiles[0].1.args, vec!["-a".to_string(), "-b".to_string()]);
}

#[test]
fn apply_text_field_gives_a_renamed_profile_the_lowest_free_number() {
    let mut app = test_app_with_titled_profile("game-1");
    app.profiles.push(("other".to_string(), profile("Doom#1", "/doom.exe")));
    apply_text_field(&mut app, "game-1", ProfileField::Name, "Doom".to_string(), None);
    assert_eq!(app.profiles[0].1.name, "Doom#2");
}

#[test]
fn apply_text_field_checks_a_new_target_path_on_disk_first() {
    let mut app = test_app_with_titled_profile("game-1");
    let e = apply_text_field(&mut app, "game-1", ProfileField::TargetPath, " /x/y.exe ".to_string(), None);
    assert!(matches!(e, Effect::CheckTargetPath { ref path, .. } if path == "/x/y.exe"));
    let e = apply_text_field(&mut app, "game-1", ProfileField::TargetPath, "  ".to_string(), None);
    assert!(matches!(e, Effect::Nothing));
    assert_eq!(app.status.as_deref(), Some("target-path can't be blank — left unchanged."));
    let e = iprolaunch::tui::profile_editor::finish_target_path(&mut app, "game-1", "/x/y.exe".to_string(), false);
    assert!(matches!(e, Effect::Nothing));
    assert_eq!(
        app.status.as_deref(),
        Some("\"/x/y.exe\" doesn't exist — target-path left unchanged.")
    );
    iprolaunch::tui::profile_editor::finish_target_path(&mut app, "game-1", "/x/y.exe".to_string(), true);
    assert_eq!(app.profiles[0].1.target_path, "/x/y.exe");
}

#[test]
fn next_available_name_starts_at_1_when_nothing_collides() {
    let profiles = vec![("a".to_string(), profile("other#1", "/tmp/game.exe"))];
    assert_eq!(next_available_name("game", &profiles, "a"), "game#1");
}

#[test]
fn next_available_name_fills_the_lowest_free_slot_not_just_the_max() {
    let profiles = vec![("a".to_string(), profile("game#2", "/tmp/game.exe"))];
    assert_eq!(next_available_name("game", &profiles, "b"), "game#1");
}

#[test]
fn next_available_name_excludes_the_profile_being_renamed() {
    let profiles = vec![("a".to_string(), profile("game#1", "/tmp/game.exe"))];
    assert_eq!(next_available_name("game", &profiles, "a"), "game#1");
}

#[test]
fn next_available_slug_starts_bare_then_grows_with_a_hyphen() {
    let profiles = vec![("game".to_string(), profile("game#1", "/tmp/game.exe"))];
    assert_eq!(next_available_slug("game", &profiles, "other"), "game-2");
    assert_eq!(next_available_slug("newname", &profiles, "other"), "newname");
}

#[test]
fn next_available_slug_excludes_the_profile_being_renamed() {
    let profiles = vec![("game".to_string(), profile("game#1", "/tmp/game.exe"))];
    assert_eq!(next_available_slug("game", &profiles, "game"), "game");
}

#[test]
fn per_slug_prefix_dir_is_none_in_single_mode() {
    let mut app = test_app_with_titled_profile("game-1");
    app.cfg.defaults.prefix_mode = PrefixMode::Single;
    assert_eq!(per_slug_prefix_dir(&app, "game-1", None), None);
}

#[test]
fn per_slug_prefix_dir_joins_prefixes_root_and_slug() {
    let mut app = test_app_with_titled_profile("game-1");
    app.cfg.defaults.prefix_mode = PrefixMode::PerSlug;
    app.cfg.defaults.prefixes_root = "/tmp/prefixes".to_string();
    assert_eq!(
        per_slug_prefix_dir(&app, "game-1", None),
        Some("/tmp/prefixes/game-1".to_string())
    );
}

#[test]
fn rename_slug_routes_to_confirmation_when_a_real_prefix_dir_exists_in_per_slug_mode() {
    let mut app = test_app_with_titled_profile("game-1");
    app.cfg.defaults.prefix_mode = PrefixMode::PerSlug;
    app.cfg.defaults.prefixes_root = "/tmp/prefixes".to_string();

    let e = apply_text_field(&mut app, "game-1", ProfileField::Slug, "renamed".to_string(), None);
    let Effect::RenameSlug { slug, candidate, prefix_dirs: Some((old_dir, new_dir)) } = e else {
        panic!("expected a rename with prefix dirs to check")
    };
    assert_eq!(old_dir, "/tmp/prefixes/game-1");
    assert_eq!(new_dir, "/tmp/prefixes/renamed");
    finish_prefix_check(&mut app, slug, candidate, old_dir, new_dir, true);

    match &app.mode {
        Mode::ConfirmRenameSlug { slug, candidate, old_prefix_dir, new_prefix_dir } => {
            assert_eq!(slug, "game-1");
            assert_eq!(candidate, "renamed");
            assert_eq!(old_prefix_dir, "/tmp/prefixes/game-1");
            assert_eq!(new_prefix_dir, "/tmp/prefixes/renamed");
        }
        _ => panic!("expected ConfirmRenameSlug, got a different mode"),
    }
}

#[test]
fn confirm_rename_slug_cancels_on_anything_but_y_without_touching_disk() {
    let mut app = test_app_with_titled_profile("game-1");
    app.mode = Mode::ConfirmRenameSlug {
        slug: "game-1".to_string(),
        candidate: "renamed".to_string(),
        old_prefix_dir: "/tmp/prefixes/game-1".to_string(),
        new_prefix_dir: "/tmp/prefixes/renamed".to_string(),
    };
    let e = confirm_rename_slug_key(&mut app, Key::Esc);
    assert!(matches!(app.mode, Mode::Normal));
    assert!(matches!(e, Effect::Nothing));
    assert_eq!(app.status.as_deref(), Some("Rename cancelled."));
}

#[test]
fn a_slug_that_sanitizes_to_nothing_is_refused() {
    let mut app = test_app_with_titled_profile("game-1");
    let e = apply_text_field(&mut app, "game-1", ProfileField::Slug, "!!!".to_string(), None);
    assert!(matches!(e, Effect::Nothing));
    assert_eq!(app.status.as_deref(), Some("slug can't be blank — left unchanged."));
}

#[test]
fn a_finished_slug_rename_renames_the_profile_and_its_open_editor() {
    let mut app = test_app_with_titled_profile("game-1");
    app.profile_editor = Some("game-1".to_string());
    let ok = iprolaunch::tui::profile_editor::finish_slug_rename(
        &mut app,
        "game-1",
        "renamed",
        iprolaunch::tui::profile_editor::RenameOutcome::Renamed,
    );
    assert!(ok);
    assert_eq!(app.profiles[0].0, "renamed");
    assert_eq!(app.profile_editor.as_deref(), Some("renamed"));
    assert_eq!(app.status.as_deref(), Some("Renamed to \"renamed\"."));
}

#[test]
fn cycling_a_profile_record_mode_asks_to_save_it() {
    let mut app = test_app_with_titled_profile("game-1");
    let e = iprolaunch::tui::profile_editor::cycle_field(&mut app, "game-1".to_string(), ProfileField::LogRecord);
    assert!(matches!(e, Effect::SaveProfile(ref s) if s == "game-1"));
    assert_eq!(app.profiles[0].1.logging.record, Some(RecordMode::All));
}

// ---------------------------------------------------------------------------
// Running tab
// ---------------------------------------------------------------------------

fn entry(name: &str) -> RunningEntry {
    RunningEntry {
        pid: 0,
        name: name.to_string(),
        target_path: format!("/tmp/{name}.exe"),
        prefix_path: format!("/tmp/iprolaunch-test-nonexistent-prefix/{name}"),
        launch_id: format!("iprolaunch-test-nonexistent-launch-{name}"),
        started_at: String::new(),
    }
}

fn test_app_with_two_entries() -> App {
    let mut app = test_app();
    app.running = vec![entry("Elden Ring"), entry("Guildmaster")];
    app.running_selected = 0;
    app
}

#[test]
fn running_f_starts_an_empty_filter_and_resets_selection() {
    let mut app = test_app_with_two_entries();
    app.running_selected = 1;
    iprolaunch::tui::running::start_filter(&mut app);
    assert_eq!(app.running_filter.as_deref(), Some(""));
    assert_eq!(app.running_selected, 0);
}

#[test]
fn running_typing_narrows_the_filtered_list_case_insensitively() {
    let mut app = test_app_with_two_entries();
    iprolaunch::tui::running::start_filter(&mut app);
    for c in "guild".chars() {
        iprolaunch::tui::running::filter_key(&mut app, Key::Char(c));
    }
    assert_eq!(app.filtered_running_indices(), vec![1]);
}

#[test]
fn running_backspace_removes_the_last_filter_character() {
    let mut app = test_app_with_two_entries();
    iprolaunch::tui::running::start_filter(&mut app);
    iprolaunch::tui::running::filter_key(&mut app, Key::Char('x'));
    iprolaunch::tui::running::filter_key(&mut app, Key::Char('x'));
    iprolaunch::tui::running::filter_key(&mut app, Key::Backspace);
    assert_eq!(app.running_filter.as_deref(), Some("x"));
}

#[test]
fn running_esc_clears_the_filter_entirely() {
    let mut app = test_app_with_two_entries();
    iprolaunch::tui::running::start_filter(&mut app);
    iprolaunch::tui::running::filter_key(&mut app, Key::Char('x'));
    iprolaunch::tui::running::filter_key(&mut app, Key::Esc);
    assert_eq!(app.running_filter, None);
    assert_eq!(app.filtered_running_indices().len(), 2);
}

#[test]
fn running_up_down_navigate_within_the_filtered_subset_only() {
    let mut app = test_app_with_two_entries();
    app.running.push(entry("Guilty Gear"));
    iprolaunch::tui::running::start_filter(&mut app);
    for c in "guil".chars() {
        iprolaunch::tui::running::filter_key(&mut app, Key::Char(c));
    }
    assert_eq!(app.filtered_running_indices(), vec![1, 2]);
    assert_eq!(app.running_selected, 0);
    iprolaunch::tui::running::filter_key(&mut app, Key::Down);
    assert_eq!(app.running_selected, 1);
    iprolaunch::tui::running::filter_key(&mut app, Key::Down);
    assert_eq!(app.running_selected, 1);
    iprolaunch::tui::running::filter_key(&mut app, Key::Up);
    assert_eq!(app.running_selected, 0);
}

#[test]
fn r_and_k_become_literal_filter_characters_while_searching() {
    let mut app = test_app_with_two_entries();
    iprolaunch::tui::running::start_filter(&mut app);
    let e1 = iprolaunch::tui::running::on_key(&mut app, Key::Char('r'));
    let e2 = iprolaunch::tui::running::on_key(&mut app, Key::Char('k'));
    assert_eq!(app.running_filter.as_deref(), Some("rk"));
    assert!(matches!(e1, Effect::Nothing));
    assert!(matches!(e2, Effect::Nothing));
    assert_eq!(app.running.len(), 2);
}

#[test]
fn enter_locks_the_filter_instead_of_killing() {
    let mut app = test_app_with_two_entries();
    iprolaunch::tui::running::start_filter(&mut app);
    for c in "guild".chars() {
        iprolaunch::tui::running::filter_key(&mut app, Key::Char(c));
    }
    iprolaunch::tui::running::filter_key(&mut app, Key::Enter);
    assert!(!app.running_filter_editing);
    assert_eq!(app.running_filter.as_deref(), Some("guild"));
    assert!(app.status.is_none(), "locking shouldn't kill anything");
}

#[test]
fn delete_also_locks_the_filter_instead_of_killing() {
    let mut app = test_app_with_two_entries();
    iprolaunch::tui::running::start_filter(&mut app);
    iprolaunch::tui::running::filter_key(&mut app, Key::Delete);
    assert!(!app.running_filter_editing);
    assert!(app.status.is_none());
}

#[test]
fn a_second_enter_after_locking_kills_the_selected_entry() {
    let mut app = test_app_with_two_entries();
    iprolaunch::tui::running::start_filter(&mut app);
    for c in "guild".chars() {
        iprolaunch::tui::running::filter_key(&mut app, Key::Char(c));
    }
    iprolaunch::tui::running::filter_key(&mut app, Key::Enter);
    let e = iprolaunch::tui::running::on_key(&mut app, Key::Enter);
    let Effect::Kill { launch_id, name } = e else {
        panic!("expected a kill")
    };
    let listed = Ok(app.running.clone());
    iprolaunch::tui::running::finish_kill(&mut app, &name, Err(nothing_running_message(&launch_id)), listed);
    assert_eq!(
        app.status.as_deref(),
        Some("Failed to kill Guildmaster: nothing running against launch iprolaunch-test-nonexistent-launch-Guildmaster")
    );
}

#[test]
fn once_locked_r_refreshes_normally_instead_of_editing_the_filter() {
    let mut app = test_app_with_two_entries();
    iprolaunch::tui::running::start_filter(&mut app);
    iprolaunch::tui::running::filter_key(&mut app, Key::Char('r'));
    assert_eq!(app.running_filter.as_deref(), Some("r"));
    iprolaunch::tui::running::filter_key(&mut app, Key::Enter);
    let e = iprolaunch::tui::running::on_key(&mut app, Key::Char('r'));
    assert!(matches!(e, Effect::ReloadRunning));
    assert_eq!(app.running_filter.as_deref(), Some("r"));
    assert!(app.running_filter.is_some());
}

#[test]
fn esc_clears_a_locked_filter_too() {
    let mut app = test_app_with_two_entries();
    iprolaunch::tui::running::start_filter(&mut app);
    iprolaunch::tui::running::filter_key(&mut app, Key::Char('x'));
    iprolaunch::tui::running::filter_key(&mut app, Key::Enter);
    iprolaunch::tui::running::on_key(&mut app, Key::Esc);
    assert_eq!(app.running_filter, None);
    assert!(!app.running_filter_editing);
}

// ---------------------------------------------------------------------------
// Key routing
// ---------------------------------------------------------------------------

#[test]
fn q_quits_but_is_literal_text_while_a_search_is_typed() {
    let mut app = test_app_with_two_entries();
    iprolaunch::tui::keys::on_key(&mut app, Key::Char('f'), None);
    iprolaunch::tui::keys::on_key(&mut app, Key::Char('q'), None);
    assert!(!app.should_quit);
    assert_eq!(app.running_filter.as_deref(), Some("q"));
    iprolaunch::tui::keys::on_key(&mut app, Key::Enter, None);
    iprolaunch::tui::keys::on_key(&mut app, Key::Char('q'), None);
    assert!(app.should_quit);
}

#[test]
fn tab_switching_clears_quick_searches() {
    let mut app = test_app_with_two_entries();
    app.running_filter = Some("x".to_string());
    iprolaunch::tui::keys::on_key(&mut app, Key::Tab, None);
    assert_eq!(app.tab, Tab::Library);
    assert_eq!(app.running_filter, None);
    iprolaunch::tui::keys::on_key(&mut app, Key::Char('4'), None);
    assert_eq!(app.tab, Tab::Help);
    iprolaunch::tui::keys::on_key(&mut app, Key::BackTab, None);
    assert_eq!(app.tab, Tab::Config);
}

#[test]
fn text_popups_edit_at_the_cursor_and_enter_adds_a_typed_path() {
    let mut app = test_app();
    app.tab = Tab::Library;
    iprolaunch::tui::keys::on_key(&mut app, Key::Char('a'), None);
    for c in "/g.ex".chars() {
        iprolaunch::tui::keys::on_key(&mut app, Key::Char(c), None);
    }
    iprolaunch::tui::keys::on_key(&mut app, Key::Left, None);
    iprolaunch::tui::keys::on_key(&mut app, Key::Left, None);
    iprolaunch::tui::keys::on_key(&mut app, Key::Backspace, None);
    iprolaunch::tui::keys::on_key(&mut app, Key::Right, None);
    iprolaunch::tui::keys::on_key(&mut app, Key::Right, None);
    iprolaunch::tui::keys::on_key(&mut app, Key::Char('e'), None);
    let e = iprolaunch::tui::keys::on_key(&mut app, Key::Enter, None);
    assert!(matches!(e, Effect::Launch { ref target, ref label } if target == "/gexe" && label == "/gexe"));
    assert!(matches!(app.mode, Mode::Normal));
}

#[test]
fn help_popup_opens_with_question_mark_and_scrolls() {
    let mut app = test_app();
    iprolaunch::tui::keys::on_key(&mut app, Key::Char('?'), None);
    assert!(matches!(app.mode, Mode::Help));
    iprolaunch::tui::keys::on_key(&mut app, Key::Down, None);
    assert_eq!(app.help_scroll, 1);
    iprolaunch::tui::keys::on_key(&mut app, Key::Up, None);
    iprolaunch::tui::keys::on_key(&mut app, Key::Up, None);
    assert_eq!(app.help_scroll, 0);
    iprolaunch::tui::keys::on_key(&mut app, Key::Esc, None);
    assert!(matches!(app.mode, Mode::Normal));
}

#[test]
fn config_enter_on_an_integration_row_asks_to_run_it() {
    let mut app = test_app();
    app.tab = Tab::Config;
    app.config_selected = ConfigField::ALL.len() + 2;
    let e = iprolaunch::tui::keys::on_key(&mut app, Key::Enter, None);
    assert!(matches!(e, Effect::Integrate(IntegrateAction::Setup)));
    app.config_selected = ConfigField::ALL.len();
    let e = iprolaunch::tui::keys::on_key(&mut app, Key::Enter, None);
    assert!(matches!(e, Effect::Nothing));
}

#[test]
fn config_left_right_step_the_keep_count() {
    let mut app = test_app();
    app.tab = Tab::Config;
    app.config_selected = ConfigField::ALL.iter().position(|f| *f == ConfigField::LogKeep).unwrap();
    let e = iprolaunch::tui::keys::on_key(&mut app, Key::Right, None);
    assert!(matches!(e, Effect::SaveConfig));
    assert_eq!(app.cfg.logging.keep, 4);
    iprolaunch::tui::keys::on_key(&mut app, Key::Left, None);
    iprolaunch::tui::keys::on_key(&mut app, Key::Left, None);
    assert_eq!(app.cfg.logging.keep, 2);
}

// ---------------------------------------------------------------------------
// What the screens show
// ---------------------------------------------------------------------------

#[test]
fn marquee_signature_differs_when_the_selected_row_changes() {
    let mut app = test_app();
    app.tab = Tab::Config;
    app.config_selected = 0;
    let a = marquee_signature(&app);
    app.config_selected = 1;
    let b = marquee_signature(&app);
    assert_ne!(a, b);
}

#[test]
fn marquee_signature_ignores_a_text_inputs_buffer_contents() {
    let mut app = test_app();
    app.mode = Mode::TextInput {
        purpose: TextInputPurpose::AddLibraryPath,
        buffer: "a".to_string(),
        cursor: 1,
    };
    let a = marquee_signature(&app);
    app.mode = Mode::TextInput {
        purpose: TextInputPurpose::AddLibraryPath,
        buffer: "a longer buffer now".to_string(),
        cursor: 19,
    };
    let b = marquee_signature(&app);
    assert_eq!(a, b);
}

#[test]
fn marquee_leaves_short_text_unchanged() {
    assert_eq!(marquee("short", 20, 0), "short");
    assert_eq!(marquee("short", 20, 500), "short");
}

#[test]
fn marquee_scrolls_long_text_and_advances_with_tick() {
    let text = "this text is definitely longer than the width";
    let width = 10;
    let at_0 = marquee(text, width, 0);
    let at_1 = marquee(text, width, 1);
    assert_eq!(at_0.chars().count(), width);
    assert_eq!(at_1.chars().count(), width);
    assert_ne!(at_0, at_1, "advancing tick should shift the visible window");
    assert!(text.starts_with(&at_0));
}

#[test]
fn marquee_wraps_around_via_the_gap_back_to_the_start() {
    let text = "abcdef";
    let width = 3;
    assert_eq!(marquee(text, width, 0), marquee(text, width, 10));
    assert_eq!(marquee(text, width, 5), "f  ");
    assert_eq!(marquee(text, width, 8), "  a");
}

#[test]
fn marquee_title_accounts_for_the_2_border_columns() {
    let long = "a very long popup title that will not fit";
    let scrolled = marquee_title(long.to_string(), 12, 0);
    assert_eq!(scrolled.chars().count(), 10);
    assert_eq!(marquee_title("short".to_string(), 20, 0), "short");
}

#[test]
fn shortened_parent_hint_keeps_the_last_two_directories() {
    assert_eq!(
        shortened_parent_hint("/media/media/Downloads/Programs/KTSYSVIEW.exe"),
        "..\\Downloads\\Programs"
    );
    assert_eq!(shortened_parent_hint("/game.exe"), "..\\");
    assert_eq!(shortened_parent_hint("/a/game.exe"), "..\\a");
}

#[test]
fn filter_title_shows_the_search_box_or_the_locked_search() {
    assert_eq!(
        filter_title(&Some("kt".to_string()), true, "Library"),
        "Filter: kt_  (Enter = lock, Esc = clear)"
    );
    assert_eq!(
        filter_title(&Some("kt".to_string()), false, "Library"),
        "Library — Filter: kt (locked, Esc = clear)"
    );
    assert_eq!(filter_title(&None, false, "Library"), "Library");
}

#[test]
fn help_text_has_as_many_lines_as_it_shows() {
    assert_eq!(
        help_text_line_count() as usize,
        iprolaunch::tui::ui::HELP_TEXT.lines().count()
    );
}

#[test]
fn library_row_shows_the_shortened_parent_hint_and_right_aligns_last_launched() {
    // A 100-column terminal leaves 96 columns for the row's text.
    let row = library_row_text(
        "ktsysview#1",
        "ktsysview",
        "/media/media/Downloads/Programs/KTSYSVIEW.exe",
        false,
        Some("06-Sep-2026, 13:04:45"),
        96,
    );
    assert!(row.contains("[..\\Downloads\\Programs]"));
    let idx = row.find("last launched:").expect("last launched should render");
    let row_start = row[..idx].rfind("ktsysview#1").unwrap();
    assert!(idx - row_start >= 60, "gap was {}", idx - row_start);
    assert_eq!(row.chars().count(), 96);
    assert!(row.ends_with("last launched: 06-Sep-2026, 13:04:45"));
}

#[test]
fn library_row_hides_last_launched_entirely_when_never_launched() {
    let row = library_row_text("ktsysview#1", "ktsysview", "/games/a/b/k.exe", false, None, 96);
    assert!(row.contains("ktsysview#1"));
    assert!(!row.contains("last launched"));
    assert_eq!(row, "ktsysview#1  [ktsysview]  [..\\a\\b]");
}

#[test]
fn library_row_marks_games_in_steam_and_keeps_one_space_when_too_narrow() {
    let row = library_row_text("G", "g", "/x/g.exe", true, Some("s"), 5);
    assert_eq!(row, "G  [g]  [..\\x]  [in Steam] last launched: s");
}

#[test]
fn value_texts_show_overrides_and_what_applies_otherwise() {
    let mut p = Profile::fresh("Game#1".to_string(), "/g/game.exe".to_string());
    assert_eq!(profile_value(&p, "game", ProfileField::Slug), "game");
    assert_eq!(profile_value(&p, "game", ProfileField::Title), "(inherit: exe filename)");
    assert_eq!(profile_value(&p, "game", ProfileField::Args), "(none)");
    assert_eq!(profile_value(&p, "game", ProfileField::Proton), "(inherit)");
    assert_eq!(profile_value(&p, "game", ProfileField::EnvTable), "(empty)");
    p.args = vec!["--dx11".to_string(), "-w".to_string()];
    p.defaults.gamescope = Some(GamescopeSetting::Maximize);
    p.defaults.gamescope_settings.output_width = Some(1920);
    p.logging.auto_open = Some(false);
    assert_eq!(profile_value(&p, "game", ProfileField::Args), "--dx11 -w");
    assert_eq!(profile_value(&p, "game", ProfileField::Gamescope), "Maximize");
    assert_eq!(profile_value(&p, "game", ProfileField::GamescopeOutputWidth), "1920");
    assert_eq!(profile_value(&p, "game", ProfileField::LogAutoOpen), "false");

    let cfg = Config::default();
    assert_eq!(config_value(&cfg, ConfigField::Proton), "system");
    assert_eq!(config_value(&cfg, ConfigField::PrefixMode), "Single");
    assert_eq!(config_value(&cfg, ConfigField::GamescopeRefresh), "(unset)");
    assert_eq!(config_value(&cfg, ConfigField::LogKeep), "3");
    assert_eq!(config_value(&cfg, ConfigField::LogRecord), "Errors");
    assert_eq!(config_value(&cfg, ConfigField::LogAutoOpen), "true");
    assert_eq!(config_value(&cfg, ConfigField::GamedbInterval), "7");
}

#[test]
fn text_input_titles_say_what_the_popup_is_for() {
    assert_eq!(
        text_input_title(&TextInputPurpose::AddLibraryPath),
        "Path to .exe (Enter = add & launch, Esc = cancel)"
    );
    assert_eq!(
        text_input_title(&TextInputPurpose::ConfigField(ConfigField::Proton)),
        format!("Edit {} (Enter = save, Esc = cancel)", ConfigField::Proton.label())
    );
    assert_eq!(
        text_input_title(&TextInputPurpose::ProfileField("g".to_string(), ProfileField::Proton)),
        format!("Edit {} (Enter = save, blank = inherit, Esc = cancel)", ProfileField::Proton.label())
    );
    assert!(text_input_title(&TextInputPurpose::ProfileTitle("g".to_string())).starts_with("Game's real title"));
}
