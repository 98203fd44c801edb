//! Routing a key press: the open popup takes it first, then a quick-search
//! being typed, then the global keys, then the current tab.
use super::app::{move_selection, move_selection_spec, tab_after, tab_before, App, Effect, Key, Mode, Tab, TextInputPurpose};
use crate::config::opt_view;
use vstd::prelude::*;

verus! {

/// The cursor of a text popup, pulled back onto the text.
pub open spec fn clamped_cursor(cursor: usize, len: nat) -> int {
    if cursor > len {
        len as int
    } else {
        cursor as int
    }
}

/// What the editing keys do to a text popup's buffer and cursor.
pub open spec fn text_edit_spec(buffer: Seq<char>, cursor: usize, key: Key, b2: Seq<char>, c2: usize) -> bool {
    let c = clamped_cursor(cursor, buffer.len());
    match key {
        Key::Backspace => if c > 0 {
            b2 == buffer.remove(c - 1) && c2 == c - 1
        } else {
            b2 == buffer && c2 == c
        },
        Key::Char(ch) => b2 == buffer.insert(c, ch) && c2 == c + 1,
        Key::Left => b2 == buffer && c2 == (if c > 0 {
            c - 1
        } else {
            0
        }),
        Key::Right => b2 == buffer && c2 == (if c < buffer.len() {
            c + 1
        } else {
            c
        }),
        _ => b2 == buffer && c2 == cursor,
    }
}

/// What confirming a text popup asks for, by purpose: launching (adding)
/// the typed path, applying a settings or profile field, or setting a new
/// game's title.
pub open spec fn text_commit_spec(
    a: App,
    b: App,
    purpose: TextInputPurpose,
    buffer: String,
    home: Option<Seq<char>>,
    e: Effect,
) -> bool {
    let n = App { mode: Mode::Normal, ..a };
    match purpose {
        TextInputPurpose::AddLibraryPath => b == n && (e matches Effect::Launch { target, label } && target@
            == buffer@ && label@ == buffer@),
        TextInputPurpose::ConfigField(f) => ({
            let t = crate::text::trim_spec(buffer@);
            if super::config::numeric_config_field(f) && t.len() > 0 && crate::text::parse_u32_spec(t) is None {
                opt_view(b.status) == Some(
                    "\""@ + t + "\" isn't a whole number — "@ + super::app::config_field_label(f) + " left unchanged."@,
                ) && b == (App { status: b.status, ..n }) && e is Nothing
            } else {
                super::config::config_text_applied(n.cfg, b.cfg, f, buffer@) && b == (App { cfg: b.cfg, ..n })
                    && e is SaveConfig
            }
        }),
        TextInputPurpose::ProfileTitle(slug) => b == n && (e matches Effect::SetProfileTitle { slug: s, buffer: t } && s
            == slug && t == buffer),
        TextInputPurpose::ProfileField(slug, f) => super::profile_editor::apply_text_spec(n, b, slug@, f, buffer@, home, e),
    }
}

/// A key in a text popup: Esc closes it, the editing keys edit the buffer
/// at the cursor, Enter confirms it.
pub open spec fn text_input_spec(a: App, b: App, key: Key, home: Option<Seq<char>>, e: Effect) -> bool {
    match a.mode {
        Mode::TextInput { purpose, buffer, cursor } => match key {
            Key::Esc => b == (App { mode: Mode::Normal, ..a }) && e is Nothing,
            Key::Enter => text_commit_spec(a, b, purpose, buffer, home, e),
            Key::Backspace | Key::Char(_) | Key::Left | Key::Right => (b.mode matches Mode::TextInput {
                purpose: p2,
                buffer: b2,
                cursor: c2,
            } && p2 == purpose && text_edit_spec(buffer@, cursor, key, b2@, c2)) && b == (App { mode: b.mode, ..a })
                && e is Nothing,
            _ => b == a && e is Nothing,
        },
        _ => b == a && e is Nothing,
    }
}

pub fn handle_text_input(app: &mut App, key: Key, home: Option<&str>) -> (e: Effect)
    ensures
        text_input_spec(*old(app), *final(app), key, super::app::opt_str_view(home), e),
{
    match &app.mode {
        Mode::TextInput { .. } => {},
        _ => return Effect::Nothing,
    }
    match key {
        Key::Esc | Key::Enter | Key::Backspace | Key::Char(_) | Key::Left | Key::Right => {},
        _ => return Effect::Nothing,
    }
    let m = super::library::take_mode(app);
    let (purpose, buffer, cursor) = match m {
        Mode::TextInput { purpose, buffer, cursor } => (purpose, buffer, cursor),
        _ => return Effect::Nothing,
    };
    let len = crate::text::chars_of(buffer.as_str()).len();
    let c = if cursor > len {
        len
    } else {
        cursor
    };
    match key {
        Key::Esc => Effect::Nothing,
        Key::Enter => match purpose {
            TextInputPurpose::AddLibraryPath => {
                let label = buffer.clone();
                Effect::Launch { target: buffer, label }
            },
            TextInputPurpose::ConfigField(f) => super::config::apply_text_field(app, f, buffer),
            TextInputPurpose::ProfileTitle(slug) => Effect::SetProfileTitle { slug, buffer },
            TextInputPurpose::ProfileField(slug, f) => super::profile_editor::apply_text_field(
                app,
                slug.as_str(),
                f,
                buffer,
                home,
            ),
        },
        Key::Backspace => {
            if c > 0 {
                let b2 = crate::text::str_remove_char(buffer.as_str(), c - 1);
                app.mode = Mode::TextInput { purpose, buffer: b2, cursor: c - 1 };
            } else {
                app.mode = Mode::TextInput { purpose, buffer, cursor: c };
            }
            Effect::Nothing
        },
        Key::Char(ch) => {
            let b2 = crate::text::str_insert_char(buffer.as_str(), c, ch);
            let n2 = crate::text::chars_of(b2.as_str()).len();
            assert(c + 1 <= n2);
            app.mode = Mode::TextInput { purpose, buffer: b2, cursor: c + 1 };
            Effect::Nothing
        },
        Key::Left => {
            let c2 = if c > 0 {
                c - 1
            } else {
                0
            };
            app.mode = Mode::TextInput { purpose, buffer, cursor: c2 };
            Effect::Nothing
        },
        _ => {
            let c2 = if c < len {
                c + 1
            } else {
                c
            };
            app.mode = Mode::TextInput { purpose, buffer, cursor: c2 };
            Effect::Nothing
        },
    }
}

/// The number of rows in a Proton picker: the builds plus "system", plus
/// "inherit" for a profile.
pub open spec fn picker_rows(builds: nat, global: bool) -> int {
    let r = builds + if global {
        1int
    } else {
        2int
    };
    if r > usize::MAX {
        usize::MAX as int
    } else {
        r
    }
}

/// A key in the Proton picker: Esc closes it, Up/Down move, Enter applies
/// the highlighted row (see `config::apply_proton_choice`).
pub open spec fn proton_picker_spec(a: App, b: App, key: Key, e: Effect) -> bool {
    match a.mode {
        Mode::ProtonPicker { builds, selected, target } => match key {
            Key::Esc => b == (App { mode: Mode::Normal, ..a }) && e is Nothing,
            Key::Up | Key::Down => b == (App {
                mode: Mode::ProtonPicker {
                    builds,
                    selected: move_selection_spec(
                        selected as int,
                        picker_rows(builds@.len(), target is Global),
                        if key is Up {
                            -1
                        } else {
                            1
                        },
                    ) as usize,
                    target,
                },
                ..a
            }) && e is Nothing,
            Key::Enter => exists|n: App|
                n == (App { mode: Mode::Normal, ..a }) && #[trigger] super::config::proton_choice_spec(
                    n,
                    b,
                    builds@,
                    selected,
                    target,
                    e,
                ),
            _ => b == a && e is Nothing,
        },
        _ => b == a && e is Nothing,
    }
}

pub fn handle_proton_picker(app: &mut App, key: Key) -> (e: Effect)
    ensures
        proton_picker_spec(*old(app), *final(app), key, e),
{
    match &app.mode {
        Mode::ProtonPicker { .. } => {},
        _ => return Effect::Nothing,
    }
    match key {
        Key::Esc | Key::Enter | Key::Up | Key::Down => {},
        _ => return Effect::Nothing,
    }
    let m = super::library::take_mode(app);
    let (builds, selected, target) = match m {
        Mode::ProtonPicker { builds, selected, target } => (builds, selected, target),
        _ => return Effect::Nothing,
    };
    match key {
        Key::Esc => Effect::Nothing,
        Key::Enter => {
            let ghost n = *app;
            let e = super::config::apply_proton_choice(app, &builds, selected, &target);
            assert(super::config::proton_choice_spec(n, *app, builds@, selected, target, e));
            e
        },
        _ => {
            let extra: usize = match &target {
                super::app::ProtonPickerTarget::Global => 1,
                _ => 2,
            };
            let rows: usize = if builds.len() <= usize::MAX - extra {
                builds.len() + extra
            } else {
                usize::MAX
            };
            let delta: isize = if key == Key::Up {
                -1
            } else {
                1
            };
            let s2 = move_selection(selected, rows, delta);
            app.mode = Mode::ProtonPicker { builds, selected: s2, target };
            Effect::Nothing
        },
    }
}

/// Number of lines of the help text.
pub open spec fn help_lines() -> int {
    crate::text::lines_spec(super::ui::HELP_TEXT@).len() as int
}

/// Scrolling the help text: Up scrolls back (not past the top), Down
/// scrolls on (not past its last line).
pub open spec fn help_scroll_spec(a: App, b: App, key: Key) -> bool {
    match key {
        Key::Up => b == (App {
            help_scroll: if a.help_scroll > 0 {
                (a.help_scroll - 1) as u16
            } else {
                0
            },
            ..a
        }),
        Key::Down => b == (App {
            help_scroll: if (a.help_scroll as int) < super::ui::help_line_count_spec() {
                (a.help_scroll + 1) as u16
            } else {
                a.help_scroll
            },
            ..a
        }),
        _ => b == a,
    }
}

pub fn help_scroll_key(app: &mut App, key: Key)
    ensures
        help_scroll_spec(*old(app), *final(app), key),
{
    match key {
        Key::Up => {
            if app.help_scroll > 0 {
                app.help_scroll = app.help_scroll - 1;
            }
        },
        Key::Down => {
            if app.help_scroll < super::ui::help_text_line_count() {
                app.help_scroll = app.help_scroll + 1;
            }
        },
        _ => {},
    }
}

/// A key over the help popup: Esc, `?` or `q` close it; Up/Down scroll.
pub open spec fn help_popup_spec(a: App, b: App, key: Key) -> bool {
    if key == Key::Esc || key == Key::Char('?') || key == Key::Char('q') {
        b == (App { mode: Mode::Normal, ..a })
    } else {
        help_scroll_spec(a, b, key)
    }
}

/// Whether the current tab's quick-search is taking every key.
pub open spec fn typing_filter(a: App) -> bool {
    (a.tab == Tab::Running && a.running_filter_editing) || (a.tab == Tab::Library && a.profile_editor is None
        && a.library_filter_editing)
}

/// What a key does with no popup open: a quick-search being typed takes
/// it; otherwise `q` quits, `?` opens the help, 1 to 4 pick a tab, Tab and
/// Shift-Tab step through the tabs (dropping any quick-search), and
/// anything else goes to the current tab.
pub open spec fn normal_spec(a: App, b: App, key: Key, e: Effect) -> bool {
    if typing_filter(a) {
        tab_spec(a, b, key, e)
    } else {
        match key {
            Key::Char('q') => b == (App { should_quit: true, ..a }) && e is Nothing,
            Key::Char('?') => b == (App { mode: Mode::Help, ..a }) && e is Nothing,
            Key::Char('1') => b == (App { tab: Tab::Running, ..a }) && e is Nothing,
            Key::Char('2') => b == (App { tab: Tab::Library, ..a }) && e is Nothing,
            Key::Char('3') => b == (App { tab: Tab::Config, ..a }) && e is Nothing,
            Key::Char('4') => b == (App { tab: Tab::Help, ..a }) && e is Nothing,
            Key::Tab => b == (App {
                tab: tab_after(a.tab),
                library_filter: None,
                library_filter_editing: false,
                library_selected: 0,
                running_filter: None,
                running_filter_editing: false,
                running_selected: 0,
                ..a
            }) && e is Nothing,
            Key::BackTab => b == (App {
                tab: tab_before(a.tab),
                library_filter: None,
                library_filter_editing: false,
                library_selected: 0,
                running_filter: None,
                running_filter_editing: false,
                running_selected: 0,
                ..a
            }) && e is Nothing,
            _ => tab_spec(a, b, key, e),
        }
    }
}

/// What the current tab does with a key.
pub open spec fn tab_spec(a: App, b: App, key: Key, e: Effect) -> bool {
    match a.tab {
        Tab::Running => if a.running_filter_editing {
            super::running::filter_key_spec(a, b, key) && e is Nothing
        } else {
            super::running::normal_key_spec(a, b, key, e)
        },
        Tab::Library => if a.profile_editor is Some {
            super::profile_editor::editor_key_spec(a, b, key, e)
        } else if a.library_filter_editing {
            super::library::library_filter_key_spec(a, b, key) && e is Nothing
        } else {
            super::library::library_key_spec(a, b, key, e)
        },
        Tab::Config => super::config::config_key_spec(a, b, key, e),
        Tab::Help => help_scroll_spec(a, b, key) && e is Nothing,
    }
}

/// Routes one key press; `home` is the user's home directory (for the
/// per-slug prefix paths a slug rename looks at).
pub fn on_key(app: &mut App, key: Key, home: Option<&str>) -> (e: Effect)
    ensures
        match old(app).mode {
            Mode::Normal => normal_spec(*old(app), *final(app), key, e),
            Mode::TextInput { .. } => text_input_spec(*old(app), *final(app), key, super::app::opt_str_view(home), e),
            Mode::ProtonPicker { .. } => proton_picker_spec(*old(app), *final(app), key, e),
            Mode::MapEditor { .. } => super::config::map_editor_key_spec(*old(app), *final(app), key, e),
            Mode::MapEntryInput { .. } => super::config::map_entry_key_spec(*old(app), *final(app), key, e),
            Mode::ConfirmDeleteProfile { slug, name } => *final(app) == (App { mode: Mode::Normal, ..*old(app) })
                && if super::library::is_yes(key) {
                e matches Effect::DeleteProfile { slug: s, name: n } && s == slug && n == name
            } else {
                e is Nothing
            },
            Mode::ConfirmWinetricks { slug, name } => *final(app) == (App { mode: Mode::Normal, ..*old(app) })
                && if super::library::is_yes(key) {
                e matches Effect::Winetricks { slug: s, name: n } && s == slug && n == name
            } else {
                e is Nothing
            },
            Mode::ConfirmRenameSlug { .. } => super::profile_editor::confirm_rename_spec(*old(app), *final(app), key, e),
            Mode::ConfirmAddToSteam { .. } => super::library::confirm_steam_spec(*old(app), *final(app), key, e),
            Mode::Help => help_popup_spec(*old(app), *final(app), key) && e is Nothing,
        },
{
    match &app.mode {
        Mode::Normal => {},
        Mode::TextInput { .. } => return handle_text_input(app, key, home),
        Mode::ProtonPicker { .. } => return handle_proton_picker(app, key),
        Mode::MapEditor { .. } => return super::config::map_editor_key(app, key),
        Mode::MapEntryInput { .. } => return super::config::map_entry_input_key(app, key),
        Mode::ConfirmDeleteProfile { .. } => return super::library::confirm_delete_key(app, key),
        Mode::ConfirmWinetricks { .. } => return super::library::confirm_winetricks_key(app, key),
        Mode::ConfirmRenameSlug { .. } => return super::profile_editor::confirm_rename_slug_key(app, key),
        Mode::ConfirmAddToSteam { .. } => return super::library::confirm_add_to_steam_key(app, key),
        Mode::Help => {
            if key == Key::Esc || key == Key::Char('?') || key == Key::Char('q') {
                app.mode = Mode::Normal;
            } else {
                help_scroll_key(app, key);
            }
            return Effect::Nothing;
        },
    }
    let typing = (app.tab == Tab::Running && app.running_filter_editing) || (app.tab == Tab::Library
        && app.profile_editor.is_none() && app.library_filter_editing);
    if !typing {
        match key {
            Key::Char('q') => {
                app.should_quit = true;
                return Effect::Nothing;
            },
            Key::Char('?') => {
                app.mode = Mode::Help;
                return Effect::Nothing;
            },
            Key::Char('1') => {
                app.tab = Tab::Running;
                return Effect::Nothing;
            },
            Key::Char('2') => {
                app.tab = Tab::Library;
                return Effect::Nothing;
            },
            Key::Char('3') => {
                app.tab = Tab::Config;
                return Effect::Nothing;
            },
            Key::Char('4') => {
                app.tab = Tab::Help;
                return Effect::Nothing;
            },
            Key::Tab => {
                app.next_tab();
                return Effect::Nothing;
            },
            Key::BackTab => {
                app.prev_tab();
                return Effect::Nothing;
            },
            _ => {},
        }
    }
    match app.tab {
        Tab::Running => super::running::on_key(app, key),
        Tab::Library => super::library::on_key(app, key),
        Tab::Config => super::config::on_key(app, key),
        Tab::Help => {
            help_scroll_key(app, key);
            Effect::Nothing
        },
    }
}

} // verus!
