//! The Library tab: the list of games, its quick-search, and the actions on
//! the selected game (launch, edit, delete, winetricks, add to Steam, copy
//! its quick-launch command).
use super::app::{
    clamp_selection, matching_indices, move_selection, move_selection_spec, popped_view, profile_names,
    profile_slot, pushed_view, slot_of, sort_by_name, App, Effect, Key, Mode, TextInputPurpose,
    CONFIRM_ADD_TO_STEAM_OPTIONS,
};
use crate::config::{opt_view, Profile};
use crate::running::RunningEntry;
use crate::text::{concat, concat3};
use vstd::prelude::*;

verus! {

/// The indices into `profiles` of the rows the tab shows.
pub open spec fn shown_profiles(a: App) -> Seq<usize> {
    matching_indices(profile_names(a.profiles@), a.library_filter)
}

/// The index into `profiles` of the selected row, if the selection is on a
/// row.
pub open spec fn selected_profile(a: App) -> Option<int> {
    if (a.library_selected as int) < shown_profiles(a).len() {
        Some(shown_profiles(a)[a.library_selected as int] as int)
    } else {
        None
    }
}

/// `b` is `a` with the selection moved by `delta` within the shown rows.
pub open spec fn library_moved(a: App, b: App, delta: int) -> bool {
    b == (App {
        library_selected: move_selection_spec(a.library_selected as int, shown_profiles(a).len() as int, delta) as usize,
        ..a
    })
}

/// The selected profile's index into `profiles`.
pub fn selected_index(app: &App) -> (r: Option<usize>)
    ensures
        match selected_profile(*app) {
            Some(i) => r == Some(i as usize) && 0 <= i < app.profiles@.len(),
            None => r is None,
        },
{
    let indices = app.filtered_profile_indices();
    let n = app.profiles.len();
    assert(profile_names(app.profiles@).len() == n);
    proof {
        super::app::lemma_matching_indices_in_range(profile_names(app.profiles@), app.library_filter);
    }
    if app.library_selected >= indices.len() {
        return None;
    }
    Some(indices[app.library_selected])
}

// ---------------------------------------------------------------------------
// Quick-search
// ---------------------------------------------------------------------------

/// `f`: starts an empty quick-search and selects its first row.
pub fn start_filter(app: &mut App)
    ensures
        opt_view(final(app).library_filter) == Some(Seq::<char>::empty()),
        *final(app) == (App {
            library_filter: final(app).library_filter,
            library_filter_editing: true,
            library_selected: 0,
            ..*old(app)
        }),
{
    app.library_filter = Some(String::new());
    app.library_filter_editing = true;
    app.library_selected = 0;
}

/// What the quick-search editing keys do; the result says whether `key`
/// was one of them.
pub open spec fn edit_filter_spec(a: App, b: App, key: Key, handled: bool) -> bool {
    match key {
        Key::Esc => handled && b == (App {
            library_filter: None,
            library_filter_editing: false,
            library_selected: 0,
            ..a
        }),
        Key::Backspace => handled && opt_view(b.library_filter) == popped_view(a.library_filter) && b == (App {
            library_filter: b.library_filter,
            library_selected: 0,
            ..a
        }),
        Key::Char(c) => handled && opt_view(b.library_filter) == pushed_view(a.library_filter, c) && b == (App {
            library_filter: b.library_filter,
            library_selected: 0,
            ..a
        }),
        Key::Up => handled && library_moved(a, b, -1),
        Key::Down => handled && library_moved(a, b, 1),
        _ => !handled && b == a,
    }
}

/// The quick-search editing keys: typing, Backspace, Up/Down within the
/// matches, Esc to drop the search entirely (the next key is a normal
/// Library key again).
pub fn edit_filter(app: &mut App, key: Key) -> (handled: bool)
    ensures
        edit_filter_spec(*old(app), *final(app), key, handled),
{
    match key {
        Key::Esc => {
            app.library_filter = None;
            app.library_filter_editing = false;
            app.library_selected = 0;
            true
        },
        Key::Backspace => {
            app.library_filter = super::app::pop_filter(&app.library_filter);
            app.library_selected = 0;
            true
        },
        Key::Char(c) => {
            app.library_filter = super::app::push_filter(&app.library_filter, c);
            app.library_selected = 0;
            true
        },
        Key::Up => {
            let len = app.filtered_profile_indices().len();
            app.library_selected = move_selection(app.library_selected, len, -1);
            true
        },
        Key::Down => {
            let len = app.filtered_profile_indices().len();
            app.library_selected = move_selection(app.library_selected, len, 1);
            true
        },
        _ => false,
    }
}

/// Whether `key` is one of the quick-search editing keys.
pub open spec fn edits_filter(key: Key) -> bool {
    key is Esc || key is Backspace || key is Char || key is Up || key is Down
}

/// What a key does while the Library quick-search is being typed.
pub open spec fn library_filter_key_spec(a: App, b: App, key: Key) -> bool {
    match key {
        Key::Enter => b == (App { library_filter_editing: false, ..a }),
        _ => edit_filter_spec(a, b, key, edits_filter(key)),
    }
}

/// A key while the quick-search is being typed: the editing keys, and
/// Enter to lock the search.
pub fn filter_key(app: &mut App, key: Key)
    ensures
        library_filter_key_spec(*old(app), *final(app), key),
{
    if edit_filter(app, key) {
        return;
    }
    if key == Key::Enter {
        app.library_filter_editing = false;
    }
}

// ---------------------------------------------------------------------------
// Actions on the selected game
// ---------------------------------------------------------------------------

/// Takes the freshly loaded library and reports the refresh.
pub fn refresh(app: &mut App, loaded: Result<Vec<(String, Profile)>, String>)
    ensures
        match loaded {
            Ok(ps) => final(app).profiles@ == sort_by_name(ps@),
            Err(_) => final(app).profiles@ == old(app).profiles@,
        },
        opt_view(final(app).status) == Some("Refreshed."@),
        final(app).library_selected == clamp_selection(
            old(app).library_selected as int,
            final(app).profiles@.len() as int,
        ),
        *final(app) == (App {
            profiles: final(app).profiles,
            library_selected: final(app).library_selected,
            status: final(app).status,
            ..*old(app)
        }),
{
    app.refresh_profiles(loaded);
    app.status = Some("Refreshed.".to_string());
}

/// `e` opens the selected profile's editor at its first field.
pub open spec fn edit_selected_spec(a: App, b: App) -> bool {
    match selected_profile(a) {
        Some(i) => opt_view(b.profile_editor) == Some(a.profiles@[i].0@) && b == (App {
            profile_editor: b.profile_editor,
            profile_field_selected: 0,
            ..a
        }),
        None => b == a,
    }
}

/// `d` asks to confirm deleting the selected profile.
pub open spec fn prompt_delete_spec(a: App, b: App) -> bool {
    match selected_profile(a) {
        Some(i) => (b.mode matches Mode::ConfirmDeleteProfile { slug, name } && slug
            == a.profiles@[i].0 && name == a.profiles@[i].1.name) && b == (App {
            mode: b.mode,
            ..a
        }),
        None => b == a,
    }
}

/// `p` asks to confirm running winetricks for the selected game.
pub open spec fn prompt_winetricks_spec(a: App, b: App) -> bool {
    match selected_profile(a) {
        Some(i) => (b.mode matches Mode::ConfirmWinetricks { slug, name } && slug
            == a.profiles@[i].0 && name == a.profiles@[i].1.name) && b == (App {
            mode: b.mode,
            ..a
        }),
        None => b == a,
    }
}

/// `s` opens the add-to-Steam popup, or only reports a game Steam
/// already has.
pub open spec fn prompt_steam_spec(a: App, b: App) -> bool {
    match selected_profile(a) {
        Some(i) => if exists|k: int|
            0 <= k < a.steam_slugs@.len() && (#[trigger] a.steam_slugs@[k])@
                == a.profiles@[i].0@ {
            opt_view(b.status) == Some(
                "\""@ + a.profiles@[i].1.name@
                    + "\" already looks added to Steam — remove it there first if you want to re-add."@,
            ) && b == (App { status: b.status, ..a })
        } else {
            (b.mode matches Mode::ConfirmAddToSteam { slug, name, selected } && slug
                == a.profiles@[i].0 && name == a.profiles@[i].1.name && selected == 0)
                && b == (App { mode: b.mode, ..a })
        },
        None => b == a,
    }
}

/// `c` asks to copy the selected game's quick-launch command.
pub open spec fn copy_spec(a: App, e: Effect) -> bool {
    match selected_profile(a) {
        Some(i) => e matches Effect::CopyQuickLaunch(slug) && slug == a.profiles@[i].0,
        None => e is Nothing,
    }
}

/// Enter asks to launch the selected game.
pub open spec fn launch_spec(a: App, e: Effect) -> bool {
    match selected_profile(a) {
        Some(i) => e matches Effect::Launch { target, label } && target == a.profiles@[i].1.target_path
            && label == a.profiles@[i].1.name,
        None => e is Nothing,
    }
}

/// `e`: opens the selected profile's editor at its first field.
pub fn edit_selected(app: &mut App)
    ensures
        edit_selected_spec(*old(app), *final(app)),
{
    if let Some(i) = selected_index(app) {
        app.profile_editor = Some(app.profiles[i].0.clone());
        app.profile_field_selected = 0;
    }
}

/// `d`: asks to confirm deleting the selected profile.
pub fn prompt_delete_selected(app: &mut App)
    ensures
        prompt_delete_spec(*old(app), *final(app)),
{
    if let Some(i) = selected_index(app) {
        app.mode = Mode::ConfirmDeleteProfile { slug: app.profiles[i].0.clone(), name: app.profiles[i].1.name.clone() };
    }
}

/// `p`: asks to confirm running winetricks for the selected game.
pub fn prompt_winetricks(app: &mut App)
    ensures
        prompt_winetricks_spec(*old(app), *final(app)),
{
    if let Some(i) = selected_index(app) {
        app.mode = Mode::ConfirmWinetricks { slug: app.profiles[i].0.clone(), name: app.profiles[i].1.name.clone() };
    }
}

/// Whether `slugs` holds `slug`.
pub fn slug_listed(slugs: &Vec<String>, slug: &str) -> (r: bool)
    ensures
        r == exists|i: int| 0 <= i < slugs@.len() && (#[trigger] slugs@[i])@ == slug@,
{
    let mut i: usize = 0;
    while i < slugs.len()
        invariant
            i <= slugs@.len(),
            forall|j: int| 0 <= j < i ==> (#[trigger] slugs@[j])@ != slug@,
        decreases slugs@.len() - i,
    {
        if crate::text::str_eq(slugs[i].as_str(), slug) {
            return true;
        }
        i = i + 1;
    }
    false
}

/// `s`: asks how to add the selected game to Steam, unless its slug is
/// already among Steam's shortcuts, which is only reported.
pub fn prompt_add_to_steam(app: &mut App)
    ensures
        prompt_steam_spec(*old(app), *final(app)),
{
    if let Some(i) = selected_index(app) {
        if slug_listed(&app.steam_slugs, app.profiles[i].0.as_str()) {
            app.status = Some(
                concat3(
                    "\"",
                    app.profiles[i].1.name.as_str(),
                    "\" already looks added to Steam — remove it there first if you want to re-add.",
                ),
            );
        } else {
            app.mode = Mode::ConfirmAddToSteam {
                slug: app.profiles[i].0.clone(),
                name: app.profiles[i].1.name.clone(),
                selected: 0,
            };
        }
    }
}

/// `c`: asks to copy the selected game's quick-launch command.
pub fn copy_quick_launch(app: &App) -> (e: Effect)
    ensures
        copy_spec(*app, e),
{
    match selected_index(app) {
        Some(i) => Effect::CopyQuickLaunch(app.profiles[i].0.clone()),
        None => Effect::Nothing,
    }
}

/// Reports the copied command, or why copying failed.
pub fn finish_copy(app: &mut App, copied: Result<String, String>)
    ensures
        opt_view(final(app).status) == Some(
            match copied {
                Ok(command) => "Copied: "@ + command@,
                Err(err) => err@,
            },
        ),
        *final(app) == (App { status: final(app).status, ..*old(app) }),
{
    app.status = Some(
        match copied {
            Ok(command) => concat("Copied: ", command.as_str()),
            Err(err) => err,
        },
    );
}

/// Enter: asks to launch the selected game, labelled by its name.
pub fn launch_selected(app: &App) -> (e: Effect)
    ensures
        launch_spec(*app, e),
{
    match selected_index(app) {
        Some(i) => Effect::Launch {
            target: app.profiles[i].1.target_path.clone(),
            label: app.profiles[i].1.name.clone(),
        },
        None => Effect::Nothing,
    }
}


/// Takes the popup out of `app`, leaving `Mode::Normal` in its place.
pub fn take_mode(app: &mut App) -> (m: Mode)
    ensures
        m == old(app).mode,
        *final(app) == (App { mode: Mode::Normal, ..*old(app) }),
{
    let mut m = Mode::Normal;
    std::mem::swap(&mut m, &mut app.mode);
    m
}

/// Whether `key` confirms a `y`-to-confirm prompt.
pub open spec fn is_yes(key: Key) -> bool {
    key == Key::Char('y') || key == Key::Char('Y')
}

/// Keys of the delete confirmation: `y` asks to delete, anything else
/// cancels; either way the popup closes.
pub fn confirm_delete_key(app: &mut App, key: Key) -> (e: Effect)
    ensures
        match old(app).mode {
            Mode::ConfirmDeleteProfile { slug, name } => *final(app) == (App { mode: Mode::Normal, ..*old(app) })
                && if is_yes(key) {
                e matches Effect::DeleteProfile { slug: s, name: n } && s == slug && n == name
            } else {
                e is Nothing
            },
            _ => *final(app) == *old(app) && e is Nothing,
        },
{
    let m = take_mode(app);
    match m {
        Mode::ConfirmDeleteProfile { slug, name } => {
            if key == Key::Char('y') || key == Key::Char('Y') {
                Effect::DeleteProfile { slug, name }
            } else {
                Effect::Nothing
            }
        },
        other => {
            app.mode = other;
            Effect::Nothing
        },
    }
}

/// Keys of the winetricks confirmation: `y` asks to run it, anything else
/// cancels; either way the popup closes.
pub fn confirm_winetricks_key(app: &mut App, key: Key) -> (e: Effect)
    ensures
        match old(app).mode {
            Mode::ConfirmWinetricks { slug, name } => *final(app) == (App { mode: Mode::Normal, ..*old(app) })
                && if is_yes(key) {
                e matches Effect::Winetricks { slug: s, name: n } && s == slug && n == name
            } else {
                e is Nothing
            },
            _ => *final(app) == *old(app) && e is Nothing,
        },
{
    let m = take_mode(app);
    match m {
        Mode::ConfirmWinetricks { slug, name } => {
            if key == Key::Char('y') || key == Key::Char('Y') {
                Effect::Winetricks { slug, name }
            } else {
                Effect::Nothing
            }
        },
        other => {
            app.mode = other;
            Effect::Nothing
        },
    }
}

/// What a key does in the add-to-Steam popup.
pub open spec fn confirm_steam_spec(a: App, b: App, key: Key, e: Effect) -> bool {
    match a.mode {
        Mode::ConfirmAddToSteam { slug, name, selected } => match key {
            Key::Up | Key::Down => (b.mode matches Mode::ConfirmAddToSteam { slug: s, name: n, selected: t }
                && s == slug && n == name && t == move_selection_spec(
                selected as int,
                3,
                if key is Up {
                    -1
                } else {
                    1
                },
            )) && b == (App { mode: b.mode, ..a }) && e is Nothing,
            Key::Enter => b == (App { mode: Mode::Normal, ..a }) && if selected < 2 {
                e matches Effect::AddToSteam { slug: s, name: n, with_gamescope_flags: g } && s == slug && n
                    == name && g == (selected == 1)
            } else {
                e is Nothing
            },
            Key::Esc => b == (App { mode: Mode::Normal, ..a }) && e is Nothing,
            _ => b == a && e is Nothing,
        },
        _ => b == a && e is Nothing,
    }
}

/// Keys of the add-to-Steam popup: Up/Down move among its three rows,
/// Enter runs the highlighted one (add, add with gamescope flags, or
/// cancel) and Esc cancels.
pub fn confirm_add_to_steam_key(app: &mut App, key: Key) -> (e: Effect)
    ensures
        confirm_steam_spec(*old(app), *final(app), key, e),
{
    let m = take_mode(app);
    match m {
        Mode::ConfirmAddToSteam { slug, name, selected } => match key {
            Key::Up | Key::Down => {
                let delta: isize = if key == Key::Up {
                    -1
                } else {
                    1
                };
                let options = CONFIRM_ADD_TO_STEAM_OPTIONS;
                let t = move_selection(selected, options.len(), delta);
                app.mode = Mode::ConfirmAddToSteam { slug, name, selected: t };
                Effect::Nothing
            },
            Key::Enter => {
                if selected == 0 {
                    Effect::AddToSteam { slug, name, with_gamescope_flags: false }
                } else if selected == 1 {
                    Effect::AddToSteam { slug, name, with_gamescope_flags: true }
                } else {
                    Effect::Nothing
                }
            },
            Key::Esc => Effect::Nothing,
            _ => {
                app.mode = Mode::ConfirmAddToSteam { slug, name, selected };
                Effect::Nothing
            },
        },
        other => {
            app.mode = other;
            Effect::Nothing
        },
    }
}

/// How sending a game to Steam went.
pub enum SteamOutcome {
    /// The profile was no longer in the library.
    ProfileMissing,
    /// Sent; with the slugs Steam lists afterwards, when they could be read.
    Sent(Option<Vec<String>>),
    Failed(String),
}

/// Reports how adding `name` to Steam went, taking the fresh list of slugs
/// already in Steam when there is one.
pub fn finish_add_to_steam(app: &mut App, name: &str, outcome: SteamOutcome)
    ensures
        match outcome {
            SteamOutcome::ProfileMissing => opt_view(final(app).status) == Some(
                "couldn't find profile \""@ + name@ + "\" to add"@,
            ) && *final(app) == (App { status: final(app).status, ..*old(app) }),
            SteamOutcome::Sent(fresh) => opt_view(final(app).status) == Some(
                "Sent \""@ + name@ + "\" to Steam — check your Steam library."@,
            ) && *final(app) == (App { status: final(app).status, steam_slugs: final(app).steam_slugs, ..*old(app) })
                && final(app).steam_slugs@ == match fresh {
                Some(v) => v@,
                None => old(app).steam_slugs@,
            },
            SteamOutcome::Failed(err) => opt_view(final(app).status) == Some(
                "couldn't add \""@ + name@ + "\" to Steam: "@ + err@,
            ) && *final(app) == (App { status: final(app).status, ..*old(app) }),
        },
{
    match outcome {
        SteamOutcome::ProfileMissing => {
            app.status = Some(concat3("couldn't find profile \"", name, "\" to add"));
        },
        SteamOutcome::Sent(fresh) => {
            if let Some(v) = fresh {
                app.steam_slugs = v;
            }
            app.status = Some(concat3("Sent \"", name, "\" to Steam — check your Steam library."));
        },
        SteamOutcome::Failed(err) => {
            let head = concat3("couldn't add \"", name, "\" to Steam: ");
            app.status = Some(concat(head.as_str(), err.as_str()));
        },
    }
}

/// How deleting a profile's folder went.
pub enum DeleteOutcome {
    /// The profiles directory could not be named.
    DirUnresolved(String),
    Deleted,
    /// There was no such folder any more.
    AlreadyGone,
    Failed(String),
}

/// The status line a delete outcome leads to.
pub open spec fn delete_message(name: Seq<char>, outcome: DeleteOutcome) -> Seq<char> {
    match outcome {
        DeleteOutcome::DirUnresolved(err) => "couldn't resolve profiles dir: "@ + err@,
        DeleteOutcome::Deleted => "Deleted \""@ + name + "\"."@,
        DeleteOutcome::AlreadyGone => "\""@ + name + "\" was already gone."@,
        DeleteOutcome::Failed(err) => "couldn't delete \""@ + name + "\": "@ + err@,
    }
}

/// Reports how deleting profile `slug` (named `name`) went. After a delete,
/// or when it was already gone, the library is reloaded (`loaded`), and a
/// deleted profile's editor is closed.
pub fn finish_delete(
    app: &mut App,
    slug: &str,
    name: &str,
    outcome: DeleteOutcome,
    loaded: Result<Vec<(String, Profile)>, String>,
)
    ensures
        outcome is DirUnresolved || outcome is Failed ==> opt_view(final(app).status) == Some(
            delete_message(name@, outcome),
        ) && *final(app) == (App { status: final(app).status, ..*old(app) }),
        outcome is Deleted || outcome is AlreadyGone ==> {
            &&& match loaded {
                Ok(ps) => final(app).profiles@ == sort_by_name(ps@) && opt_view(final(app).status) == Some(
                    delete_message(name@, outcome),
                ),
                Err(err) => final(app).profiles@ == old(app).profiles@ && opt_view(final(app).status) == Some(
                    "couldn't list library: "@ + err@,
                ),
            }
            &&& final(app).library_selected == clamp_selection(
                old(app).library_selected as int,
                final(app).profiles@.len() as int,
            )
            &&& opt_view(final(app).profile_editor) == if outcome is Deleted && opt_view(old(app).profile_editor)
                == Some(slug@) {
                None
            } else {
                opt_view(old(app).profile_editor)
            }
            &&& *final(app) == (App {
                profiles: final(app).profiles,
                library_selected: final(app).library_selected,
                status: final(app).status,
                profile_editor: final(app).profile_editor,
                ..*old(app)
            })
        },
{
    match outcome {
        DeleteOutcome::DirUnresolved(err) => {
            app.status = Some(concat("couldn't resolve profiles dir: ", err.as_str()));
        },
        DeleteOutcome::Failed(err) => {
            let head = concat3("couldn't delete \"", name, "\": ");
            app.status = Some(concat(head.as_str(), err.as_str()));
        },
        DeleteOutcome::Deleted => {
            app.status = Some(concat3("Deleted \"", name, "\"."));
            let close = match &app.profile_editor {
                Some(s) => crate::text::str_eq(s.as_str(), slug),
                None => false,
            };
            if close {
                app.profile_editor = None;
            }
            app.refresh_profiles(loaded);
        },
        DeleteOutcome::AlreadyGone => {
            app.status = Some(concat3("\"", name, "\" was already gone."));
            app.refresh_profiles(loaded);
        },
    }
}

/// Whether no profile in the library launches `target` yet.
pub fn launch_is_new(app: &App, target: &str) -> (r: bool)
    ensures
        r == !exists|i: int| 0 <= i < app.profiles@.len() && (#[trigger] app.profiles@[i]).1.target_path@ == target@,
{
    let mut i: usize = 0;
    while i < app.profiles.len()
        invariant
            i <= app.profiles@.len(),
            forall|j: int| 0 <= j < i ==> (#[trigger] app.profiles@[j]).1.target_path@ != target@,
        decreases app.profiles@.len() - i,
    {
        if crate::text::str_eq(app.profiles[i].1.target_path.as_str(), target) {
            return false;
        }
        i = i + 1;
    }
    true
}

/// The status line after a launch of `label`.
pub open spec fn launch_message(label: Seq<char>, outcome: Result<(), String>) -> Seq<char> {
    match outcome {
        Ok(()) => label + " exited normally."@,
        Err(err) => label + " failed: "@ + err@,
    }
}

/// The first profile that launches `target`, if any.
pub open spec fn first_with_target(ps: Seq<(String, Profile)>, target: Seq<char>, i: int) -> bool {
    &&& 0 <= i < ps.len()
    &&& ps[i].1.target_path@ == target
    &&& forall|j: int| 0 <= j < i ==> (#[trigger] ps[j]).1.target_path@ != target
}

/// After a launch that added a new game: if the first profile that
/// launches `target` has no title yet, opens the title prompt for it.
pub fn prompt_title_if_new(app: &mut App, target: &str, is_new: bool)
    ensures
        prompt_title_spec(*old(app), *final(app), target@, is_new),
{
    if !is_new {
        return;
    }
    let ghost a = *app;
    let mut i: usize = 0;
    while i < app.profiles.len()
        invariant
            *app == a,
            a == *old(app),
            is_new,
            i <= app.profiles@.len(),
            forall|j: int| 0 <= j < i ==> (#[trigger] app.profiles@[j]).1.target_path@ != target@,
        decreases app.profiles@.len() - i,
    {
        if crate::text::str_eq(app.profiles[i].1.target_path.as_str(), target) {
            assert(first_with_target(a.profiles@, target@, i as int));
            proof {
                assert forall|k: int| first_with_target(a.profiles@, target@, k) implies k == i by {
                    if k < i {
                        assert(a.profiles@[k].1.target_path@ != target@);
                    } else if k > i {
                        assert(a.profiles@[i as int].1.target_path@ != target@);
                    }
                }
            }
            if app.profiles[i].1.title.is_none() {
                app.mode = Mode::TextInput {
                    purpose: TextInputPurpose::ProfileTitle(app.profiles[i].0.clone()),
                    buffer: String::new(),
                    cursor: 0,
                };
                assert(a.profiles@[i as int].1.title is None);
                assert(first_with_target(a.profiles@, target@, i as int) && (app.mode matches Mode::TextInput {
                    purpose,
                    buffer,
                    cursor,
                } && (purpose matches TextInputPurpose::ProfileTitle(s) && s == a.profiles@[i as int].0)
                    && buffer@.len() == 0 && cursor == 0) && *app == (App { mode: app.mode, ..a }));
                assert(exists|k: int|
                    first_with_target(a.profiles@, target@, k) && (app.mode matches Mode::TextInput {
                        purpose,
                        buffer,
                        cursor,
                    } && (purpose matches TextInputPurpose::ProfileTitle(s) && s == (#[trigger] a.profiles@[k]).0)
                        && buffer@.len() == 0 && cursor == 0) && *app == (App { mode: app.mode, ..a }));
            } else {
                assert(!exists|k: int|
                    first_with_target(a.profiles@, target@, k) && (#[trigger] a.profiles@[k]).1.title is None);
            }
            return;
        }
        i = i + 1;
    }
    proof {
        assert forall|k: int| !first_with_target(a.profiles@, target@, k) by {
            if first_with_target(a.profiles@, target@, k) {
                assert(a.profiles@[k].1.target_path@ != target@);
            }
        }
    }
}

/// Reports a finished launch of `label`, takes the fresh library and
/// running list, and, for a game that was new, opens its title prompt.
pub fn finish_launch(
    app: &mut App,
    target: &str,
    label: &str,
    is_new: bool,
    outcome: Result<(), String>,
    loaded: Result<Vec<(String, Profile)>, String>,
    listed: Result<Vec<RunningEntry>, String>,
)
    ensures
        exists|m1: App, m2: App, m3: App|
            {
                &&& opt_view(m1.status) == Some(launch_message(label@, outcome))
                &&& m1 == (App { status: m1.status, ..*old(app) })
                &&& super::app::after_refresh_profiles(m1, m2, loaded)
                &&& super::app::after_refresh_running(m2, m3, listed)
                &&& prompt_title_spec(m3, *final(app), target@, is_new)
            },
{
    let msg = match &outcome {
        Ok(()) => concat(label, " exited normally."),
        Err(err) => concat3(label, " failed: ", err.as_str()),
    };
    app.status = Some(msg);
    let ghost m1 = *app;
    app.refresh_profiles(loaded);
    let ghost m2 = *app;
    app.refresh_running(listed);
    let ghost m3 = *app;
    prompt_title_if_new(app, target, is_new);
    assert(prompt_title_spec(m3, *app, target@, is_new));
}

/// The title prompt `prompt_title_if_new` opens (or not), as a relation.
pub open spec fn prompt_title_spec(a: App, b: App, target: Seq<char>, is_new: bool) -> bool {
    if is_new && exists|i: int| first_with_target(a.profiles@, target, i) && (#[trigger] a.profiles@[i]).1.title is None {
        exists|i: int|
            first_with_target(a.profiles@, target, i) && (b.mode matches Mode::TextInput { purpose, buffer, cursor }
                && (purpose matches TextInputPurpose::ProfileTitle(s) && s == (#[trigger] a.profiles@[i]).0)
                && buffer@.len() == 0 && cursor == 0) && b == (App { mode: b.mode, ..a })
    } else {
        b == a
    }
}

/// Applies the title typed after adding a game: a blank buffer skips it;
/// otherwise the freshly loaded profile comes back with that title set,
/// ready to be saved (or the load error is reported).
pub fn apply_profile_title(app: &mut App, slug: &str, buffer: String, loaded: Result<Profile, String>) -> (r: Option<
    Profile,
>)
    ensures
        crate::text::trim_spec(buffer@).len() == 0 ==> r is None && *final(app) == *old(app),
        crate::text::trim_spec(buffer@).len() > 0 ==> match loaded {
            Ok(p) => (r matches Some(q) && opt_view(q.title) == Some(crate::text::trim_spec(buffer@)) && q == (Profile {
                title: q.title,
                ..p
            })) && *final(app) == *old(app),
            Err(_) => r is None && opt_view(final(app).status) == Some(
                "couldn't load profile \""@ + slug@ + "\" to set its title"@,
            ) && *final(app) == (App { status: final(app).status, ..*old(app) }),
        },
{
    let bv = crate::text::chars_of(buffer.as_str());
    let t = crate::text::trim(&bv);
    if t.len() == 0 {
        return None;
    }
    match loaded {
        Ok(mut p) => {
            p.title = Some(crate::text::string_of(&t));
            Some(p)
        },
        Err(_) => {
            app.status = Some(concat3("couldn't load profile \"", slug, "\" to set its title"));
            None
        },
    }
}

/// Reports saving a game's new title and, when it was saved, takes the
/// reloaded library.
pub fn finish_profile_title(
    app: &mut App,
    slug: &str,
    saved: Result<(), String>,
    loaded: Result<Vec<(String, Profile)>, String>,
)
    ensures
        match saved {
            Ok(()) => exists|m1: App|
                opt_view(m1.status) == Some("Title saved for \""@ + slug@ + "\"."@) && m1 == (App {
                    status: m1.status,
                    ..*old(app)
                }) && super::app::after_refresh_profiles(m1, *final(app), loaded),
            Err(err) => opt_view(final(app).status) == Some("couldn't save title: "@ + err@) && *final(app) == (App {
                status: final(app).status,
                ..*old(app)
            }),
        },
{
    match saved {
        Ok(()) => {
            app.status = Some(concat3("Title saved for \"", slug, "\"."));
            let ghost m1 = *app;
            app.refresh_profiles(loaded);
        },
        Err(err) => {
            app.status = Some(concat("couldn't save title: ", err.as_str()));
        },
    }
}

/// The prefix and Proton build winetricks should use for `slug`: exactly
/// what a launch of it would resolve (see `Config::effective` and
/// `prefix::resolve_with`).
pub fn winetricks_plan(app: &App, slug: &str, home: Option<&str>) -> (r: Option<(String, String)>)
    ensures
        match slot_of(app.profiles@, slug@) {
            Some(i) => r matches Some(plan) && {
                let p = app.profiles@[i].1;
                &&& plan.0@ == crate::prefix::resolve_spec(
                    app.cfg.defaults.prefix_mode,
                    crate::config::pick(p.defaults.prefix_path, app.cfg.defaults.prefix_path@),
                    app.cfg.defaults.prefixes_root@,
                    slug@,
                    match home {
                        Some(h) => Some(h@),
                        None => None,
                    },
                )
                &&& plan.1@ == if app.cfg.defaults.prefix_mode == crate::config::PrefixMode::PerSlug {
                    crate::config::pick(p.defaults.proton, app.cfg.defaults.proton@)
                } else {
                    app.cfg.defaults.proton@
                }
            },
            None => r is None,
        },
{
    match app.profile(slug) {
        Some(p) => {
            let eff = app.cfg.effective(Some(p));
            let prefix = crate::prefix::resolve_with(&eff, slug, home);
            Some((prefix, eff.proton))
        },
        None => None,
    }
}

/// How a winetricks run went.
pub enum ToolOutcome {
    Success,
    /// It ran and exited with this (non-success) status.
    Exited(String),
    /// It could not be started.
    NotStarted(String),
}

/// Reports how winetricks for `name` went.
pub fn finish_winetricks(app: &mut App, name: &str, outcome: ToolOutcome)
    ensures
        opt_view(final(app).status) == Some(
            match outcome {
                ToolOutcome::Success => "winetricks for "@ + name@ + " exited normally."@,
                ToolOutcome::Exited(status) => "winetricks for "@ + name@ + " exited with "@ + status@ + "."@,
                ToolOutcome::NotStarted(err) => "failed to launch winetricks for "@ + name@ + ": "@ + err@,
            },
        ),
        *final(app) == (App { status: final(app).status, ..*old(app) }),
{
    let msg = match outcome {
        ToolOutcome::Success => concat3("winetricks for ", name, " exited normally."),
        ToolOutcome::Exited(status) => {
            let head = concat3("winetricks for ", name, " exited with ");
            concat3(head.as_str(), status.as_str(), ".")
        },
        ToolOutcome::NotStarted(err) => {
            let head = concat3("failed to launch winetricks for ", name, ": ");
            concat(head.as_str(), err.as_str())
        },
    };
    app.status = Some(msg);
}

/// What a key does on the Library list when no quick-search is being
/// typed.
pub open spec fn library_key_spec(a: App, b: App, key: Key, e: Effect) -> bool {
    match key {
        Key::Up => library_moved(a, b, -1) && e is Nothing,
        Key::Down => library_moved(a, b, 1) && e is Nothing,
        Key::Char('a') => (b.mode matches Mode::TextInput { purpose, buffer, cursor } && purpose is AddLibraryPath
            && buffer@.len() == 0 && cursor == 0) && b == (App { mode: b.mode, ..a }) && e is Nothing,
        Key::Char('r') => b == a && e is ReloadProfiles,
        Key::Char('e') => edit_selected_spec(a, b) && e is Nothing,
        Key::Char('d') | Key::Delete => prompt_delete_spec(a, b) && e is Nothing,
        Key::Char('f') => opt_view(b.library_filter) == Some(Seq::<char>::empty()) && b == (App {
            library_filter: b.library_filter,
            library_filter_editing: true,
            library_selected: 0,
            ..a
        }) && e is Nothing,
        Key::Char('c') => b == a && copy_spec(a, e),
        Key::Char('p') => prompt_winetricks_spec(a, b) && e is Nothing,
        Key::Char('s') => prompt_steam_spec(a, b) && e is Nothing,
        Key::Enter => b == a && launch_spec(a, e),
        Key::Esc => (if a.library_filter is Some {
            b == (App { library_filter: None, library_filter_editing: false, library_selected: 0, ..a })
        } else {
            b == a
        }) && e is Nothing,
        _ => b == a && e is Nothing,
    }
}

/// A key on the Library tab: the open profile editor takes it first, then
/// a quick-search being typed, then the list itself.
pub fn on_key(app: &mut App, key: Key) -> (e: Effect)
    ensures
        if old(app).profile_editor is Some {
            super::profile_editor::editor_key_spec(*old(app), *final(app), key, e)
        } else if old(app).library_filter_editing {
            library_filter_key_spec(*old(app), *final(app), key) && e is Nothing
        } else {
            library_key_spec(*old(app), *final(app), key, e)
        },
{
    if app.profile_editor.is_some() {
        return super::profile_editor::on_key(app, key);
    }
    if app.library_filter_editing {
        filter_key(app, key);
        return Effect::Nothing;
    }
    match key {
        Key::Up => {
            let len = app.filtered_profile_indices().len();
            app.library_selected = move_selection(app.library_selected, len, -1);
            Effect::Nothing
        },
        Key::Down => {
            let len = app.filtered_profile_indices().len();
            app.library_selected = move_selection(app.library_selected, len, 1);
            Effect::Nothing
        },
        Key::Char('a') => {
            app.mode = Mode::TextInput { purpose: TextInputPurpose::AddLibraryPath, buffer: String::new(), cursor: 0 };
            Effect::Nothing
        },
        Key::Char('r') => Effect::ReloadProfiles,
        Key::Char('e') => {
            edit_selected(app);
            Effect::Nothing
        },
        Key::Char('d') | Key::Delete => {
            prompt_delete_selected(app);
            Effect::Nothing
        },
        Key::Char('f') => {
            start_filter(app);
            Effect::Nothing
        },
        Key::Char('c') => copy_quick_launch(app),
        Key::Char('p') => {
            prompt_winetricks(app);
            Effect::Nothing
        },
        Key::Char('s') => {
            prompt_add_to_steam(app);
            Effect::Nothing
        },
        Key::Enter => launch_selected(app),
        Key::Esc => {
            if app.library_filter.is_some() {
                app.clear_library_filter();
            }
            Effect::Nothing
        },
        _ => Effect::Nothing,
    }
}

} // verus!
