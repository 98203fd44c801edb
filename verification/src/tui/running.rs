//! The Running tab: the list of running games, its quick-search, and
//! stopping a game.
use super::app::{
    matching_indices, move_selection, move_selection_spec, popped_view, pushed_view, running_names, App, Effect, Key,
};
use crate::config::opt_view;
use crate::running::RunningEntry;
use vstd::prelude::*;

verus! {

/// The indices into `running` of the rows the tab shows.
pub open spec fn shown_running(a: App) -> Seq<usize> {
    matching_indices(running_names(a.running@), a.running_filter)
}

/// The index into `running` of the selected row, if the selection is on a
/// row.
pub open spec fn selected_running(a: App) -> Option<int> {
    if (a.running_selected as int) < shown_running(a).len() {
        Some(shown_running(a)[a.running_selected as int] as int)
    } else {
        None
    }
}

/// `b` is `a` with the selection moved by `delta` within the shown rows.
pub open spec fn running_moved(a: App, b: App, delta: int) -> bool {
    b == (App {
        running_selected: move_selection_spec(a.running_selected as int, shown_running(a).len() as int, delta) as usize,
        ..a
    })
}

/// What a key does while the quick-search is being typed: text keys edit
/// it, Up/Down move within the matches, Esc drops it, Enter or Delete lock
/// it.
pub open spec fn filter_key_spec(a: App, b: App, key: Key) -> bool {
    match key {
        Key::Esc => b == (App { running_filter: None, running_filter_editing: false, running_selected: 0, ..a }),
        Key::Backspace => opt_view(b.running_filter) == popped_view(a.running_filter) && b == (App {
            running_filter: b.running_filter,
            running_selected: 0,
            ..a
        }),
        Key::Char(c) => opt_view(b.running_filter) == pushed_view(a.running_filter, c) && b == (App {
            running_filter: b.running_filter,
            running_selected: 0,
            ..a
        }),
        Key::Up => running_moved(a, b, -1),
        Key::Down => running_moved(a, b, 1),
        Key::Enter | Key::Delete => b == (App { running_filter_editing: false, ..a }),
        _ => b == a,
    }
}

/// The effect of stopping the selected game: its launch id and name, or
/// nothing when no row is selected.
pub open spec fn kill_effect(a: App, e: Effect) -> bool {
    match selected_running(a) {
        Some(i) => e matches Effect::Kill { launch_id, name } && launch_id == a.running@[i].launch_id && name
            == a.running@[i].name,
        None => e is Nothing,
    }
}

/// What a key does on the Running tab when no quick-search is being typed.
pub open spec fn normal_key_spec(a: App, b: App, key: Key, e: Effect) -> bool {
    match key {
        Key::Up => running_moved(a, b, -1) && e is Nothing,
        Key::Down => running_moved(a, b, 1) && e is Nothing,
        Key::Char('r') => b == a && e is ReloadRunning,
        Key::Char('f') => opt_view(b.running_filter) == Some(Seq::<char>::empty()) && b == (App {
            running_filter: b.running_filter,
            running_filter_editing: true,
            running_selected: 0,
            ..a
        }) && e is Nothing,
        Key::Enter | Key::Char('k') | Key::Delete => b == a && kill_effect(a, e),
        Key::Esc => (if a.running_filter is Some {
            b == (App { running_filter: None, running_filter_editing: false, running_selected: 0, ..a })
        } else {
            b == a
        }) && e is Nothing,
        _ => b == a && e is Nothing,
    }
}

pub fn on_key(app: &mut App, key: Key) -> (e: Effect)
    ensures
        if old(app).running_filter_editing {
            filter_key_spec(*old(app), *final(app), key) && e is Nothing
        } else {
            normal_key_spec(*old(app), *final(app), key, e)
        },
{
    if app.running_filter_editing {
        filter_key(app, key);
        return Effect::Nothing;
    }
    match key {
        Key::Up => {
            let len = app.filtered_running_indices().len();
            app.running_selected = move_selection(app.running_selected, len, -1);
            Effect::Nothing
        },
        Key::Down => {
            let len = app.filtered_running_indices().len();
            app.running_selected = move_selection(app.running_selected, len, 1);
            Effect::Nothing
        },
        Key::Char('r') => Effect::ReloadRunning,
        Key::Char('f') => {
            start_filter(app);
            Effect::Nothing
        },
        Key::Enter | Key::Char('k') | Key::Delete => kill_selected(app),
        Key::Esc => {
            if app.running_filter.is_some() {
                app.clear_running_filter();
            }
            Effect::Nothing
        },
        _ => Effect::Nothing,
    }
}

/// `f`: starts an empty quick-search and selects its first row.
pub fn start_filter(app: &mut App)
    ensures
        opt_view(final(app).running_filter) == Some(Seq::<char>::empty()),
        *final(app) == (App {
            running_filter: final(app).running_filter,
            running_filter_editing: true,
            running_selected: 0,
            ..*old(app)
        }),
{
    app.running_filter = Some(String::new());
    app.running_filter_editing = true;
    app.running_selected = 0;
}

/// A key while the quick-search is being typed.
pub fn filter_key(app: &mut App, key: Key)
    ensures
        filter_key_spec(*old(app), *final(app), key),
{
    match key {
        Key::Esc => {
            app.running_filter = None;
            app.running_filter_editing = false;
            app.running_selected = 0;
        },
        Key::Backspace => {
            app.running_filter = super::app::pop_filter(&app.running_filter);
            app.running_selected = 0;
        },
        Key::Char(c) => {
            app.running_filter = super::app::push_filter(&app.running_filter, c);
            app.running_selected = 0;
        },
        Key::Up => {
            let len = app.filtered_running_indices().len();
            app.running_selected = move_selection(app.running_selected, len, -1);
        },
        Key::Down => {
            let len = app.filtered_running_indices().len();
            app.running_selected = move_selection(app.running_selected, len, 1);
        },
        Key::Enter | Key::Delete => app.running_filter_editing = false,
        _ => {},
    }
}

/// Asks to stop the selected game (looked up through the shown rows).
pub fn kill_selected(app: &App) -> (e: Effect)
    ensures
        kill_effect(*app, e),
{
    let indices = app.filtered_running_indices();
    let n = app.running.len();
    assert(running_names(app.running@).len() == n);
    proof {
        super::app::lemma_matching_indices_in_range(running_names(app.running@), app.running_filter);
    }
    if app.running_selected >= indices.len() {
        return Effect::Nothing;
    }
    let ix: usize = indices[app.running_selected];
    assert(ix < running_names(app.running@).len());
    let entry: &RunningEntry = &app.running[ix];
    Effect::Kill { launch_id: entry.launch_id.clone(), name: entry.name.clone() }
}

/// The status line after stopping `name`.
pub open spec fn kill_message(name: Seq<char>, outcome: Result<(), String>) -> Seq<char> {
    match outcome {
        Ok(()) => "Killed "@ + name + "."@,
        Err(err) => "Failed to kill "@ + name + ": "@ + err@,
    }
}

/// Reports how stopping `name` went, then takes the fresh listing of the
/// running games.
pub fn finish_kill(app: &mut App, name: &str, outcome: Result<(), String>, listed: Result<Vec<RunningEntry>, String>)
    ensures
        match listed {
            Ok(es) => final(app).running@ == es@ && opt_view(final(app).status) == Some(kill_message(name@, outcome)),
            Err(err) => final(app).running@ == old(app).running@ && opt_view(final(app).status) == Some(
                "couldn't list running games: "@ + err@,
            ),
        },
        final(app).running_selected == super::app::clamp_selection(
            old(app).running_selected as int,
            final(app).running@.len() as int,
        ),
        *final(app) == (App {
            running: final(app).running,
            running_selected: final(app).running_selected,
            status: final(app).status,
            ..*old(app)
        }),
{
    let msg = match &outcome {
        Ok(()) => crate::text::concat3("Killed ", name, "."),
        Err(err) => {
            let head = crate::text::concat3("Failed to kill ", name, ": ");
            crate::text::concat(head.as_str(), err.as_str())
        },
    };
    app.status = Some(msg);
    app.refresh_running(listed);
}

} // verus!
