//! The Library tab's profile editor: one row per field of a profile, and
//! everything a confirmed edit does (including renaming a profile's slug).
use super::app::{
    lemma_remove_insert, move_selection, move_selection_spec, optional_bool_after, profile_gamescope_setting_after,
    profile_record_mode_after, profile_slot, replaced_profile, slot_of, App, Effect, FieldKind, Key, MapField, Mode,
    ProfileField, ProtonPickerTarget, TextInputPurpose,
};
use crate::config::{opt_view, GamescopeSettings, Profile, ProfileDefaults, ProfileLogging};
use crate::launch::{cand_name, cand_slug};
use crate::text::{concat, concat3};
use vstd::prelude::*;

verus! {

// ---------------------------------------------------------------------------
// Free names and slugs
// ---------------------------------------------------------------------------

/// `x` equals some candidate from number `n` on.
pub open spec fn hits_ahead(x: Seq<char>, cand: spec_fn(nat) -> Seq<char>, n: nat) -> bool {
    exists|m: nat| m >= n && m >= 1 && x == #[trigger] cand(m)
}

/// How many entries (other than those with slug `excl`) can still collide
/// with a candidate from number `n` on. Each entry is a (slug, compared
/// text) pair.
pub open spec fn count_ahead(
    es: Seq<(Seq<char>, Seq<char>)>,
    excl: Seq<char>,
    cand: spec_fn(nat) -> Seq<char>,
    n: nat,
) -> nat
    decreases es.len(),
{
    if es.len() == 0 {
        0
    } else {
        count_ahead(es.drop_last(), excl, cand, n) + if es.last().0 != excl && hits_ahead(es.last().1, cand, n) {
            1nat
        } else {
            0nat
        }
    }
}

/// Candidate `n` is already used by an entry other than `excl`'s.
pub open spec fn cand_taken(
    es: Seq<(Seq<char>, Seq<char>)>,
    excl: Seq<char>,
    cand: spec_fn(nat) -> Seq<char>,
    n: nat,
) -> bool {
    exists|i: int| 0 <= i < es.len() && es[i].0 != excl && #[trigger] es[i].1 == cand(n)
}

/// Candidate `k` is the first free one.
pub open spec fn first_free_cand(
    es: Seq<(Seq<char>, Seq<char>)>,
    excl: Seq<char>,
    cand: spec_fn(nat) -> Seq<char>,
    k: nat,
) -> bool {
    &&& k >= 1
    &&& !cand_taken(es, excl, cand, k)
    &&& forall|m: nat| 1 <= m < k ==> #[trigger] cand_taken(es, excl, cand, m)
}

/// Distinct candidate numbers give distinct candidates.
pub open spec fn cand_injective(cand: spec_fn(nat) -> Seq<char>) -> bool {
    forall|a: nat, b: nat| a >= 1 && b >= 1 && #[trigger] cand(a) == #[trigger] cand(b) ==> a == b
}

proof fn lemma_count_bound(es: Seq<(Seq<char>, Seq<char>)>, excl: Seq<char>, cand: spec_fn(nat) -> Seq<char>, n: nat)
    ensures
        count_ahead(es, excl, cand, n) <= es.len(),
    decreases es.len(),
{
    if es.len() > 0 {
        lemma_count_bound(es.drop_last(), excl, cand, n);
    }
}

proof fn lemma_count_monotone(
    es: Seq<(Seq<char>, Seq<char>)>,
    excl: Seq<char>,
    cand: spec_fn(nat) -> Seq<char>,
    n: nat,
)
    ensures
        count_ahead(es, excl, cand, n + 1) <= count_ahead(es, excl, cand, n),
    decreases es.len(),
{
    if es.len() > 0 {
        lemma_count_monotone(es.drop_last(), excl, cand, n);
        if hits_ahead(es.last().1, cand, (n + 1) as nat) {
            let m = choose|m: nat| m >= n + 1 && m >= 1 && es.last().1 == #[trigger] cand(m);
            assert(hits_ahead(es.last().1, cand, n));
        }
    }
}

/// Moving past a taken candidate strictly lowers the count ahead.
proof fn lemma_count_drop(
    es: Seq<(Seq<char>, Seq<char>)>,
    excl: Seq<char>,
    cand: spec_fn(nat) -> Seq<char>,
    n: nat,
    i: int,
)
    requires
        n >= 1,
        cand_injective(cand),
        0 <= i < es.len(),
        es[i].0 != excl,
        es[i].1 == cand(n),
    ensures
        count_ahead(es, excl, cand, n + 1) < count_ahead(es, excl, cand, n),
    decreases es.len(),
{
    let last = es.last();
    if hits_ahead(last.1, cand, (n + 1) as nat) {
        let m = choose|m: nat| m >= n + 1 && m >= 1 && last.1 == #[trigger] cand(m);
        assert(hits_ahead(last.1, cand, n));
    }
    if i == es.len() - 1 {
        lemma_count_monotone(es.drop_last(), excl, cand, n);
        assert(hits_ahead(last.1, cand, n));
        if hits_ahead(last.1, cand, (n + 1) as nat) {
            let m = choose|m: nat| m >= n + 1 && m >= 1 && last.1 == #[trigger] cand(m);
            assert(cand(m) == cand(n));
        }
    } else {
        assert(es.drop_last()[i] == es[i]);
        lemma_count_drop(es.drop_last(), excl, cand, n, i);
    }
}

/// (slug, name) of each profile.
pub open spec fn slug_name_pairs(ps: Seq<(String, Profile)>) -> Seq<(Seq<char>, Seq<char>)> {
    ps.map_values(|e: (String, Profile)| (e.0@, e.1.name@))
}

/// (slug, slug) of each profile.
pub open spec fn slug_slug_pairs(ps: Seq<(String, Profile)>) -> Seq<(Seq<char>, Seq<char>)> {
    ps.map_values(|e: (String, Profile)| (e.0@, e.0@))
}

pub open spec fn name_cands(base: Seq<char>) -> spec_fn(nat) -> Seq<char> {
    |m: nat| cand_name(base, m)
}

pub open spec fn slug_cands(base: Seq<char>) -> spec_fn(nat) -> Seq<char> {
    |m: nat| cand_slug(base, m)
}

proof fn lemma_cands_injective(base: Seq<char>)
    ensures
        cand_injective(name_cands(base)),
        cand_injective(slug_cands(base)),
{
    assert forall|a: nat, b: nat| a >= 1 && b >= 1 && #[trigger] name_cands(base)(a) == #[trigger] name_cands(
        base,
    )(b) implies a == b by {
        crate::launch::lemma_cand_name_injective(base, a, b);
    }
    assert forall|a: nat, b: nat| a >= 1 && b >= 1 && #[trigger] slug_cands(base)(a) == #[trigger] slug_cands(
        base,
    )(b) implies a == b by {
        crate::launch::lemma_cand_slug_injective(base, a, b);
    }
}

/// Whether a profile other than `exclude_slug`'s uses `text` as its name
/// (`by_name`) or as its slug.
fn used_elsewhere(profiles: &Vec<(String, Profile)>, exclude_slug: &str, text: &str, by_name: bool) -> (r: bool)
    ensures
        r == exists|i: int|
            0 <= i < profiles@.len() && (#[trigger] profiles@[i]).0@ != exclude_slug@ && (if by_name {
                profiles@[i].1.name@
            } else {
                profiles@[i].0@
            }) == text@,
{
    let mut i: usize = 0;
    while i < profiles.len()
        invariant
            i <= profiles@.len(),
            forall|j: int|
                0 <= j < i ==> !((#[trigger] profiles@[j]).0@ != exclude_slug@ && (if by_name {
                    profiles@[j].1.name@
                } else {
                    profiles@[j].0@
                }) == text@),
        decreases profiles@.len() - i,
    {
        let other = !crate::text::str_eq(profiles[i].0.as_str(), exclude_slug);
        let same = if by_name {
            crate::text::str_eq(profiles[i].1.name.as_str(), text)
        } else {
            crate::text::str_eq(profiles[i].0.as_str(), text)
        };
        if other && same {
            return true;
        }
        i = i + 1;
    }
    false
}

/// The first name `base#1`, `base#2`, ... that no other profile (any but
/// `exclude_slug`'s) already has; a gap left by a deleted or renamed
/// profile is reused.
pub fn next_available_name(base: &str, profiles: &Vec<(String, Profile)>, exclude_slug: &str) -> (r: String)
    ensures
        exists|k: nat|
            first_free_cand(slug_name_pairs(profiles@), exclude_slug@, name_cands(base@), k) && r@ == cand_name(
                base@,
                k,
            ),
{
    let ghost es = slug_name_pairs(profiles@);
    let ghost cand = name_cands(base@);
    proof {
        lemma_cands_injective(base@);
        lemma_count_bound(es, exclude_slug@, cand, 1);
    }
    let total = profiles.len();
    let mut n: u128 = 1;
    let mut candidate = crate::launch::make_cand_name(base, n);
    while used_elsewhere(profiles, exclude_slug, candidate.as_str(), true)
        invariant
            n >= 1,
            es == slug_name_pairs(profiles@),
            cand == name_cands(base@),
            cand_injective(cand),
            profiles@.len() <= usize::MAX,
            candidate@ == cand_name(base@, n as nat),
            forall|m: nat| 1 <= m < n ==> #[trigger] cand_taken(es, exclude_slug@, cand, m),
            n + count_ahead(es, exclude_slug@, cand, n as nat) <= profiles@.len() + 1,
        decreases count_ahead(es, exclude_slug@, cand, n as nat),
    {
        let ghost i = choose|i: int|
            0 <= i < profiles@.len() && (#[trigger] profiles@[i]).0@ != exclude_slug@ && profiles@[i].1.name@
                == candidate@;
        proof {
            assert(es[i] == (profiles@[i].0@, profiles@[i].1.name@));
            assert(cand(n as nat) == cand_name(base@, n as nat));
            lemma_count_drop(es, exclude_slug@, cand, n as nat, i);
        }
        n = n + 1;
        candidate = crate::launch::make_cand_name(base, n);
        proof {
            assert forall|m: nat| 1 <= m < n implies #[trigger] cand_taken(es, exclude_slug@, cand, m) by {
                if m == n - 1 {
                    assert(es[i].1 == cand(m));
                }
            }
        }
    }
    proof {
        assert(cand(n as nat) == cand_name(base@, n as nat));
        if cand_taken(es, exclude_slug@, cand, n as nat) {
            let i = choose|i: int| 0 <= i < es.len() && es[i].0 != exclude_slug@ && #[trigger] es[i].1 == cand(n as nat);
            assert(profiles@[i].0@ != exclude_slug@ && profiles@[i].1.name@ == candidate@);
        }
        assert(first_free_cand(es, exclude_slug@, cand, n as nat));
    }
    candidate
}

/// The first slug `sanitized`, `sanitized-2`, `sanitized-3`, ... that no
/// other profile (any but `exclude_slug`'s) already has.
pub fn next_available_slug(sanitized: &str, profiles: &Vec<(String, Profile)>, exclude_slug: &str) -> (r: String)
    ensures
        exists|k: nat|
            first_free_cand(slug_slug_pairs(profiles@), exclude_slug@, slug_cands(sanitized@), k) && r@ == cand_slug(
                sanitized@,
                k,
            ),
{
    let ghost es = slug_slug_pairs(profiles@);
    let ghost cand = slug_cands(sanitized@);
    proof {
        lemma_cands_injective(sanitized@);
        lemma_count_bound(es, exclude_slug@, cand, 1);
    }
    let total = profiles.len();
    let mut n: u128 = 1;
    let mut candidate = crate::launch::make_cand_slug(sanitized, n);
    while used_elsewhere(profiles, exclude_slug, candidate.as_str(), false)
        invariant
            n >= 1,
            es == slug_slug_pairs(profiles@),
            cand == slug_cands(sanitized@),
            cand_injective(cand),
            profiles@.len() <= usize::MAX,
            candidate@ == cand_slug(sanitized@, n as nat),
            forall|m: nat| 1 <= m < n ==> #[trigger] cand_taken(es, exclude_slug@, cand, m),
            n + count_ahead(es, exclude_slug@, cand, n as nat) <= profiles@.len() + 1,
        decreases count_ahead(es, exclude_slug@, cand, n as nat),
    {
        let ghost i = choose|i: int|
            0 <= i < profiles@.len() && (#[trigger] profiles@[i]).0@ != exclude_slug@ && profiles@[i].0@ == candidate@;
        proof {
            assert(es[i] == (profiles@[i].0@, profiles@[i].0@));
            assert(cand(n as nat) == cand_slug(sanitized@, n as nat));
            lemma_count_drop(es, exclude_slug@, cand, n as nat, i);
        }
        n = n + 1;
        candidate = crate::launch::make_cand_slug(sanitized, n);
        proof {
            assert forall|m: nat| 1 <= m < n implies #[trigger] cand_taken(es, exclude_slug@, cand, m) by {
                if m == n - 1 {
                    assert(es[i].1 == cand(m));
                }
            }
        }
    }
    proof {
        assert(cand(n as nat) == cand_slug(sanitized@, n as nat));
        if cand_taken(es, exclude_slug@, cand, n as nat) {
            let i = choose|i: int| 0 <= i < es.len() && es[i].0 != exclude_slug@ && #[trigger] es[i].1 == cand(n as nat);
            assert(profiles@[i].0@ != exclude_slug@ && profiles@[i].0@ == candidate@);
        }
        assert(first_free_cand(es, exclude_slug@, cand, n as nat));
    }
    candidate
}

// ---------------------------------------------------------------------------
// Field values
// ---------------------------------------------------------------------------

/// An optional text as shown in its edit popup (blank when unset).
pub open spec fn opt_text(o: Option<String>) -> Seq<char> {
    match o {
        Some(s) => s@,
        None => Seq::empty(),
    }
}

/// An optional number as shown in its edit popup (blank when unset).
pub open spec fn num_text(o: Option<u32>) -> Seq<char> {
    match o {
        Some(v) => crate::text::decimal(v as nat),
        None => Seq::empty(),
    }
}

/// The text a field's edit popup starts with: the slug itself, or the
/// profile's current value (the name without its `#N`, the arguments
/// joined by spaces, blank for an unset override or a missing profile).
pub open spec fn profile_text_value(a: App, slug: Seq<char>, field: ProfileField) -> Seq<char> {
    if field == ProfileField::Slug {
        slug
    } else {
        match slot_of(a.profiles@, slug) {
            None => Seq::empty(),
            Some(i) => {
                let p = a.profiles@[i].1;
                let gs = p.defaults.gamescope_settings;
                match field {
                    ProfileField::TargetPath => p.target_path@,
                    ProfileField::Name => crate::config::name_base_spec(p.name@),
                    ProfileField::Title => opt_text(p.title),
                    ProfileField::Args => crate::text::join_spec(p.args@.map_values(|s: String| s@), " "@),
                    ProfileField::PrefixPath => opt_text(p.defaults.prefix_path),
                    ProfileField::WindowsVersion => opt_text(p.defaults.windows_version),
                    ProfileField::LogKeep => num_text(p.logging.keep),
                    ProfileField::GamescopeOutputWidth => num_text(gs.output_width),
                    ProfileField::GamescopeOutputHeight => num_text(gs.output_height),
                    ProfileField::GamescopeRefresh => num_text(gs.refresh),
                    ProfileField::GamescopeNestedWidth => num_text(gs.nested_width),
                    ProfileField::GamescopeNestedHeight => num_text(gs.nested_height),
                    ProfileField::LaunchWrapper => opt_text(p.defaults.launch_wrapper),
                    _ => Seq::empty(),
                }
            },
        }
    }
}

fn opt_text_of(o: &Option<String>) -> (r: String)
    ensures
        r@ == opt_text(*o),
{
    match o {
        Some(s) => s.clone(),
        None => String::new(),
    }
}

fn num_text_of(o: Option<u32>) -> (r: String)
    ensures
        r@ == num_text(o),
{
    match o {
        Some(v) => crate::text::u64_to_string(v as u64),
        None => String::new(),
    }
}

fn joined_args(args: &Vec<String>) -> (r: String)
    ensures
        r@ == crate::text::join_spec(args@.map_values(|s: String| s@), " "@),
{
    let mut vv: Vec<Vec<char>> = Vec::new();
    let mut i: usize = 0;
    while i < args.len()
        invariant
            i <= args@.len(),
            vv@.len() == i,
            forall|k: int| 0 <= k < i ==> (#[trigger] vv@[k])@ == args@[k]@,
        decreases args@.len() - i,
    {
        vv.push(crate::text::chars_of(args[i].as_str()));
        i = i + 1;
    }
    assert(crate::text::views(vv@) =~= args@.map_values(|s: String| s@));
    let sep = crate::text::chars_of(" ");
    let j = crate::text::join(&vv, &sep);
    crate::text::string_of(&j)
}

/// The text a field's edit popup starts with.
pub fn current_text_value(app: &App, slug: &str, field: ProfileField) -> (r: String)
    ensures
        r@ == profile_text_value(*app, slug@, field),
{
    if field == ProfileField::Slug {
        return slug.to_string();
    }
    let p = match app.profile(slug) {
        Some(p) => p,
        None => return String::new(),
    };
    let gs = p.defaults.gamescope_settings;
    match field {
        ProfileField::TargetPath => p.target_path.clone(),
        ProfileField::Name => crate::config::name_base(p.name.as_str()),
        ProfileField::Title => opt_text_of(&p.title),
        ProfileField::Args => joined_args(&p.args),
        ProfileField::PrefixPath => opt_text_of(&p.defaults.prefix_path),
        ProfileField::WindowsVersion => opt_text_of(&p.defaults.windows_version),
        ProfileField::LogKeep => num_text_of(p.logging.keep),
        ProfileField::GamescopeOutputWidth => num_text_of(gs.output_width),
        ProfileField::GamescopeOutputHeight => num_text_of(gs.output_height),
        ProfileField::GamescopeRefresh => num_text_of(gs.refresh),
        ProfileField::GamescopeNestedWidth => num_text_of(gs.nested_width),
        ProfileField::GamescopeNestedHeight => num_text_of(gs.nested_height),
        ProfileField::LaunchWrapper => opt_text_of(&p.defaults.launch_wrapper),
        _ => String::new(),
    }
}

// ---------------------------------------------------------------------------
// Cycling fields
// ---------------------------------------------------------------------------

/// `p` with a cycling field moved to its next state.
pub open spec fn profile_cycled(p: Profile, field: ProfileField) -> Profile {
    let d = p.defaults;
    let gs = d.gamescope_settings;
    let l = p.logging;
    match field {
        ProfileField::LogRecord => Profile {
            logging: ProfileLogging { record: profile_record_mode_after(l.record), ..l },
            ..p
        },
        ProfileField::LogAutoOpen => Profile {
            logging: ProfileLogging { auto_open: optional_bool_after(l.auto_open), ..l },
            ..p
        },
        ProfileField::Gamescope => Profile {
            defaults: ProfileDefaults { gamescope: profile_gamescope_setting_after(d.gamescope), ..d },
            ..p
        },
        ProfileField::GamescopeFilter => Profile {
            defaults: ProfileDefaults {
                gamescope_settings: GamescopeSettings {
                    filter: super::app::gamescope_filter_after(gs.filter),
                    ..gs
                },
                ..d
            },
            ..p
        },
        ProfileField::GamescopeScaler => Profile {
            defaults: ProfileDefaults {
                gamescope_settings: GamescopeSettings {
                    scaler: super::app::gamescope_scaler_after(gs.scaler),
                    ..gs
                },
                ..d
            },
            ..p
        },
        ProfileField::GamescopeBorderless => Profile {
            defaults: ProfileDefaults {
                gamescope_settings: GamescopeSettings { borderless: optional_bool_after(gs.borderless), ..gs },
                ..d
            },
            ..p
        },
        ProfileField::GamescopeGrabCursor => Profile {
            defaults: ProfileDefaults {
                gamescope_settings: GamescopeSettings { grab_cursor: optional_bool_after(gs.grab_cursor), ..gs },
                ..d
            },
            ..p
        },
        ProfileField::GamescopeAdaptiveSync => Profile {
            defaults: ProfileDefaults {
                gamescope_settings: GamescopeSettings { adaptive_sync: optional_bool_after(gs.adaptive_sync), ..gs },
                ..d
            },
            ..p
        },
        _ => p,
    }
}

/// `b` is `a` with profile `slug`'s cycling `field` advanced (nothing when
/// there is no such profile).
pub open spec fn cycled_spec(a: App, b: App, slug: Seq<char>, field: ProfileField) -> bool {
    match slot_of(a.profiles@, slug) {
        Some(i) => replaced_profile(a, b, i, profile_cycled(a.profiles@[i].1, field)),
        None => b == a,
    }
}

/// Advances one of profile `slug`'s cycling fields and asks to save it.
pub fn cycle_field(app: &mut App, slug: String, field: ProfileField) -> (e: Effect)
    ensures
        cycled_spec(*old(app), *final(app), slug@, field),
        e matches Effect::SaveProfile(s) && s == slug,
{
    if let Some(i) = app.profile_index(slug.as_str()) {
        let ghost a = *app;
        let (s, mut p) = app.take_profile(i);
        match field {
            ProfileField::LogRecord => {
                p.logging.record = super::app::next_profile_record_mode(p.logging.record);
            },
            ProfileField::LogAutoOpen => {
                p.logging.auto_open = super::app::next_optional_bool(p.logging.auto_open);
            },
            ProfileField::Gamescope => {
                p.defaults.gamescope = super::app::next_profile_gamescope_setting(p.defaults.gamescope);
            },
            ProfileField::GamescopeFilter => {
                p.defaults.gamescope_settings.filter = super::app::next_gamescope_filter(
                    p.defaults.gamescope_settings.filter,
                );
            },
            ProfileField::GamescopeScaler => {
                p.defaults.gamescope_settings.scaler = super::app::next_gamescope_scaler(
                    p.defaults.gamescope_settings.scaler,
                );
            },
            ProfileField::GamescopeBorderless => {
                p.defaults.gamescope_settings.borderless = super::app::next_optional_bool(
                    p.defaults.gamescope_settings.borderless,
                );
            },
            ProfileField::GamescopeGrabCursor => {
                p.defaults.gamescope_settings.grab_cursor = super::app::next_optional_bool(
                    p.defaults.gamescope_settings.grab_cursor,
                );
            },
            ProfileField::GamescopeAdaptiveSync => {
                p.defaults.gamescope_settings.adaptive_sync = super::app::next_optional_bool(
                    p.defaults.gamescope_settings.adaptive_sync,
                );
            },
            _ => {},
        }
        app.put_profile(i, (s, p));
        proof {
            lemma_remove_insert(a.profiles@, i as int, (s, p));
        }
    }
    Effect::SaveProfile(slug)
}

// ---------------------------------------------------------------------------
// Keys
// ---------------------------------------------------------------------------

/// What Enter on field `field` of profile `slug`'s editor does.
pub open spec fn activate_spec(a: App, b: App, slug: String, field: ProfileField, e: Effect) -> bool {
    match super::app::profile_field_kind(field) {
        FieldKind::Text => (b.mode matches Mode::TextInput { purpose, buffer, cursor } && purpose
            == TextInputPurpose::ProfileField(slug, field) && buffer@ == profile_text_value(a, slug@, field) && cursor
            == buffer@.len()) && b == (App { mode: b.mode, ..a }) && e is Nothing,
        FieldKind::Cycle => cycled_spec(a, b, slug@, field) && (e matches Effect::SaveProfile(s) && s == slug),
        FieldKind::ProtonPicker => b == a && (e matches Effect::ScanProton(t) && t == ProtonPickerTarget::Profile(slug)),
        FieldKind::MapEditor => b == (App {
            mode: Mode::MapEditor {
                field: if field == ProfileField::EnvTable {
                    MapField::ProfileEnv(slug)
                } else {
                    MapField::ProfileWineDllOverride(slug)
                },
                selected: 0,
            },
            ..a
        }) && e is Nothing,
        _ => b == a && e is Nothing,
    }
}

/// Enter on the selected field of profile `slug`'s editor.
pub fn activate_selected(app: &mut App, slug: String) -> (e: Effect)
    requires
        old(app).profile_field_selected < ProfileField::ALL.len(),
    ensures
        activate_spec(*old(app), *final(app), slug, ProfileField::ALL[old(app).profile_field_selected as int], e),
{
    let field = ProfileField::ALL[app.profile_field_selected];
    match field.kind() {
        FieldKind::Text => {
            let buffer = current_text_value(app, slug.as_str(), field);
            let cursor = crate::text::chars_of(buffer.as_str()).len();
            app.mode = Mode::TextInput { purpose: TextInputPurpose::ProfileField(slug, field), buffer, cursor };
            Effect::Nothing
        },
        FieldKind::Cycle => cycle_field(app, slug, field),
        FieldKind::ProtonPicker => Effect::ScanProton(ProtonPickerTarget::Profile(slug)),
        FieldKind::MapEditor => {
            let map_field = if field == ProfileField::EnvTable {
                MapField::ProfileEnv(slug)
            } else {
                MapField::ProfileWineDllOverride(slug)
            };
            app.mode = Mode::MapEditor { field: map_field, selected: 0 };
            Effect::Nothing
        },
        _ => Effect::Nothing,
    }
}

/// What a key does in an open profile editor: Up/Down move between its
/// fields, Esc closes it, Enter activates the selected field.
pub open spec fn editor_key_spec(a: App, b: App, key: Key, e: Effect) -> bool {
    match key {
        Key::Up => b == (App {
            profile_field_selected: move_selection_spec(
                a.profile_field_selected as int,
                ProfileField::ALL.len() as int,
                -1,
            ) as usize,
            ..a
        }) && e is Nothing,
        Key::Down => b == (App {
            profile_field_selected: move_selection_spec(
                a.profile_field_selected as int,
                ProfileField::ALL.len() as int,
                1,
            ) as usize,
            ..a
        }) && e is Nothing,
        Key::Esc => b == (App { profile_editor: None, ..a }) && e is Nothing,
        Key::Enter => match a.profile_editor {
            Some(slug) => if (a.profile_field_selected as int) < ProfileField::ALL.len() {
                activate_spec(a, b, slug, ProfileField::ALL[a.profile_field_selected as int], e)
            } else {
                b == a && e is Nothing
            },
            None => b == a && e is Nothing,
        },
        _ => b == a && e is Nothing,
    }
}

/// A key in the open profile editor.
pub fn on_key(app: &mut App, key: Key) -> (e: Effect)
    ensures
        editor_key_spec(*old(app), *final(app), key, e),
{
    match key {
        Key::Up => {
            app.profile_field_selected = move_selection(app.profile_field_selected, ProfileField::ALL.len(), -1);
            Effect::Nothing
        },
        Key::Down => {
            app.profile_field_selected = move_selection(app.profile_field_selected, ProfileField::ALL.len(), 1);
            Effect::Nothing
        },
        Key::Esc => {
            app.profile_editor = None;
            Effect::Nothing
        },
        Key::Enter => {
            let slug = match &app.profile_editor {
                Some(s) => s.clone(),
                None => return Effect::Nothing,
            };
            if app.profile_field_selected < ProfileField::ALL.len() {
                activate_selected(app, slug)
            } else {
                Effect::Nothing
            }
        },
        _ => Effect::Nothing,
    }
}

// ---------------------------------------------------------------------------
// Renaming a slug
// ---------------------------------------------------------------------------

/// The prefix directory a slug uses in per-slug mode (`prefixes_root`,
/// home-expanded, joined with the slug); none in single-prefix mode.
pub open spec fn prefix_dir_spec(a: App, slug: Seq<char>, home: Option<Seq<char>>) -> Option<Seq<char>> {
    if a.cfg.defaults.prefix_mode == crate::config::PrefixMode::PerSlug {
        Some(crate::config::path_join_spec(crate::config::expand_home_spec(a.cfg.defaults.prefixes_root@, home), slug))
    } else {
        None
    }
}

/// The per-slug prefix directory of `slug`, or none in single-prefix mode.
pub fn per_slug_prefix_dir(app: &App, slug: &str, home: Option<&str>) -> (r: Option<String>)
    ensures
        opt_view(r) == prefix_dir_spec(*app, slug@, super::app::opt_str_view(home)),
{
    if app.cfg.defaults.prefix_mode != crate::config::PrefixMode::PerSlug {
        return None;
    }
    let root = crate::config::expand_home_with(app.cfg.defaults.prefixes_root.as_str(), home);
    Some(crate::config::path_join(root.as_str(), slug))
}

/// `cand` is the first free slug built from `base` for profile `slug`.
pub open spec fn free_slug(ps: Seq<(String, Profile)>, slug: Seq<char>, base: Seq<char>, cand: Seq<char>) -> bool {
    exists|k: nat| first_free_cand(slug_slug_pairs(ps), slug, slug_cands(base), k) && cand == cand_slug(base, k)
}

/// `name` is the first free name built from `base` for profile `slug`.
pub open spec fn free_name(ps: Seq<(String, Profile)>, slug: Seq<char>, base: Seq<char>, name: Seq<char>) -> bool {
    exists|k: nat| first_free_cand(slug_name_pairs(ps), slug, name_cands(base), k) && name == cand_name(base, k)
}

/// What asking to rename profile `slug` to `requested` does: a text that
/// sanitizes to nothing is refused; otherwise the first free slug built
/// from it is the candidate, and unless that is the slug it already has,
/// the rename is asked for, along with the two prefix directories to check
/// in per-slug mode.
pub open spec fn rename_spec(a: App, b: App, slug: Seq<char>, requested: Seq<char>, home: Option<Seq<char>>, e: Effect) -> bool {
    let base = crate::prefix::sanitize_spec(requested);
    if base.len() == 0 {
        opt_view(b.status) == Some("slug can't be blank — left unchanged."@) && b == (App { status: b.status, ..a })
            && e is Nothing
    } else {
        exists|cand: Seq<char>|
            #[trigger] free_slug(a.profiles@, slug, base, cand) && b == a && if cand == slug {
                e is Nothing
            } else {
                e matches Effect::RenameSlug { slug: s, candidate: c, prefix_dirs: d } && s@ == slug && c@ == cand
                    && match prefix_dir_spec(a, slug, home) {
                    Some(old_dir) => d matches Some(pd) && pd.0@ == old_dir && Some(pd.1@) == prefix_dir_spec(
                        a,
                        cand,
                        home,
                    ),
                    None => d is None,
                }
            }
    }
}

/// Asks to rename profile `slug` to the first free slug built from
/// `requested`.
pub fn rename_slug(app: &mut App, slug: &str, requested: &str, home: Option<&str>) -> (e: Effect)
    ensures
        rename_spec(*old(app), *final(app), slug@, requested@, super::app::opt_str_view(home), e),
{
    let sanitized = crate::prefix::sanitize(requested);
    if crate::text::chars_of(sanitized.as_str()).len() == 0 {
        app.status = Some("slug can't be blank — left unchanged.".to_string());
        return Effect::Nothing;
    }
    let candidate = next_available_slug(sanitized.as_str(), &app.profiles, slug);
    proof {
        assert(free_slug(app.profiles@, slug@, sanitized@, candidate@));
    }
    if crate::text::str_eq(candidate.as_str(), slug) {
        return Effect::Nothing;
    }
    let dirs = match per_slug_prefix_dir(app, slug, home) {
        Some(old_dir) => {
            let new_dir = per_slug_prefix_dir(app, candidate.as_str(), home);
            match new_dir {
                Some(nd) => Some((old_dir, nd)),
                None => None,
            }
        },
        None => None,
    };
    Effect::RenameSlug { slug: slug.to_string(), candidate, prefix_dirs: dirs }
}

/// After checking whether the old prefix directory exists: if it does,
/// asks to confirm moving it along; otherwise asks for the rename alone.
pub fn finish_prefix_check(
    app: &mut App,
    slug: String,
    candidate: String,
    old_prefix_dir: String,
    new_prefix_dir: String,
    exists: bool,
) -> (e: Effect)
    ensures
        exists ==> *final(app) == (App {
            mode: Mode::ConfirmRenameSlug { slug, candidate, old_prefix_dir, new_prefix_dir },
            ..*old(app)
        }) && e is Nothing,
        !exists ==> *final(app) == *old(app) && (e matches Effect::RenameSlug { slug: s, candidate: c, prefix_dirs: d }
            && s == slug && c == candidate && d is None),
{
    if exists {
        app.mode = Mode::ConfirmRenameSlug { slug, candidate, old_prefix_dir, new_prefix_dir };
        Effect::Nothing
    } else {
        Effect::RenameSlug { slug, candidate, prefix_dirs: None }
    }
}

/// What a key does in the slug-rename confirmation.
pub open spec fn confirm_rename_spec(a: App, b: App, key: Key, e: Effect) -> bool {
    match a.mode {
        Mode::ConfirmRenameSlug { slug, candidate, old_prefix_dir, new_prefix_dir } => if super::library::is_yes(
            key,
        ) {
            b == (App { mode: Mode::Normal, ..a }) && (e matches Effect::MovePrefixAndRename {
                slug: s,
                candidate: c,
                old_prefix_dir: o,
                new_prefix_dir: n,
            } && s == slug && c == candidate && o == old_prefix_dir && n == new_prefix_dir)
        } else {
            opt_view(b.status) == Some("Rename cancelled."@) && b == (App {
                mode: Mode::Normal,
                status: b.status,
                ..a
            }) && e is Nothing
        },
        _ => b == a && e is Nothing,
    }
}

/// Keys of the slug-rename confirmation: `y` asks to move the prefix
/// directory and rename; anything else cancels. Either way the popup
/// closes.
pub fn confirm_rename_slug_key(app: &mut App, key: Key) -> (e: Effect)
    ensures
        confirm_rename_spec(*old(app), *final(app), key, e),
{
    let m = super::library::take_mode(app);
    match m {
        Mode::ConfirmRenameSlug { slug, candidate, old_prefix_dir, new_prefix_dir } => {
            if key == Key::Char('y') || key == Key::Char('Y') {
                Effect::MovePrefixAndRename { slug, candidate, old_prefix_dir, new_prefix_dir }
            } else {
                app.status = Some("Rename cancelled.".to_string());
                Effect::Nothing
            }
        },
        other => {
            app.mode = other;
            Effect::Nothing
        },
    }
}

/// Reports a failed prefix move (then nothing else happens); after a
/// successful one, says to go on with the rename.
pub fn finish_prefix_move(app: &mut App, moved: Result<(), String>) -> (go_on: bool)
    ensures
        match moved {
            Ok(()) => go_on && *final(app) == *old(app),
            Err(err) => !go_on && opt_view(final(app).status) == Some(
                "couldn't rename prefix dir: "@ + err@ + " — nothing changed."@,
            ) && *final(app) == (App { status: final(app).status, ..*old(app) }),
        },
{
    match moved {
        Ok(()) => true,
        Err(err) => {
            app.status = Some(concat3("couldn't rename prefix dir: ", err.as_str(), " — nothing changed."));
            false
        },
    }
}

/// How renaming a profile's folder went.
pub enum RenameOutcome {
    /// The profiles directory could not be named.
    DirUnresolved(String),
    /// A folder with the new slug already exists.
    AlreadyExists,
    Failed(String),
    Renamed,
}

/// Reports how renaming profile `slug`'s folder to `candidate` went. After
/// a rename the first profile with that slug takes the new one, and so does
/// an editor open on it. The result says whether the rename happened.
pub fn finish_slug_rename(app: &mut App, slug: &str, candidate: &str, outcome: RenameOutcome) -> (ok: bool)
    ensures
        ok == outcome is Renamed,
        match outcome {
            RenameOutcome::DirUnresolved(err) => opt_view(final(app).status) == Some(
                "couldn't resolve profiles dir: "@ + err@,
            ) && *final(app) == (App { status: final(app).status, ..*old(app) }),
            RenameOutcome::AlreadyExists => opt_view(final(app).status) == Some(
                "\""@ + candidate@ + "\" already exists on disk — left unchanged."@,
            ) && *final(app) == (App { status: final(app).status, ..*old(app) }),
            RenameOutcome::Failed(err) => opt_view(final(app).status) == Some(
                "couldn't rename profile folder: "@ + err@,
            ) && *final(app) == (App { status: final(app).status, ..*old(app) }),
            RenameOutcome::Renamed => {
                &&& opt_view(final(app).status) == Some("Renamed to \""@ + candidate@ + "\"."@)
                &&& opt_view(final(app).profile_editor) == if opt_view(old(app).profile_editor) == Some(slug@) {
                    Some(candidate@)
                } else {
                    opt_view(old(app).profile_editor)
                }
                &&& match slot_of(old(app).profiles@, slug@) {
                    Some(i) => final(app).profiles@.len() == old(app).profiles@.len() && final(app).profiles@[i].0@
                        == candidate@ && final(app).profiles@[i].1 == old(app).profiles@[i].1 && forall|j: int|
                        0 <= j < old(app).profiles@.len() && j != i ==> #[trigger] final(app).profiles@[j]
                            == old(app).profiles@[j],
                    None => final(app).profiles@ == old(app).profiles@,
                }
                &&& *final(app) == (App {
                    status: final(app).status,
                    profile_editor: final(app).profile_editor,
                    profiles: final(app).profiles,
                    ..*old(app)
                })
            },
        },
{
    match outcome {
        RenameOutcome::DirUnresolved(err) => {
            app.status = Some(concat("couldn't resolve profiles dir: ", err.as_str()));
            false
        },
        RenameOutcome::AlreadyExists => {
            app.status = Some(concat3("\"", candidate, "\" already exists on disk — left unchanged."));
            false
        },
        RenameOutcome::Failed(err) => {
            app.status = Some(concat("couldn't rename profile folder: ", err.as_str()));
            false
        },
        RenameOutcome::Renamed => {
            if let Some(i) = app.profile_index(slug) {
                let ghost a = *app;
                let (_s, p) = app.take_profile(i);
                let entry = (candidate.to_string(), p);
                let ghost eg = entry;
                app.put_profile(i, entry);
                proof {
                    lemma_remove_insert(a.profiles@, i as int, eg);
                }
            }
            let renames_editor = match &app.profile_editor {
                Some(s) => crate::text::str_eq(s.as_str(), slug),
                None => false,
            };
            if renames_editor {
                app.profile_editor = Some(candidate.to_string());
            }
            app.status = Some(concat3("Renamed to \"", candidate, "\"."));
            true
        },
    }
}

/// After the folder rename failed behind a prefix move that could not be
/// undone either, adds that to the status line.
pub fn report_rollback_failure(app: &mut App, err: &str, new_prefix_dir: &str, old_prefix_dir: &str)
    ensures
        opt_view(final(app).status) == Some(
            opt_text(old(app).status) + " Also failed to move the prefix dir back: "@ + err@ + " — fix manually: "@
                + new_prefix_dir@ + " should be "@ + old_prefix_dir@ + "."@,
        ),
        *final(app) == (App { status: final(app).status, ..*old(app) }),
{
    let before = opt_text_of(&app.status);
    let a = concat3(before.as_str(), " Also failed to move the prefix dir back: ", err);
    let b = concat3(a.as_str(), " — fix manually: ", new_prefix_dir);
    let c = concat3(b.as_str(), " should be ", old_prefix_dir);
    app.status = Some(concat(c.as_str(), "."));
}

// ---------------------------------------------------------------------------
// Applying a text field
// ---------------------------------------------------------------------------

/// Profile fields whose text must be a whole number (or blank).
pub open spec fn numeric_profile_field(f: ProfileField) -> bool {
    ||| f == ProfileField::LogKeep
    ||| f == ProfileField::GamescopeOutputWidth
    ||| f == ProfileField::GamescopeOutputHeight
    ||| f == ProfileField::GamescopeRefresh
    ||| f == ProfileField::GamescopeNestedWidth
    ||| f == ProfileField::GamescopeNestedHeight
}

/// A blank text clears an override; any other text sets it.
pub open spec fn nonblank(t: Seq<char>) -> Option<Seq<char>> {
    if t.len() == 0 {
        None
    } else {
        Some(t)
    }
}

/// `q` is profile `p` with `field` set from the trimmed text `t`. The
/// name gets the first free `t#N`; the arguments are `t` split at
/// whitespace; numbers are parsed (blank unsets them).
pub open spec fn text_applied(
    ps: Seq<(String, Profile)>,
    slug: Seq<char>,
    p: Profile,
    q: Profile,
    field: ProfileField,
    t: Seq<char>,
) -> bool {
    let d = p.defaults;
    let gs = d.gamescope_settings;
    let n = crate::text::parse_u32_spec(t);
    match field {
        ProfileField::TargetPath => q.target_path@ == t && q == (Profile { target_path: q.target_path, ..p }),
        ProfileField::Name => free_name(ps, slug, t, q.name@) && q == (Profile { name: q.name, ..p }),
        ProfileField::Title => opt_view(q.title) == nonblank(t) && q == (Profile { title: q.title, ..p }),
        ProfileField::Args => q.args@.map_values(|s: String| s@) == crate::text::split_whitespace_spec(t) && q == (
        Profile { args: q.args, ..p }),
        ProfileField::PrefixPath => opt_view(q.defaults.prefix_path) == nonblank(t) && q == (Profile {
            defaults: ProfileDefaults { prefix_path: q.defaults.prefix_path, ..d },
            ..p
        }),
        ProfileField::WindowsVersion => opt_view(q.defaults.windows_version) == nonblank(t) && q == (Profile {
            defaults: ProfileDefaults { windows_version: q.defaults.windows_version, ..d },
            ..p
        }),
        ProfileField::LaunchWrapper => opt_view(q.defaults.launch_wrapper) == nonblank(t) && q == (Profile {
            defaults: ProfileDefaults { launch_wrapper: q.defaults.launch_wrapper, ..d },
            ..p
        }),
        ProfileField::LogKeep => q == (Profile { logging: ProfileLogging { keep: n, ..p.logging }, ..p }),
        ProfileField::GamescopeOutputWidth => q == (Profile {
            defaults: ProfileDefaults { gamescope_settings: GamescopeSettings { output_width: n, ..gs }, ..d },
            ..p
        }),
        ProfileField::GamescopeOutputHeight => q == (Profile {
            defaults: ProfileDefaults { gamescope_settings: GamescopeSettings { output_height: n, ..gs }, ..d },
            ..p
        }),
        ProfileField::GamescopeRefresh => q == (Profile {
            defaults: ProfileDefaults { gamescope_settings: GamescopeSettings { refresh: n, ..gs }, ..d },
            ..p
        }),
        ProfileField::GamescopeNestedWidth => q == (Profile {
            defaults: ProfileDefaults { gamescope_settings: GamescopeSettings { nested_width: n, ..gs }, ..d },
            ..p
        }),
        ProfileField::GamescopeNestedHeight => q == (Profile {
            defaults: ProfileDefaults { gamescope_settings: GamescopeSettings { nested_height: n, ..gs }, ..d },
            ..p
        }),
        _ => q == p,
    }
}

/// Setting profile `slug`'s `field` from the trimmed text `t`, then asking
/// to save it; a missing profile is reported instead.
pub open spec fn set_field_spec(a: App, b: App, slug: Seq<char>, field: ProfileField, t: Seq<char>, e: Effect) -> bool {
    match slot_of(a.profiles@, slug) {
        None => opt_view(b.status) == Some("couldn't find profile \""@ + slug + "\""@) && b == (App {
            status: b.status,
            ..a
        }) && e is Nothing,
        Some(i) => replaced_profile(a, b, i, b.profiles@[i].1) && text_applied(
            a.profiles@,
            slug,
            a.profiles@[i].1,
            b.profiles@[i].1,
            field,
            t,
        ) && (e matches Effect::SaveProfile(s) && s@ == slug),
    }
}

fn nonblank_of(t: &Vec<char>) -> (r: Option<String>)
    ensures
        opt_view(r) == nonblank(t@),
{
    if t.len() == 0 {
        None
    } else {
        Some(crate::text::string_of(t))
    }
}

fn words_of(t: &Vec<char>) -> (r: Vec<String>)
    ensures
        r@.map_values(|s: String| s@) == crate::text::split_whitespace_spec(t@),
{
    let pieces = crate::text::split_whitespace(t);
    let mut out: Vec<String> = Vec::new();
    let mut i: usize = 0;
    while i < pieces.len()
        invariant
            i <= pieces@.len(),
            out@.len() == i,
            forall|k: int| 0 <= k < i ==> (#[trigger] out@[k])@ == pieces@[k]@,
        decreases pieces@.len() - i,
    {
        out.push(crate::text::string_of(&pieces[i]));
        i = i + 1;
    }
    assert(out@.map_values(|s: String| s@) =~= crate::text::views(pieces@));
    out
}

fn set_text_field(app: &mut App, slug: &str, field: ProfileField, t: &Vec<char>) -> (e: Effect)
    ensures
        set_field_spec(*old(app), *final(app), slug@, field, t@, e),
{
    let name = if field == ProfileField::Name {
        let base = crate::text::string_of(t);
        Some(next_available_name(base.as_str(), &app.profiles, slug))
    } else {
        None
    };
    match app.profile_index(slug) {
        None => {
            app.status = Some(concat3("couldn't find profile \"", slug, "\""));
            assert(opt_view(app.status) == Some("couldn't find profile \""@ + slug@ + "\""@));
            Effect::Nothing
        },
        Some(i) => {
            let ghost a = *app;
            let (s, mut p) = app.take_profile(i);
            match field {
                ProfileField::TargetPath => p.target_path = crate::text::string_of(t),
                ProfileField::Name => {
                    if let Some(n) = name {
                        p.name = n;
                    }
                },
                ProfileField::Title => p.title = nonblank_of(t),
                ProfileField::Args => p.args = words_of(t),
                ProfileField::PrefixPath => p.defaults.prefix_path = nonblank_of(t),
                ProfileField::WindowsVersion => p.defaults.windows_version = nonblank_of(t),
                ProfileField::LaunchWrapper => p.defaults.launch_wrapper = nonblank_of(t),
                ProfileField::LogKeep => p.logging.keep = crate::text::parse_u32(t),
                ProfileField::GamescopeOutputWidth => {
                    p.defaults.gamescope_settings.output_width = crate::text::parse_u32(t);
                },
                ProfileField::GamescopeOutputHeight => {
                    p.defaults.gamescope_settings.output_height = crate::text::parse_u32(t);
                },
                ProfileField::GamescopeRefresh => {
                    p.defaults.gamescope_settings.refresh = crate::text::parse_u32(t);
                },
                ProfileField::GamescopeNestedWidth => {
                    p.defaults.gamescope_settings.nested_width = crate::text::parse_u32(t);
                },
                ProfileField::GamescopeNestedHeight => {
                    p.defaults.gamescope_settings.nested_height = crate::text::parse_u32(t);
                },
                _ => {},
            }
            let ghost q = p;
            app.put_profile(i, (s, p));
            proof {
                lemma_remove_insert(a.profiles@, i as int, (s, q));
                assert(replaced_profile(a, *app, i as int, q));
                assert(text_applied(a.profiles@, slug@, a.profiles@[i as int].1, q, field, t@));
            }
            let e = Effect::SaveProfile(slug.to_string());
            assert(e matches Effect::SaveProfile(x) && x@ == slug@);
            e
        },
    }
}

/// What a confirmed text popup does to profile `slug`'s `field`: the text
/// is trimmed; a number field refuses a non-number; the exe path must not
/// be blank and is then checked on disk; the slug goes through a rename;
/// the name must not be blank; every other field is set (blank clears an
/// override) and the profile saved.
pub open spec fn apply_text_spec(
    a: App,
    b: App,
    slug: Seq<char>,
    field: ProfileField,
    value: Seq<char>,
    home: Option<Seq<char>>,
    e: Effect,
) -> bool {
    let t = crate::text::trim_spec(value);
    if numeric_profile_field(field) && t.len() > 0 && crate::text::parse_u32_spec(t) is None {
        opt_view(b.status) == Some(
            "\""@ + t + "\" isn't a whole number — "@ + super::app::profile_field_label(field) + " left unchanged."@,
        ) && b == (App { status: b.status, ..a }) && e is Nothing
    } else if field == ProfileField::TargetPath {
        if t.len() == 0 {
            opt_view(b.status) == Some("target-path can't be blank — left unchanged."@) && b == (App {
                status: b.status,
                ..a
            }) && e is Nothing
        } else {
            b == a && (e matches Effect::CheckTargetPath { slug: s, path } && s@ == slug && path@ == t)
        }
    } else if field == ProfileField::Slug {
        rename_spec(a, b, slug, t, home, e)
    } else if field == ProfileField::Name && t.len() == 0 {
        opt_view(b.status) == Some("name can't be blank — left unchanged."@) && b == (App { status: b.status, ..a })
            && e is Nothing
    } else {
        set_field_spec(a, b, slug, field, t, e)
    }
}

/// Applies a confirmed text popup to profile `slug`'s `field`.
pub fn apply_text_field(app: &mut App, slug: &str, field: ProfileField, value: String, home: Option<&str>) -> (e: Effect)
    ensures
        apply_text_spec(*old(app), *final(app), slug@, field, value@, super::app::opt_str_view(home), e),
{
    let vv = crate::text::chars_of(value.as_str());
    let t = crate::text::trim(&vv);
    let numeric = field == ProfileField::LogKeep || field == ProfileField::GamescopeOutputWidth || field
        == ProfileField::GamescopeOutputHeight || field == ProfileField::GamescopeRefresh || field
        == ProfileField::GamescopeNestedWidth || field == ProfileField::GamescopeNestedHeight;
    if numeric && t.len() > 0 && crate::text::parse_u32(&t).is_none() {
        let ts = crate::text::string_of(&t);
        let head = concat3("\"", ts.as_str(), "\" isn't a whole number — ");
        app.status = Some(concat3(head.as_str(), field.label(), " left unchanged."));
        return Effect::Nothing;
    }
    if field == ProfileField::TargetPath {
        if t.len() == 0 {
            app.status = Some("target-path can't be blank — left unchanged.".to_string());
            return Effect::Nothing;
        }
        return Effect::CheckTargetPath { slug: slug.to_string(), path: crate::text::string_of(&t) };
    }
    if field == ProfileField::Slug {
        let ts = crate::text::string_of(&t);
        return rename_slug(app, slug, ts.as_str(), home);
    }
    if field == ProfileField::Name && t.len() == 0 {
        app.status = Some("name can't be blank — left unchanged.".to_string());
        return Effect::Nothing;
    }
    set_text_field(app, slug, field, &t)
}

/// After checking the exe path on disk: a path that is not a file is
/// refused; otherwise it becomes the profile's exe and the profile is
/// saved.
pub fn finish_target_path(app: &mut App, slug: &str, path: String, is_file: bool) -> (e: Effect)
    ensures
        !is_file ==> opt_view(final(app).status) == Some(
            "\""@ + path@ + "\" doesn't exist — target-path left unchanged."@,
        ) && *final(app) == (App { status: final(app).status, ..*old(app) }) && e is Nothing,
        is_file ==> set_field_spec(*old(app), *final(app), slug@, ProfileField::TargetPath, path@, e),
{
    if !is_file {
        app.status = Some(concat3("\"", path.as_str(), "\" doesn't exist — target-path left unchanged."));
        return Effect::Nothing;
    }
    let pv = crate::text::chars_of(path.as_str());
    set_text_field(app, slug, ProfileField::TargetPath, &pv)
}

/// The profile to write for `slug` (a copy with the same settings), or the
/// missing profile reported.
pub fn save_profile(app: &mut App, slug: &str) -> (r: Option<Profile>)
    ensures
        match slot_of(old(app).profiles@, slug@) {
            Some(i) => (r matches Some(p) && crate::config::same_profile(p, old(app).profiles@[i].1)) && *final(app)
                == *old(app),
            None => r is None && opt_view(final(app).status) == Some(
                "couldn't find profile \""@ + slug@ + "\" to save"@,
            ) && *final(app) == (App { status: final(app).status, ..*old(app) }),
        },
{
    match app.profile(slug) {
        Some(p) => Some(p.clone()),
        None => {
            app.status = Some(concat3("couldn't find profile \"", slug, "\" to save"));
            None
        },
    }
}

/// Reports how writing a profile went.
pub fn finish_save_profile(app: &mut App, saved: Result<(), String>)
    ensures
        opt_view(final(app).status) == Some(
            match saved {
                Ok(()) => "Saved."@,
                Err(err) => "Failed to save profile: "@ + err@,
            },
        ),
        *final(app) == (App { status: final(app).status, ..*old(app) }),
{
    app.status = Some(
        match saved {
            Ok(()) => "Saved.".to_string(),
            Err(err) => concat("Failed to save profile: ", err.as_str()),
        },
    );
}

} // verus!
