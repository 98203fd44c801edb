//! What one launch runs: the nested-gamescope flags, the launch wrapper,
//! the environment handed to `umu-run`, and the profile a launch belongs to.
use vstd::prelude::*;

use crate::config::{
    expand_home_spec, expand_home_with, home_dir, opt_view, Effective, GamescopeFilter, GamescopeScaler,
    GamescopeSetting, GamescopeSettings, Profile, RecordMode,
};
use crate::strmap::{map_of_list, pair_view, StrMap};
use crate::text::{
    chars_of, decimal, join_spec, owned, split_whitespace, split_whitespace_spec, string_of, u64_to_string,
    views,
};

verus! {

/// The views of a list of static strings.
pub open spec fn strs(v: Seq<&'static str>) -> Seq<Seq<char>> {
    v.map_values(|s: &'static str| s@)
}

/// The views of a list of strings.
pub open spec fn strings(v: Seq<String>) -> Seq<Seq<char>> {
    v.map_values(|s: String| s@)
}

/// `-f`/`-w`/`-b` on the command line: wraps the launch in a nested
/// `gamescope` session.
#[derive(Clone, Copy, Debug, PartialEq, Eq, Structural)]
pub struct GamescopeMode {
    pub fullscreen: bool,
    pub maximize: bool,
    pub borderless: bool,
}

impl Default for GamescopeMode {
    fn default() -> (r: Self)
        ensures
            !r.fullscreen && !r.maximize && !r.borderless,
    {
        GamescopeMode { fullscreen: false, maximize: false, borderless: false }
    }
}

/// gamescope's own flags for a mode: `-f` for fullscreen, then
/// `--force-windows-fullscreen` for maximize, then `-b` for borderless.
pub open spec fn mode_args_spec(m: GamescopeMode) -> Seq<Seq<char>> {
    (if m.fullscreen {
        seq!["-f"@]
    } else {
        Seq::empty()
    }) + (if m.maximize {
        seq!["--force-windows-fullscreen"@]
    } else {
        Seq::empty()
    }) + (if m.borderless {
        seq!["-b"@]
    } else {
        Seq::empty()
    })
}

/// The mode a remembered `GamescopeSetting` stands for.
pub open spec fn mode_of_setting(s: GamescopeSetting) -> GamescopeMode {
    match s {
        GamescopeSetting::Off => GamescopeMode { fullscreen: false, maximize: false, borderless: false },
        GamescopeSetting::Fullscreen => GamescopeMode { fullscreen: true, maximize: false, borderless: false },
        GamescopeSetting::Maximize => GamescopeMode { fullscreen: false, maximize: true, borderless: false },
    }
}

impl GamescopeMode {
    /// Whether any of the three is requested.
    pub fn is_active(self) -> (r: bool)
        ensures
            r == (self.fullscreen || self.maximize || self.borderless),
    {
        self.fullscreen || self.maximize || self.borderless
    }

    /// gamescope's own flags for this mode.
    pub fn args(self) -> (r: Vec<&'static str>)
        ensures
            strs(r@) == mode_args_spec(self),
    {
        let mut args: Vec<&'static str> = Vec::new();
        proof {
            reveal_strlit("-f");
            reveal_strlit("--force-windows-fullscreen");
            reveal_strlit("-b");
        }
        if self.fullscreen {
            args.push("-f");
        }
        let ghost a1 = args@;
        if self.maximize {
            args.push("--force-windows-fullscreen");
        }
        let ghost a2 = args@;
        if self.borderless {
            args.push("-b");
        }
        assert(strs(args@) =~= mode_args_spec(self));
        args
    }

    /// The mode a remembered `GamescopeSetting` stands for.
    pub fn from_setting(setting: GamescopeSetting) -> (r: GamescopeMode)
        ensures
            r == mode_of_setting(setting),
    {
        match setting {
            GamescopeSetting::Off => GamescopeMode { fullscreen: false, maximize: false, borderless: false },
            GamescopeSetting::Fullscreen => GamescopeMode {
                fullscreen: true,
                maximize: false,
                borderless: false,
            },
            GamescopeSetting::Maximize => GamescopeMode { fullscreen: false, maximize: true, borderless: false },
        }
    }
}

impl From<GamescopeSetting> for GamescopeMode {
    fn from(setting: GamescopeSetting) -> (r: GamescopeMode) {
        GamescopeMode::from_setting(setting)
    }
}

impl vstd::std_specs::convert::FromSpecImpl<GamescopeSetting> for GamescopeMode {
    open spec fn obeys_from_spec() -> bool {
        true
    }

    open spec fn from_spec(setting: GamescopeSetting) -> GamescopeMode {
        mode_of_setting(setting)
    }
}

/// iprolaunch's own CLI flag for a remembered setting.
pub open spec fn cli_flag_spec(s: GamescopeSetting) -> Option<Seq<char>> {
    match s {
        GamescopeSetting::Off => None,
        GamescopeSetting::Fullscreen => Some("-f"@),
        GamescopeSetting::Maximize => Some("-w"@),
    }
}

/// A `GamescopeSetting` as iprolaunch's own CLI flag (none for `Off`).
pub fn gamescope_setting_cli_flag(setting: GamescopeSetting) -> (r: Option<&'static str>)
    ensures
        match r {
            Some(f) => cli_flag_spec(setting) == Some(f@),
            None => cli_flag_spec(setting) is None,
        },
{
    proof {
        reveal_strlit("-f");
        reveal_strlit("-w");
    }
    match setting {
        GamescopeSetting::Off => None,
        GamescopeSetting::Fullscreen => Some("-f"),
        GamescopeSetting::Maximize => Some("-w"),
    }
}

/// The profile's own `-f`/`-w`/`-b`, as resolved from its settings.
pub open spec fn cli_flags_spec(setting: GamescopeSetting, borderless: Option<bool>) -> Seq<Seq<char>> {
    (match cli_flag_spec(setting) {
        Some(f) => seq![f],
        None => Seq::empty(),
    }) + (if borderless == Some(true) {
        seq!["-b"@]
    } else {
        Seq::empty()
    })
}

/// This profile's own `-f`/`-w`/`-b` — iprolaunch's CLI letters — as its
/// `Effective` settings resolve them.
pub fn iprolaunch_cli_flags_for(effective: &Effective) -> (r: Vec<&'static str>)
    ensures
        strs(r@) == cli_flags_spec(effective.gamescope, effective.gamescope_settings.borderless),
{
    let mut flags: Vec<&'static str> = Vec::new();
    match gamescope_setting_cli_flag(effective.gamescope) {
        Some(f) => flags.push(f),
        None => {},
    }
    proof {
        reveal_strlit("-b");
    }
    if effective.gamescope_settings.borderless == Some(true) {
        flags.push("-b");
    }
    assert(strs(flags@) =~= cli_flags_spec(effective.gamescope, effective.gamescope_settings.borderless));
    flags
}

pub open spec fn filter_value_spec(f: GamescopeFilter) -> Seq<char> {
    match f {
        GamescopeFilter::Linear => "linear"@,
        GamescopeFilter::Nearest => "nearest"@,
        GamescopeFilter::Fsr => "fsr"@,
        GamescopeFilter::Nis => "nis"@,
        GamescopeFilter::Pixel => "pixel"@,
    }
}

/// gamescope's own name for a filter.
pub fn gamescope_filter_value(filter: GamescopeFilter) -> (r: &'static str)
    ensures
        r@ == filter_value_spec(filter),
{
    match filter {
        GamescopeFilter::Linear => "linear",
        GamescopeFilter::Nearest => "nearest",
        GamescopeFilter::Fsr => "fsr",
        GamescopeFilter::Nis => "nis",
        GamescopeFilter::Pixel => "pixel",
    }
}

pub open spec fn scaler_value_spec(s: GamescopeScaler) -> Seq<char> {
    match s {
        GamescopeScaler::Auto => "auto"@,
        GamescopeScaler::Integer => "integer"@,
        GamescopeScaler::Fit => "fit"@,
        GamescopeScaler::Fill => "fill"@,
        GamescopeScaler::Stretch => "stretch"@,
    }
}

/// gamescope's own name for a scaler.
pub fn gamescope_scaler_value(scaler: GamescopeScaler) -> (r: &'static str)
    ensures
        r@ == scaler_value_spec(scaler),
{
    match scaler {
        GamescopeScaler::Auto => "auto",
        GamescopeScaler::Integer => "integer",
        GamescopeScaler::Fit => "fit",
        GamescopeScaler::Fill => "fill",
        GamescopeScaler::Stretch => "stretch",
    }
}

/// A flag followed by a number, when the number is set.
pub open spec fn num_flag(flag: Seq<char>, v: Option<u32>) -> Seq<Seq<char>> {
    match v {
        Some(n) => seq![flag, decimal(n as nat)],
        None => Seq::empty(),
    }
}

/// The extra gamescope flags for a set of settings: `-W`, `-H`, `-r`, `-w`,
/// `-h` with their numbers, `-F` and `-S` with their names,
/// `--force-grab-cursor` and `--adaptive-sync` when on. `borderless` is
/// not among them (it joins the mode instead).
pub open spec fn settings_args_spec(s: GamescopeSettings) -> Seq<Seq<char>> {
    num_flag("-W"@, s.output_width) + num_flag("-H"@, s.output_height) + num_flag("-r"@, s.refresh)
        + num_flag("-w"@, s.nested_width) + num_flag("-h"@, s.nested_height) + (match s.filter {
        Some(f) => seq!["-F"@, filter_value_spec(f)],
        None => Seq::empty(),
    }) + (match s.scaler {
        Some(x) => seq!["-S"@, scaler_value_spec(x)],
        None => Seq::empty(),
    }) + (if s.grab_cursor == Some(true) {
        seq!["--force-grab-cursor"@]
    } else {
        Seq::empty()
    }) + (if s.adaptive_sync == Some(true) {
        seq!["--adaptive-sync"@]
    } else {
        Seq::empty()
    })
}

fn push_num_flag(args: &mut Vec<String>, flag: &str, v: Option<u32>)
    ensures
        strings(final(args)@) == strings(old(args)@) + num_flag(flag@, v),
{
    match v {
        Some(n) => {
            let ghost before = args@;
            args.push(owned(flag));
            args.push(u64_to_string(n as u64));
            assert(strings(args@) =~= strings(before) + num_flag(flag@, v));
        },
        None => {
            assert(strings(args@) =~= strings(args@) + num_flag(flag@, v));
        },
    }
}

fn push_word(args: &mut Vec<String>, w: &str)
    ensures
        strings(final(args)@) == strings(old(args)@) + seq![w@],
{
    let ghost before = args@;
    args.push(owned(w));
    assert(strings(args@) =~= strings(before) + seq![w@]);
}

/// Extra `gamescope` flags from the gamescope settings.
pub fn gamescope_settings_args(settings: &GamescopeSettings) -> (r: Vec<String>)
    ensures
        strings(r@) == settings_args_spec(*settings),
{
    proof {
        reveal_strlit("-W");
        reveal_strlit("-H");
        reveal_strlit("-r");
        reveal_strlit("-w");
        reveal_strlit("-h");
        reveal_strlit("-F");
        reveal_strlit("-S");
        reveal_strlit("--force-grab-cursor");
        reveal_strlit("--adaptive-sync");
    }
    let mut args: Vec<String> = Vec::new();
    assert(strings(args@) =~= Seq::<Seq<char>>::empty());
    push_num_flag(&mut args, "-W", settings.output_width);
    push_num_flag(&mut args, "-H", settings.output_height);
    push_num_flag(&mut args, "-r", settings.refresh);
    push_num_flag(&mut args, "-w", settings.nested_width);
    push_num_flag(&mut args, "-h", settings.nested_height);
    let ghost s1 = strings(args@);
    match settings.filter {
        Some(f) => {
            push_word(&mut args, "-F");
            push_word(&mut args, gamescope_filter_value(f));
        },
        None => {},
    }
    let ghost s2 = strings(args@);
    match settings.scaler {
        Some(x) => {
            push_word(&mut args, "-S");
            push_word(&mut args, gamescope_scaler_value(x));
        },
        None => {},
    }
    let ghost s3 = strings(args@);
    if settings.grab_cursor == Some(true) {
        push_word(&mut args, "--force-grab-cursor");
    }
    let ghost s4 = strings(args@);
    if settings.adaptive_sync == Some(true) {
        push_word(&mut args, "--adaptive-sync");
    }
    assert(strings(args@) =~= settings_args_spec(*settings));
    args
}

/// Whether to spawn our own nested gamescope: requested, and not already
/// inside one.
pub fn should_wrap_with_gamescope(requested: bool, already_nested: bool) -> (r: bool)
    ensures
        r == (requested && !already_nested),
{
    requested && !already_nested
}

/// A launch wrapper split on whitespace, with a leading `~/` expanded in the
/// program alone.
pub open spec fn wrapper_argv_spec(wrapper: Seq<char>, home: Option<Seq<char>>) -> Seq<Seq<char>> {
    let parts = split_whitespace_spec(wrapper);
    if parts.len() == 0 {
        parts
    } else {
        parts.update(0, expand_home_spec(parts[0], home))
    }
}

/// Splits a `launch_wrapper` string into program and args against a known
/// home directory.
pub fn wrapper_argv_with(wrapper: &str, home: Option<&str>) -> (r: Vec<String>)
    ensures
        strings(r@) == wrapper_argv_spec(wrapper@, match home {
            Some(h) => Some(h@),
            None => None,
        }),
{
    let wv = chars_of(wrapper);
    let parts = split_whitespace(&wv);
    let mut out: Vec<String> = Vec::new();
    let mut i: usize = 0;
    let ghost hv = match home {
        Some(h) => Some(h@),
        None => None,
    };
    while i < parts.len()
        invariant
            i <= parts@.len(),
            views(parts@) == split_whitespace_spec(wv@),
            wv@ == wrapper@,
            hv == (match home {
                Some(h) => Some(h@),
                None => None,
            }),
            strings(out@) == (if i == 0 {
                Seq::<Seq<char>>::empty()
            } else {
                wrapper_argv_spec(wrapper@, hv).take(i as int)
            }),
        decreases parts@.len() - i,
    {
        let s = string_of(&parts[i]);
        let ghost before = out@;
        let ghost spec = wrapper_argv_spec(wrapper@, hv);
        assert(s@ == split_whitespace_spec(wrapper@)[i as int]);
        let ghost pushed: Seq<char>;
        if i == 0 {
            let e = expand_home_with(s.as_str(), home);
            proof {
                pushed = e@;
            }
            out.push(e);
        } else {
            proof {
                pushed = s@;
            }
            out.push(s);
        }
        assert(pushed == spec[i as int]);
        assert(strings(out@) =~= strings(before).push(pushed));
        assert(spec.take(i + 1) =~= spec.take(i as int).push(spec[i as int]));
        assert(strings(out@) =~= spec.take(i + 1));
        i = i + 1;
    }
    proof {
        if parts@.len() > 0 {
            assert(wrapper_argv_spec(wrapper@, hv).take(parts@.len() as int) =~= wrapper_argv_spec(
                wrapper@,
                hv,
            ));
        } else {
            assert(strings(out@) =~= wrapper_argv_spec(wrapper@, hv));
        }
    }
    out
}

/// Splits a `launch_wrapper` string into program and args, expanding a
/// leading `~/` in the program alone.
pub fn wrapper_argv(wrapper: &str) -> (r: Vec<String>)
    ensures
        exists|h: Option<Seq<char>>| strings(r@) == wrapper_argv_spec(wrapper@, h),
{
    match home_dir() {
        Some(h) => wrapper_argv_with(wrapper, Some(h.as_str())),
        None => wrapper_argv_with(wrapper, None),
    }
}

/// `cli` pairs applied over `base`, key by key.
pub fn merge_env(base: &StrMap, cli: &[(String, String)]) -> (r: StrMap)
    ensures
        r@ == base@.union_prefer_right(map_of_list(cli@.map_values(|p: (String, String)| pair_view(p)))),
{
    let mut merged = base.clone();
    let ghost ps = cli@.map_values(|p: (String, String)| pair_view(p));
    let mut i: usize = 0;
    assert(base@.union_prefer_right(map_of_list(ps.take(0))) =~= base@);
    while i < cli.len()
        invariant
            i <= cli@.len(),
            ps == cli@.map_values(|p: (String, String)| pair_view(p)),
            merged@ == base@.union_prefer_right(map_of_list(ps.take(i as int))),
        decreases cli@.len() - i,
    {
        assert(ps.take(i + 1).drop_last() == ps.take(i as int));
        merged.insert(cli[i].0.clone(), cli[i].1.clone());
        assert(merged@ =~= base@.union_prefer_right(map_of_list(ps.take(i + 1))));
        i = i + 1;
    }
    assert(ps.take(cli@.len() as int) == ps);
    merged
}

/// `dll=modes` for one entry.
pub open spec fn override_item(p: (Seq<char>, Seq<char>)) -> Seq<char> {
    p.0 + "="@ + p.1
}

/// The `WINEDLLOVERRIDES` value for a table: its entries, in key order, as
/// `dll=modes` joined with `;`; none for an empty table.
pub open spec fn overrides_spec(ps: Seq<(Seq<char>, Seq<char>)>) -> Option<Seq<char>> {
    if ps.len() == 0 {
        None
    } else {
        Some(join_spec(ps.map_values(|p: (Seq<char>, Seq<char>)| override_item(p)), ";"@))
    }
}

/// Joins a per-DLL override table into one `WINEDLLOVERRIDES` value.
pub fn winedlloverrides_value(overrides: &StrMap) -> (r: Option<String>)
    ensures
        opt_view(r) == overrides_spec(overrides.pairs()),
{
    let es = overrides.entries();
    if es.len() == 0 {
        return None;
    }
    proof {
        reveal_strlit("=");
        reveal_strlit(";");
    }
    let ghost ps = overrides.pairs();
    let ghost items = ps.map_values(|p: (Seq<char>, Seq<char>)| override_item(p));
    let mut pieces: Vec<Vec<char>> = Vec::new();
    let mut i: usize = 0;
    while i < es.len()
        invariant
            i <= es@.len(),
            es@.map_values(|p: (String, String)| pair_view(p)) == ps,
            items == ps.map_values(|p: (Seq<char>, Seq<char>)| override_item(p)),
            views(pieces@) == items.take(i as int),
        decreases es@.len() - i,
    {
        let mut item = chars_of(es[i].0.as_str());
        assert(ps[i as int] == pair_view(es@[i as int]));
        item.push('=');
        let v = chars_of(es[i].1.as_str());
        let ghost before = item@;
        item.extend_from_slice(&v);
        proof {
            reveal_strlit("=");
        }
        assert("="@ =~= seq!['=']);
        assert(item@ =~= override_item(ps[i as int]));
        let ghost pv = pieces@;
        pieces.push(item);
        assert(views(pieces@) =~= views(pv).push(item@));
        assert(items.take(i + 1) =~= items.take(i as int).push(items[i as int]));
        assert(views(pieces@) =~= items.take(i + 1));
        i = i + 1;
    }
    assert(items.take(es@.len() as int) == items);
    let sep: Vec<char> = vec![';'];
    assert(sep@ == ";"@);
    let joined = crate::text::join(&pieces, &sep);
    Some(string_of(&joined))
}

// ---------------------------------------------------------------------------
// Profiles for a launch
// ---------------------------------------------------------------------------

/// The `n`th candidate slug for `base`: `base` itself first, then
/// `base-2`, `base-3`, ...
pub open spec fn cand_slug(base: Seq<char>, n: nat) -> Seq<char> {
    if n <= 1 {
        base
    } else {
        base + "-"@ + decimal(n)
    }
}

/// The `n`th candidate display name for `base`: `base#1`, `base#2`, ...
pub open spec fn cand_name(base: Seq<char>, n: nat) -> Seq<char> {
    base + "#"@ + decimal(n)
}

/// The (slug, name) of each existing profile.
pub open spec fn slugs_and_names(existing: Seq<(String, Profile)>) -> Seq<(Seq<char>, Seq<char>)> {
    existing.map_values(|e: (String, Profile)| (e.0@, e.1.name@))
}

/// Candidate `n` collides with an existing slug or an existing name.
pub open spec fn taken(es: Seq<(Seq<char>, Seq<char>)>, base: Seq<char>, n: nat) -> bool {
    exists|i: int| 0 <= i < es.len() && (#[trigger] es[i].0 == cand_slug(base, n) || es[i].1 == cand_name(base, n))
}

/// The first free candidate: `k` is free and every earlier one is taken.
pub open spec fn first_free(es: Seq<(Seq<char>, Seq<char>)>, base: Seq<char>, k: nat) -> bool {
    &&& k >= 1
    &&& !taken(es, base, k)
    &&& forall|m: nat| 1 <= m < k ==> #[trigger] taken(es, base, m)
}

/// Different candidate numbers give different slugs.
pub proof fn lemma_cand_slug_injective(base: Seq<char>, m: nat, n: nat)
    requires
        m >= 1,
        n >= 1,
        cand_slug(base, m) == cand_slug(base, n),
    ensures
        m == n,
{
    reveal_strlit("-");
    crate::text::lemma_decimal_digits(m);
    crate::text::lemma_decimal_digits(n);
    if m >= 2 && n >= 2 {
        let a = cand_slug(base, m);
        let b = cand_slug(base, n);
        assert(decimal(m) =~= a.subrange(base.len() + 1int, a.len() as int));
        assert(decimal(n) =~= b.subrange(base.len() + 1int, b.len() as int));
        crate::text::lemma_decimal_injective(m, n);
    }
}

/// Different candidate numbers give different names.
pub proof fn lemma_cand_name_injective(base: Seq<char>, m: nat, n: nat)
    requires
        cand_name(base, m) == cand_name(base, n),
    ensures
        m == n,
{
    reveal_strlit("#");
    let a = cand_name(base, m);
    let b = cand_name(base, n);
    assert(decimal(m) =~= a.subrange(base.len() + 1int, a.len() as int));
    assert(decimal(n) =~= b.subrange(base.len() + 1int, b.len() as int));
    crate::text::lemma_decimal_injective(m, n);
}

/// An existing slug equals some candidate from `n` on.
pub open spec fn slug_ahead(s: Seq<char>, base: Seq<char>, n: nat) -> bool {
    exists|m: nat| m >= n && m >= 1 && s == #[trigger] cand_slug(base, m)
}

/// An existing name equals some candidate from `n` on.
pub open spec fn name_ahead(t: Seq<char>, base: Seq<char>, n: nat) -> bool {
    exists|m: nat| m >= n && t == #[trigger] cand_name(base, m)
}

/// How many existing slugs and names can still collide with a candidate
/// from `n` on.
pub open spec fn collisions_ahead(es: Seq<(Seq<char>, Seq<char>)>, base: Seq<char>, n: nat) -> nat
    decreases es.len(),
{
    if es.len() == 0 {
        0
    } else {
        collisions_ahead(es.drop_last(), base, n) + (if slug_ahead(es.last().0, base, n) {
            1nat
        } else {
            0nat
        }) + (if name_ahead(es.last().1, base, n) {
            1nat
        } else {
            0nat
        })
    }
}

proof fn lemma_collisions_bound(es: Seq<(Seq<char>, Seq<char>)>, base: Seq<char>, n: nat)
    ensures
        collisions_ahead(es, base, n) <= 2 * es.len(),
    decreases es.len(),
{
    if es.len() > 0 {
        lemma_collisions_bound(es.drop_last(), base, n);
    }
}

/// Moving past a taken candidate strictly lowers the collisions ahead.
proof fn lemma_collisions_drop(es: Seq<(Seq<char>, Seq<char>)>, base: Seq<char>, n: nat, i: int)
    requires
        n >= 1,
        0 <= i < es.len(),
        es[i].0 == cand_slug(base, n) || es[i].1 == cand_name(base, n),
    ensures
        collisions_ahead(es, base, n + 1) < collisions_ahead(es, base, n),
    decreases es.len(),
{
    let last = es.last();
    let rest = es.drop_last();
    // The last entry never gains a collision by moving on.
    if slug_ahead(last.0, base, (n + 1) as nat) {
        let m = choose|m: nat| m >= n + 1 && m >= 1 && last.0 == #[trigger] cand_slug(base, m);
        assert(slug_ahead(last.0, base, n));
    }
    if name_ahead(last.1, base, (n + 1) as nat) {
        let m = choose|m: nat| m >= n + 1 && last.1 == #[trigger] cand_name(base, m);
        assert(name_ahead(last.1, base, n));
    }
    if i == es.len() - 1 {
        lemma_collisions_monotone(rest, base, n);
        if last.0 == cand_slug(base, n) {
            assert(slug_ahead(last.0, base, n));
            if slug_ahead(last.0, base, (n + 1) as nat) {
                let m = choose|m: nat| m >= n + 1 && m >= 1 && last.0 == #[trigger] cand_slug(base, m);
                lemma_cand_slug_injective(base, m, n);
            }
        } else {
            assert(name_ahead(last.1, base, n));
            if name_ahead(last.1, base, (n + 1) as nat) {
                let m = choose|m: nat| m >= n + 1 && last.1 == #[trigger] cand_name(base, m);
                lemma_cand_name_injective(base, m, n);
            }
        }
    } else {
        assert(rest[i] == es[i]);
        lemma_collisions_drop(rest, base, n, i);
    }
}

proof fn lemma_collisions_monotone(es: Seq<(Seq<char>, Seq<char>)>, base: Seq<char>, n: nat)
    ensures
        collisions_ahead(es, base, n + 1) <= collisions_ahead(es, base, n),
    decreases es.len(),
{
    if es.len() > 0 {
        let last = es.last();
        lemma_collisions_monotone(es.drop_last(), base, n);
        if slug_ahead(last.0, base, (n + 1) as nat) {
            let m = choose|m: nat| m >= n + 1 && m >= 1 && last.0 == #[trigger] cand_slug(base, m);
            assert(slug_ahead(last.0, base, n));
        }
        if name_ahead(last.1, base, (n + 1) as nat) {
            let m = choose|m: nat| m >= n + 1 && last.1 == #[trigger] cand_name(base, m);
            assert(name_ahead(last.1, base, n));
        }
    }
}

/// Entry `i` uses `slug` as its slug or `name` as its name.
pub open spec fn entry_clash(es: Seq<(Seq<char>, Seq<char>)>, i: int, slug: Seq<char>, name: Seq<char>) -> bool {
    0 <= i < es.len() && (es[i].0 == slug || es[i].1 == name)
}

/// Whether `slug` or `name` is already used by an existing profile.
fn is_taken(existing: &[(String, Profile)], slug: &str, name: &str) -> (r: bool)
    ensures
        r == exists|i: int| #[trigger] entry_clash(slugs_and_names(existing@), i, slug@, name@),
{
    let ghost es = slugs_and_names(existing@);
    let mut i: usize = 0;
    while i < existing.len()
        invariant
            i <= existing@.len(),
            es == slugs_and_names(existing@),
            forall|j: int| 0 <= j < i ==> !(#[trigger] entry_clash(es, j, slug@, name@)),
        decreases existing@.len() - i,
    {
        assert(es[i as int] == (existing@[i as int].0@, existing@[i as int].1.name@));
        let same_slug = crate::text::str_eq(existing[i].0.as_str(), slug);
        let same_name = crate::text::str_eq(existing[i].1.name.as_str(), name);
        if same_slug || same_name {
            assert(es[i as int].0 == slug@ || es[i as int].1 == name@);
            assert(entry_clash(slugs_and_names(existing@), i as int, slug@, name@));
            return true;
        }
        assert(!entry_clash(es, i as int, slug@, name@));
        i = i + 1;
    }
    false
}

/// Builds candidate slug `n` (see `cand_slug`).
pub fn make_cand_slug(base: &str, n: u128) -> (r: String)
    requires
        n >= 1,
    ensures
        r@ == cand_slug(base@, n as nat),
{
    if n == 1 {
        owned(base)
    } else {
        proof {
            reveal_strlit("-");
        }
        let d = crate::text::u128_to_string(n);
        crate::text::concat3(base, "-", d.as_str())
    }
}

/// Builds candidate name `n` (see `cand_name`).
pub fn make_cand_name(base: &str, n: u128) -> (r: String)
    ensures
        r@ == cand_name(base@, n as nat),
{
    proof {
        reveal_strlit("#");
    }
    let d = crate::text::u128_to_string(n);
    crate::text::concat3(base, "#", d.as_str())
}

/// The first (slug, name) pair built from `base` (`base`/`base#1`, then
/// `base-2`/`base#2`, ...) that collides with neither an existing slug nor
/// an existing name, each checked on its own.
pub fn next_available_slug_and_name(base: &str, existing: &[(String, Profile)]) -> (r: (String, String))
    ensures
        exists|k: nat|
            first_free(slugs_and_names(existing@), base@, k) && r.0@ == cand_slug(base@, k) && r.1@ == cand_name(
                base@,
                k,
            ),
{
    let ghost es = slugs_and_names(existing@);
    let mut n: u128 = 1;
    let mut slug = make_cand_slug(base, n);
    let mut name = make_cand_name(base, n);
    let total = existing.len();
    proof {
        lemma_collisions_bound(es, base@, 1);
    }
    while is_taken(existing, slug.as_str(), name.as_str())
        invariant
            n >= 1,
            es == slugs_and_names(existing@),
            existing@.len() <= usize::MAX,
            slug@ == cand_slug(base@, n as nat),
            name@ == cand_name(base@, n as nat),
            forall|m: nat| 1 <= m < n ==> #[trigger] taken(es, base@, m),
            n + collisions_ahead(es, base@, n as nat) <= 2 * existing@.len() + 1,
        decreases collisions_ahead(es, base@, n as nat),
    {
        let ghost i = choose|i: int| #[trigger] entry_clash(es, i, slug@, name@);
        proof {
            assert(taken(es, base@, n as nat));
            lemma_collisions_drop(es, base@, n as nat, i);
        }
        n = n + 1;
        slug = make_cand_slug(base, n);
        name = make_cand_name(base, n);
        proof {
            assert forall|m: nat| 1 <= m < n implies #[trigger] taken(es, base@, m) by {
                if m == n - 1 {
                    assert(es[i].0 == cand_slug(base@, m) || es[i].1 == cand_name(base@, m));
                }
            }
        }
    }
    proof {
        if taken(es, base@, n as nat) {
            let i = choose|i: int| 0 <= i < es.len() && (#[trigger] es[i].0 == cand_slug(base@, n as nat) || es[i].1 == cand_name(base@, n as nat));
            assert(entry_clash(es, i, slug@, name@));
        }
        assert(first_free(es, base@, n as nat));
    }
    (slug, name)
}

/// Index of the first existing profile for exe `target`, if any.
pub fn find_profile_by_target(existing: &[(String, Profile)], target: &str) -> (r: Option<usize>)
    ensures
        match r {
            Some(i) => i < existing@.len() && existing@[i as int].1.target_path@ == target@ && forall|j: int|
                0 <= j < i ==> (#[trigger] existing@[j]).1.target_path@ != target@,
            None => forall|j: int| 0 <= j < existing@.len() ==> (#[trigger] existing@[j]).1.target_path@ != target@,
        },
{
    let mut i: usize = 0;
    while i < existing.len()
        invariant
            i <= existing@.len(),
            forall|j: int| 0 <= j < i ==> (#[trigger] existing@[j]).1.target_path@ != target@,
        decreases existing@.len() - i,
    {
        if crate::text::str_eq(existing[i].1.target_path.as_str(), target) {
            return Some(i);
        }
        i = i + 1;
    }
    None
}

/// The profile for exe `target`: the first existing one that names it, or
/// else a new one whose slug and name are the first free candidates built
/// from `base`. The flag says whether the profile is new (and so still has
/// to be saved).
pub open spec fn ensured_profile(
    existing: Seq<(String, Profile)>,
    target: Seq<char>,
    base: Seq<char>,
    r: (String, Profile, bool),
) -> bool {
    if exists|j: int| 0 <= j < existing.len() && (#[trigger] existing[j]).1.target_path@ == target {
        exists|i: int|
            0 <= i < existing.len() && (#[trigger] existing[i]).1.target_path@ == target && (forall|j: int|
                0 <= j < i ==> (#[trigger] existing[j]).1.target_path@ != target) && r.0@ == existing[i].0@
                && crate::config::same_profile(r.1, existing[i].1) && !r.2
    } else {
        r.2 && exists|k: nat|
            first_free(slugs_and_names(existing), base, k) && r.0@ == cand_slug(base, k)
                && crate::config::is_fresh_profile(r.1, cand_name(base, k), target)
    }
}

/// `ensure_profile` with the starting-point slug already derived.
pub fn ensure_profile_with_base(target: &str, base: &str, existing: &[(String, Profile)]) -> (r: (
    String,
    Profile,
    bool,
))
    ensures
        ensured_profile(existing@, target@, base@, r),
{
    match find_profile_by_target(existing, target) {
        Some(i) => {
            let slug = existing[i].0.clone();
            let profile = existing[i].1.clone();
            (slug, profile, false)
        },
        None => {
            let (slug, name) = next_available_slug_and_name(base, existing);
            let profile = Profile::fresh(name, owned(target));
            (slug, profile, true)
        },
    }
}

/// Finds the profile whose exe is `target`, or builds a new one for it
/// (slug from the exe's file stem, disambiguated against `existing`, both
/// slug and name checked on their own). Saving a new one is the caller's.
pub fn ensure_profile(target: &str, existing: &[(String, Profile)]) -> (r: (String, Profile, bool))
    ensures
        ensured_profile(existing@, target@, crate::prefix::slug_from_stem_spec(crate::prefix::spec_file_stem(target@)), r),
{
    let base = crate::prefix::slug_from_exe(target);
    ensure_profile_with_base(target, base.as_str(), existing)
}

// ---------------------------------------------------------------------------
// ProtonFixes summary
// ---------------------------------------------------------------------------

/// What follows `ProtonFixes[` on a line, when the line has it.
pub open spec fn pf_message(line: Seq<char>) -> Option<Seq<char>> {
    match crate::text::split_once_str_spec(line, "ProtonFixes["@) {
        Some(p) => Some(p.1),
        None => None,
    }
}

/// The applied-fix text of a ProtonFixes message: from `Using ` on,
/// trimmed, when that part mentions ` protonfix for `.
pub open spec fn pf_applied(msg: Seq<char>) -> Option<Seq<char>> {
    match crate::text::find_spec(msg, "Using "@) {
        Some(i) => {
            let tail = msg.subrange(i, msg.len() as int);
            if crate::text::contains_spec(tail, " protonfix for "@) {
                Some(crate::text::trim_spec(tail))
            } else {
                None
            }
        },
        None => None,
    }
}

/// The applied fixes found in a list of lines, in order.
pub open spec fn pf_applied_list(ls: Seq<Seq<char>>) -> Seq<Seq<char>>
    decreases ls.len(),
{
    if ls.len() == 0 {
        Seq::empty()
    } else {
        pf_applied_list(ls.drop_last()) + match pf_message(ls.last()) {
            Some(m) => match pf_applied(m) {
                Some(a) => seq![a],
                None => Seq::empty(),
            },
            None => Seq::empty(),
        }
    }
}

/// ProtonFixes ran: some line carries its marker.
pub open spec fn pf_ran(ls: Seq<Seq<char>>) -> bool {
    exists|i: int| 0 <= i < ls.len() && (#[trigger] pf_message(ls[i])) is Some
}

/// The one-line report for a log: none when ProtonFixes never ran, else
/// which fixes were applied, or that none was found.
pub open spec fn pf_summary_spec(text: Seq<char>) -> Option<Seq<char>> {
    let ls = crate::text::lines_spec(text);
    if !pf_ran(ls) {
        None
    } else if pf_applied_list(ls).len() == 0 {
        Some("no protonfix found for this game"@)
    } else {
        Some("protonfix applied \u{2014} "@ + join_spec(pf_applied_list(ls), "; "@))
    }
}

fn protonfix_of_line(line: &[char]) -> (r: (bool, Option<Vec<char>>))
    ensures
        r.0 == (pf_message(line@) is Some),
        match r.1 {
            Some(a) => pf_message(line@) matches Some(m) && pf_applied(m) == Some(a@),
            None => !(pf_message(line@) matches Some(m) && pf_applied(m) is Some),
        },
{
    let marker: Vec<char> = chars_of("ProtonFixes[");
    match crate::text::split_once_str(line, &marker) {
        None => (false, None),
        Some((_, msg)) => {
            let using: Vec<char> = chars_of("Using ");
            match crate::text::chars_find(&msg, &using) {
                None => (true, None),
                Some(idx) => {
                    proof {
                        crate::text::lemma_find_from_props(msg@, using@, 0);
                    }
                    let n = msg.len();
                    let tail = crate::text::slice_range(&msg, idx, n);
                    let needle: Vec<char> = chars_of(" protonfix for ");
                    match crate::text::chars_find(&tail, &needle) {
                        Some(_) => (true, Some(crate::text::trim(&tail))),
                        None => (true, None),
                    }
                },
            }
        },
    }
}

/// Reports whether ProtonFixes found and applied anything game-specific, by
/// scanning the captured output of a launch.
pub fn summarize_protonfixes(log_text: &str) -> (r: Option<String>)
    ensures
        opt_view(r) == pf_summary_spec(log_text@),
{
    let tv = chars_of(log_text);
    let ls = crate::text::lines(&tv);
    let ghost lv = views(ls@);
    let mut ran_at_all = false;
    let mut applied: Vec<Vec<char>> = Vec::new();
    let mut i: usize = 0;
    while i < ls.len()
        invariant
            i <= ls@.len(),
            lv == views(ls@),
            lv == crate::text::lines_spec(log_text@),
            ran_at_all == pf_ran(lv.take(i as int)),
            views(applied@) == pf_applied_list(lv.take(i as int)),
        decreases ls@.len() - i,
    {
        let (ran, found) = protonfix_of_line(&ls[i]);
        let ghost pre = lv.take(i as int);
        let ghost post = lv.take(i + 1);
        assert(post.drop_last() == pre);
        assert(post.last() == ls@[i as int]@);
        assert(pf_ran(post) == (pf_ran(pre) || pf_message(post.last()) is Some)) by {
            if pf_ran(pre) {
                let j = choose|j: int| 0 <= j < pre.len() && (#[trigger] pf_message(pre[j])) is Some;
                assert(post[j] == pre[j]);
            }
            if pf_ran(post) {
                let j = choose|j: int| 0 <= j < post.len() && (#[trigger] pf_message(post[j])) is Some;
                if j < pre.len() {
                    assert(post[j] == pre[j]);
                }
            }
            if pf_message(post.last()) is Some {
                assert(pf_message(post[post.len() - 1]) is Some);
            }
        }
        if ran {
            ran_at_all = true;
        }
        let ghost av = applied@;
        match found {
            Some(a) => {
                applied.push(a);
                assert(views(applied@) =~= views(av).push(a@));
            },
            None => {},
        }
        assert(views(applied@) =~= pf_applied_list(post));
        i = i + 1;
    }
    assert(lv.take(ls@.len() as int) == lv);
    if !ran_at_all {
        return None;
    }
    if applied.len() == 0 {
        return Some(owned("no protonfix found for this game"));
    }
    let sep: Vec<char> = chars_of("; ");
    let joined = crate::text::join(&applied, &sep);
    let joined_s = string_of(&joined);
    Some(crate::text::concat("protonfix applied \u{2014} ", joined_s.as_str()))
}

// ---------------------------------------------------------------------------
// What a launch runs
// ---------------------------------------------------------------------------

/// The gamescope mode of a launch: the command line's `-f`/`-w` when either
/// is given, else the remembered setting; borderless when either the
/// command line or the settings ask for it.
pub open spec fn launch_mode_spec(cli: GamescopeMode, setting: GamescopeSetting, borderless: Option<bool>) -> GamescopeMode {
    let base = if cli.fullscreen || cli.maximize {
        cli
    } else {
        mode_of_setting(setting)
    };
    GamescopeMode { borderless: cli.borderless || borderless == Some(true), ..base }
}

/// The gamescope mode of a launch, from the command line's flags and the
/// launch's settings.
pub fn launch_mode(cli: GamescopeMode, effective: &Effective) -> (r: GamescopeMode)
    ensures
        r == launch_mode_spec(cli, effective.gamescope, effective.gamescope_settings.borderless),
{
    let mut mode = if cli.fullscreen || cli.maximize {
        cli
    } else {
        GamescopeMode::from_setting(effective.gamescope)
    };
    mode.borderless = cli.borderless || effective.gamescope_settings.borderless == Some(true);
    mode
}

/// The program and arguments that would run without a wrapper: `gamescope`
/// with its flags around `umu-run` when wrapping, else `umu-run`; then the
/// exe, the profile's own args, and the command line's args.
pub open spec fn inner_command_spec(
    wrap: bool,
    mode: GamescopeMode,
    settings: GamescopeSettings,
    target: Seq<char>,
    profile_args: Seq<Seq<char>>,
    cli_args: Seq<Seq<char>>,
) -> (Seq<char>, Seq<Seq<char>>) {
    if wrap {
        (
            "gamescope"@,
            mode_args_spec(mode) + settings_args_spec(settings) + seq!["--"@, "umu-run"@] + seq![target]
                + profile_args + cli_args,
        )
    } else {
        ("umu-run"@, seq![target] + profile_args + cli_args)
    }
}

/// The full command: the wrapper's program and args ahead of the inner
/// program and its args, when a non-empty wrapper is given.
pub open spec fn command_spec(
    inner: (Seq<char>, Seq<Seq<char>>),
    wrapper: Option<Seq<Seq<char>>>,
) -> (Seq<char>, Seq<Seq<char>>) {
    match wrapper {
        Some(w) => if w.len() > 0 {
            (w[0], w.drop_first() + seq![inner.0] + inner.1)
        } else {
            inner
        },
        None => inner,
    }
}

fn append_strings(out: &mut Vec<String>, v: &[String])
    ensures
        strings(final(out)@) == strings(old(out)@) + strings(v@),
{
    let ghost start = out@;
    let mut i: usize = 0;
    while i < v.len()
        invariant
            i <= v@.len(),
            strings(out@) == strings(start) + strings(v@.take(i as int)),
        decreases v@.len() - i,
    {
        let ghost before = out@;
        out.push(v[i].clone());
        assert(strings(v@.take(i + 1)) =~= strings(v@.take(i as int)).push(v@[i as int]@));
        assert(strings(out@) =~= strings(before).push(v@[i as int]@));
        i = i + 1;
    }
    assert(v@.take(v@.len() as int) == v@);
}

fn static_strings(v: &Vec<&'static str>) -> (r: Vec<String>)
    ensures
        strings(r@) == strs(v@),
{
    let mut out: Vec<String> = Vec::new();
    let mut i: usize = 0;
    while i < v.len()
        invariant
            i <= v@.len(),
            strings(out@) == strs(v@.take(i as int)),
        decreases v@.len() - i,
    {
        let ghost before = out@;
        out.push(owned(v[i]));
        assert(strs(v@.take(i + 1)) =~= strs(v@.take(i as int)).push(v@[i as int]@));
        assert(strings(out@) =~= strings(before).push(v@[i as int]@));
        i = i + 1;
    }
    assert(v@.take(v@.len() as int) == v@);
    out
}

/// The program and arguments one launch spawns.
pub fn launch_command(
    wrap: bool,
    mode: GamescopeMode,
    settings: &GamescopeSettings,
    target: &str,
    profile_args: &[String],
    cli_args: &[String],
    wrapper: Option<&Vec<String>>,
) -> (r: (String, Vec<String>))
    ensures
        (r.0@, strings(r.1@)) == command_spec(
            inner_command_spec(wrap, mode, *settings, target@, strings(profile_args@), strings(cli_args@)),
            match wrapper {
                Some(w) => Some(strings(w@)),
                None => None,
            },
        ),
{
    proof {
        reveal_strlit("gamescope");
        reveal_strlit("umu-run");
        reveal_strlit("--");
    }
    let mut inner_args: Vec<String> = Vec::new();
    let inner_program: &str = if wrap {
        let ma = mode.args();
        let mut a = static_strings(&ma);
        let sa = gamescope_settings_args(settings);
        append_strings(&mut a, &sa);
        push_word(&mut a, "--");
        push_word(&mut a, "umu-run");
        inner_args = a;
        "gamescope"
    } else {
        assert(strings(inner_args@) =~= Seq::<Seq<char>>::empty());
        "umu-run"
    };
    push_word(&mut inner_args, target);
    append_strings(&mut inner_args, profile_args);
    append_strings(&mut inner_args, cli_args);
    let ghost inner = inner_command_spec(wrap, mode, *settings, target@, strings(profile_args@), strings(cli_args@));
    assert(inner_program@ == inner.0);
    assert(strings(inner_args@) =~= inner.1);
    match wrapper {
        Some(w) => {
            if w.len() > 0 {
                let mut args: Vec<String> = Vec::new();
                let mut i: usize = 1;
                while i < w.len()
                    invariant
                        1 <= i <= w@.len(),
                        strings(args@) == strings(w@).subrange(1, i as int),
                    decreases w@.len() - i,
                {
                    let ghost before = args@;
                    let x = w[i].clone();
                    args.push(x);
                    assert(strings(args@) =~= strings(before).push(x@));
                    assert(strings(w@).subrange(1, i + 1) =~= strings(w@).subrange(1, i as int).push(x@));
                    assert(strings(args@) =~= strings(w@).subrange(1, i + 1));
                    i = i + 1;
                }
                assert(strings(w@).subrange(1, w@.len() as int) =~= strings(w@).drop_first());
                push_word(&mut args, inner_program);
                append_strings(&mut args, &inner_args);
                return (w[0].clone(), args);
            }
            (owned(inner_program), inner_args)
        },
        None => (owned(inner_program), inner_args),
    }
}

/// The error message when spawning the launch fails.
pub open spec fn spawn_failure_spec(wrapper: Option<Seq<char>>, wrap: bool) -> Seq<char> {
    match wrapper {
        Some(w) => "failed to spawn launch_wrapper \""@ + w
            + "\" (is it installed and on $PATH/executable?)"@,
        None => if wrap {
            "failed to spawn gamescope (is it installed and on $PATH? required for -f/-w/-b)"@
        } else {
            "failed to spawn umu-run (is it installed and on $PATH?)"@
        },
    }
}

/// The error message when spawning the launch fails: the wrapper, gamescope
/// or `umu-run`, whichever was spawned.
pub fn spawn_failure_message(wrapper: Option<&str>, wrap: bool) -> (r: String)
    ensures
        r@ == spawn_failure_spec(
            match wrapper {
                Some(w) => Some(w@),
                None => None,
            },
            wrap,
        ),
{
    match wrapper {
        Some(w) => crate::text::concat3(
            "failed to spawn launch_wrapper \"",
            w,
            "\" (is it installed and on $PATH/executable?)",
        ),
        None => if wrap {
            owned("failed to spawn gamescope (is it installed and on $PATH? required for -f/-w/-b)")
        } else {
            owned("failed to spawn umu-run (is it installed and on $PATH?)")
        },
    }
}

/// The title used to look up a game's GAMEID: the profile's title, else the
/// exe's file stem, else nothing.
pub fn gameid_query(title: Option<&str>, stem: Option<&str>) -> (r: String)
    ensures
        r@ == (match title {
            Some(t) => t@,
            None => match stem {
                Some(s) => s@,
                None => Seq::<char>::empty(),
            },
        }),
{
    match title {
        Some(t) => owned(t),
        None => match stem {
            Some(s) => owned(s),
            None => String::new(),
        },
    }
}

/// The launch's own environment table: the settings' env with the command
/// line's pairs over it, plus `PROTON_VERB=run` when the prefix is already
/// in use and the table does not set `PROTON_VERB` itself.
pub open spec fn launch_env_spec(
    base: Map<Seq<char>, Seq<char>>,
    cli: Seq<(Seq<char>, Seq<char>)>,
    prefix_active: bool,
) -> Map<Seq<char>, Seq<char>> {
    let m = base.union_prefer_right(map_of_list(cli));
    if !m.dom().contains("PROTON_VERB"@) && prefix_active {
        m.insert("PROTON_VERB"@, "run"@)
    } else {
        m
    }
}

/// The environment table of one launch.
pub fn launch_env(base: &StrMap, cli: &[(String, String)], prefix_active: bool) -> (r: StrMap)
    ensures
        r@ == launch_env_spec(base@, cli@.map_values(|p: (String, String)| pair_view(p)), prefix_active),
{
    let mut env = merge_env(base, cli);
    if prefix_active && !env.contains_key("PROTON_VERB") {
        env.insert(owned("PROTON_VERB"), owned("run"));
    }
    env
}

/// The variables every launch sets ahead of its table: `WINEPREFIX`,
/// `IPROLAUNCH_LAUNCH_ID`, then `PROTONPATH` (a Proton other than the
/// system one), `GAMEID` (when matched) and `WINEDLLOVERRIDES` (when any).
pub open spec fn fixed_env_spec(
    prefix: Seq<char>,
    launch_id: Seq<char>,
    proton: Seq<char>,
    gameid: Option<Seq<char>>,
    overrides: Option<Seq<char>>,
) -> Seq<(Seq<char>, Seq<char>)> {
    seq![("WINEPREFIX"@, prefix), ("IPROLAUNCH_LAUNCH_ID"@, launch_id)] + (if proton.len() > 0 && proton
        != "system"@ {
        seq![("PROTONPATH"@, proton)]
    } else {
        Seq::empty()
    }) + (match gameid {
        Some(g) => seq![("GAMEID"@, g)],
        None => Seq::empty(),
    }) + (match overrides {
        Some(o) => seq![("WINEDLLOVERRIDES"@, o)],
        None => Seq::empty(),
    })
}

/// The fixed launch environment passes the chosen Proton build: it has a
/// `PROTONPATH` entry exactly when the build is set and is not `system`,
/// and that entry's value is the build; `WINEPREFIX` and the launch id are
/// always there, with the given values.
pub proof fn lemma_fixed_env_protonpath(
    prefix: Seq<char>,
    launch_id: Seq<char>,
    proton: Seq<char>,
    gameid: Option<Seq<char>>,
    overrides: Option<Seq<char>>,
)
    ensures
        (exists|i: int|
            0 <= i < fixed_env_spec(prefix, launch_id, proton, gameid, overrides).len() && (#[trigger] fixed_env_spec(
                prefix,
                launch_id,
                proton,
                gameid,
                overrides,
            )[i]).0 == "PROTONPATH"@) <==> (proton.len() > 0 && proton != "system"@),
        forall|i: int|
            0 <= i < fixed_env_spec(prefix, launch_id, proton, gameid, overrides).len() && (#[trigger] fixed_env_spec(
                prefix,
                launch_id,
                proton,
                gameid,
                overrides,
            )[i]).0 == "PROTONPATH"@ ==> fixed_env_spec(prefix, launch_id, proton, gameid, overrides)[i].1 == proton,
        fixed_env_spec(prefix, launch_id, proton, gameid, overrides).len() >= 2,
        fixed_env_spec(prefix, launch_id, proton, gameid, overrides)[0] == ("WINEPREFIX"@, prefix),
        fixed_env_spec(prefix, launch_id, proton, gameid, overrides)[1] == ("IPROLAUNCH_LAUNCH_ID"@, launch_id),
{
    reveal_strlit("PROTONPATH");
    reveal_strlit("WINEPREFIX");
    reveal_strlit("IPROLAUNCH_LAUNCH_ID");
    reveal_strlit("GAMEID");
    reveal_strlit("WINEDLLOVERRIDES");
    let e = fixed_env_spec(prefix, launch_id, proton, gameid, overrides);
    let pp = "PROTONPATH"@;
    assert("WINEPREFIX"@ != pp) by {
        assert("WINEPREFIX"@[0] != pp[0]);
    }
    assert("IPROLAUNCH_LAUNCH_ID"@ != pp) by {
        assert("IPROLAUNCH_LAUNCH_ID"@.len() != pp.len());
    }
    assert("GAMEID"@ != pp) by {
        assert("GAMEID"@.len() != pp.len());
    }
    assert("WINEDLLOVERRIDES"@ != pp) by {
        assert("WINEDLLOVERRIDES"@.len() != pp.len());
    }
    let has = proton.len() > 0 && proton != "system"@;
    let base = seq![("WINEPREFIX"@, prefix), ("IPROLAUNCH_LAUNCH_ID"@, launch_id)];
    let mid: Seq<(Seq<char>, Seq<char>)> = if has {
        seq![(pp, proton)]
    } else {
        Seq::empty()
    };
    let g: Seq<(Seq<char>, Seq<char>)> = match gameid {
        Some(x) => seq![("GAMEID"@, x)],
        None => Seq::empty(),
    };
    let o: Seq<(Seq<char>, Seq<char>)> = match overrides {
        Some(x) => seq![("WINEDLLOVERRIDES"@, x)],
        None => Seq::empty(),
    };
    assert(e == base + mid + g + o);
    assert forall|i: int| 0 <= i < e.len() && (#[trigger] e[i]).0 == pp implies has && e[i].1 == proton by {
        if i < 2 {
            assert(e[i] == base[i]);
        } else if i < 2 + mid.len() {
            assert(e[i] == mid[i - 2]);
        } else if i < 2 + mid.len() + g.len() {
            assert(e[i] == g[i - 2 - mid.len()]);
        } else {
            assert(e[i] == o[i - 2 - mid.len() - g.len()]);
        }
    }
    if has {
        assert(e[2] == (pp, proton));
    }
}

fn push_pair(out: &mut Vec<(String, String)>, k: &str, v: &str)
    ensures
        final(out)@.map_values(|p: (String, String)| pair_view(p)) == old(out)@.map_values(
            |p: (String, String)| pair_view(p),
        ).push((k@, v@)),
{
    let ghost before = out@;
    out.push((owned(k), owned(v)));
    assert(out@.map_values(|p: (String, String)| pair_view(p)) =~= before.map_values(
        |p: (String, String)| pair_view(p),
    ).push((k@, v@)));
}

/// The fixed variables of one launch.
pub fn fixed_env(
    prefix: &str,
    launch_id: &str,
    proton: &str,
    gameid: Option<&str>,
    overrides: &StrMap,
) -> (r: Vec<(String, String)>)
    ensures
        r@.map_values(|p: (String, String)| pair_view(p)) == fixed_env_spec(
            prefix@,
            launch_id@,
            proton@,
            match gameid {
                Some(g) => Some(g@),
                None => None,
            },
            overrides_spec(overrides.pairs()),
        ),
{
    let mut out: Vec<(String, String)> = Vec::new();
    assert(out@.map_values(|p: (String, String)| pair_view(p)) =~= Seq::<(Seq<char>, Seq<char>)>::empty());
    push_pair(&mut out, "WINEPREFIX", prefix);
    push_pair(&mut out, "IPROLAUNCH_LAUNCH_ID", launch_id);
    let ghost s1 = out@.map_values(|p: (String, String)| pair_view(p));
    if !proton.is_empty() && !crate::text::str_eq(proton, "system") {
        push_pair(&mut out, "PROTONPATH", proton);
    }
    let ghost s2 = out@.map_values(|p: (String, String)| pair_view(p));
    match gameid {
        Some(g) => push_pair(&mut out, "GAMEID", g),
        None => {},
    }
    let ghost s3 = out@.map_values(|p: (String, String)| pair_view(p));
    match winedlloverrides_value(overrides) {
        Some(o) => push_pair(&mut out, "WINEDLLOVERRIDES", o.as_str()),
        None => {},
    }
    proof {
        reveal_strlit("WINEPREFIX");
        reveal_strlit("IPROLAUNCH_LAUNCH_ID");
        reveal_strlit("PROTONPATH");
        reveal_strlit("GAMEID");
        reveal_strlit("WINEDLLOVERRIDES");
        reveal_strlit("system");
    }
    assert(out@.map_values(|p: (String, String)| pair_view(p)) =~= fixed_env_spec(
        prefix@,
        launch_id@,
        proton@,
        match gameid {
            Some(g) => Some(g@),
            None => None,
        },
        overrides_spec(overrides.pairs()),
    ));
    out
}

/// Whether a failed launch's log gets opened in a new terminal: the launch
/// failed, opening is on, and a log was written.
pub fn should_open_log(success: bool, auto_open: bool, has_log: bool) -> (r: bool)
    ensures
        r == (!success && auto_open && has_log),
{
    !success && auto_open && has_log
}

} // verus!

verus! {

// ---------------------------------------------------------------------------
// One launch, planned
// ---------------------------------------------------------------------------

/// The one-off settings a launch is started with (from the command line, a
/// quick launch or the TUI); each overrides the profile and global config.
pub struct RunOptions {
    pub proton: Option<String>,
    pub prefix: Option<String>,
    pub env: Vec<(String, String)>,
    /// Extra arguments for the exe, after the profile's own.
    pub args: Vec<String>,
    pub gamescope: GamescopeMode,
    /// Started from the TUI.
    pub from_tui: bool,
}

impl Default for RunOptions {
    fn default() -> (r: Self)
        ensures
            r.proton is None,
            r.prefix is None,
            r.env@.len() == 0,
            r.args@.len() == 0,
            !r.gamescope.fullscreen && !r.gamescope.maximize && !r.gamescope.borderless,
            !r.from_tui,
    {
        RunOptions {
            proton: None,
            prefix: None,
            env: Vec::new(),
            args: Vec::new(),
            gamescope: GamescopeMode::default(),
            from_tui: false,
        }
    }
}

/// The prefix a launch runs in: the one given for this launch, else the
/// one its settings resolve to (see `prefix::resolve_with`).
pub fn launch_prefix(effective: &Effective, slug: &str, given: Option<&str>, home: Option<&str>) -> (r: String)
    ensures
        r@ == match given {
            Some(p) => p@,
            None => crate::prefix::resolve_spec(
                effective.prefix_mode,
                effective.prefix_path@,
                effective.prefixes_root@,
                slug@,
                match home {
                    Some(h) => Some(h@),
                    None => None,
                },
            ),
        },
{
    match given {
        Some(p) => owned(p),
        None => crate::prefix::resolve_with(effective, slug, home),
    }
}

/// Everything one launch spawns and sets, decided before it starts.
pub struct LaunchPlan {
    /// The Proton build (the given one, else the settings' one).
    pub proton: String,
    pub gamescope: GamescopeMode,
    /// Whether the launch runs inside a nested gamescope session.
    pub wrap_with_gamescope: bool,
    /// A gamescope wrap was asked for but skipped because the launch is
    /// already running under gamescope.
    pub skipped_nested_wrap: bool,
    pub program: String,
    pub args: Vec<String>,
    /// The fixed variables (see `fixed_env`), set before `env`.
    pub fixed_env: Vec<(String, String)>,
    /// The launch's environment table (see `launch_env`).
    pub env: StrMap,
    /// Whether the launch's output is logged.
    pub record: bool,
}

/// Plans one launch of `target` from its merged settings, the profile's
/// own arguments, the one-off options and what was found out beforehand:
/// the matched GAMEID, the prefix, this launch's id, whether the prefix is
/// already in use, whether this process already runs under gamescope, and
/// the home directory (for a `~/` in the launch wrapper).
pub fn plan_launch(
    effective: &Effective,
    profile_args: &Vec<String>,
    target: &str,
    opts: &RunOptions,
    gameid: Option<&str>,
    prefix_path: &str,
    launch_id: &str,
    prefix_active: bool,
    already_nested: bool,
    home: Option<&str>,
) -> (plan: LaunchPlan)
    ensures
        plan.proton@ == match opts.proton {
            Some(p) => p@,
            None => effective.proton@,
        },
        plan.gamescope == launch_mode_spec(
            opts.gamescope,
            effective.gamescope,
            effective.gamescope_settings.borderless,
        ),
        plan.wrap_with_gamescope == ((plan.gamescope.fullscreen || plan.gamescope.maximize || plan.gamescope.borderless) && !already_nested),
        plan.skipped_nested_wrap == ((plan.gamescope.fullscreen || plan.gamescope.maximize || plan.gamescope.borderless) && already_nested),
        (plan.program@, strings(plan.args@)) == command_spec(
            inner_command_spec(
                plan.wrap_with_gamescope,
                plan.gamescope,
                effective.gamescope_settings,
                target@,
                strings(profile_args@),
                strings(opts.args@),
            ),
            match effective.launch_wrapper {
                Some(w) => Some(
                    wrapper_argv_spec(
                        w@,
                        match home {
                            Some(h) => Some(h@),
                            None => None,
                        },
                    ),
                ),
                None => None,
            },
        ),
        plan.fixed_env@.map_values(|p: (String, String)| pair_view(p)) == fixed_env_spec(
            prefix_path@,
            launch_id@,
            plan.proton@,
            match gameid {
                Some(g) => Some(g@),
                None => None,
            },
            overrides_spec(effective.winedlloverride.pairs()),
        ),
        plan.env@ == launch_env_spec(
            effective.env@,
            opts.env@.map_values(|p: (String, String)| pair_view(p)),
            prefix_active,
        ),
        plan.record == (effective.record != RecordMode::Off),
{
    let proton = match &opts.proton {
        Some(p) => p.clone(),
        None => effective.proton.clone(),
    };
    let mode = launch_mode(opts.gamescope, effective);
    let active = mode.is_active();
    let wrap = should_wrap_with_gamescope(active, already_nested);
    let wrapper: Option<Vec<String>> = match &effective.launch_wrapper {
        Some(w) => Some(wrapper_argv_with(w.as_str(), home)),
        None => None,
    };
    let (program, args) = launch_command(
        wrap,
        mode,
        &effective.gamescope_settings,
        target,
        profile_args,
        &opts.args,
        wrapper.as_ref(),
    );
    let fixed = fixed_env(prefix_path, launch_id, proton.as_str(), gameid, &effective.winedlloverride);
    let env = launch_env(&effective.env, &opts.env, prefix_active);
    let record = match effective.record {
        RecordMode::Off => false,
        _ => true,
    };
    LaunchPlan {
        proton,
        gamescope: mode,
        wrap_with_gamescope: wrap,
        skipped_nested_wrap: active && already_nested,
        program,
        args,
        fixed_env: fixed,
        env,
        record,
    }
}

} // verus!
