//! What the screens show, computed from the state: the help text, list
//! row hints, popup titles and the marquee that scrolls text too long for
//! its place. The drawing itself is the binary's.
use super::app::{App, InputKind, MapEntryStep, MapField, Mode, ProtonPickerTarget, Tab, TextInputPurpose};
use crate::config::opt_view;
use crate::text::{concat, concat3};
use vstd::prelude::*;

verus! {

/// The Help tab's text (also shown as the `?` popup).
pub const HELP_TEXT: &'static str = "\
iprolaunch — TUI help

Global:
  1/2/3/4, Tab/Shift-Tab   switch screen (also clears an active Running/
                           Library quick-search, locked or still typing)
  ?                        open this help as a popup from any tab (Esc closes it)
  Up/Down/PageUp/PageDown/Home/End   scroll (Help tab and the ? popup)
  q                        quit

Running:
  Enter or k               kill the selected launch
  r                        refresh now (also refreshes automatically)
  f                        quick-search — filters by name as you type;
                           while typing, only Enter/Esc/Up/Down work (r/k
                           become literal search characters instead).
                           Enter *locks* the search instead of killing —
                           the narrowed list stays, but r/k/Enter/Up/Down
                           all go back to normal, now scoped to it. Esc
                           clears it entirely, whether still typing or locked.

Library:
  Enter                    launch the selected game
  a                        add a game by typing its exe path
  r                        refresh the list from disk
  e                        edit the selected game's profile overrides
  d                        delete the selected game's profile (confirms first)
  c                        copy a quick-launch command to the clipboard —
                           \"<this binary's path>\" <slug> — for pasting into
                           a Steam non-Steam-game shortcut's Target field
  p                        run winetricks against this game's own prefix
                           (confirms first) — uses the profile's proton
                           override if in defaults.prefix_mode = per-slug,
                           otherwise the single shared prefix/Proton pair,
                           exactly like a real launch of it would
  f                        quick-search — filters by name as you type;
                           while typing, only Enter/Esc/Up/Down work
                           (a/r/e/d/c/p become literal search characters
                           instead). Enter *locks* the search instead of
                           launching — the narrowed list stays, but
                           a/r/e/d/c/p/Enter/Up/Down all go back to normal,
                           now scoped to it. Esc clears it entirely,
                           whether still typing or locked.
  Esc                      cancel while typing a path, or clear an active
                           quick-search (typing or locked)

Profile editor (Library, after 'e'):
  Enter                    edit (text fields), cycle (record/auto_open),
                           opens a picker for the proton override, or opens
                           the entry list for env/winedlloverride
  Esc                      back to the Library list
  A blank text field / the picker's \"inherit\" choice clears that override
  back to the global default. Changes save to that profile.toml immediately.
  target-path/slug/name are exceptions, not overrides:
    - target-path is mandatory, checked against the real filesystem on
      save, and rejected (left unchanged) if the exe isn't there.
    - slug is the profile's folder name — edit just the base text; renames
      the folder on disk, auto-appending \"-N\" only if that exact text is
      already taken by another profile (never something you type yourself).
      In defaults.prefix_mode = per-slug, if a prefix directory already
      exists under the old slug, you're asked to confirm first — renaming
      moves that directory too, since prefixes are keyed by slug.
    - name is what the Library list shows — edit just the base text (its
      \"#N\" is stripped for editing and never shown in the box); saving
      auto-fills the lowest \"#N\" not already used by another profile's
      same base, reusing a gap left by a deleted/renamed one rather than
      always growing past the historical max.
    - the proton override only has any effect in defaults.prefix_mode =
      per-slug — in single-prefix mode it's ignored (every profile shares
      one prefix, so a mismatched Proton version there risks corrupting it).
    - gamescope override cycles inherit -> none -> fullscreen -> maximize ->
      inherit — same as -f/-w on the command line, remembered per game so
      \"iprolaunch <slug>\" doesn't need retyping it (an explicit -f/-w still
      wins if passed). -b/borderless is independent of this (not mutually
      exclusive with fullscreen/maximize) — see gamescope_settings.borderless.
    - gamescope_settings.* overrides (output_width/output_height/refresh/
      nested_width/nested_height/filter/scaler/borderless/grab_cursor/
      adaptive_sync) only matter once gamescope is actually wrapping the
      launch (-f/-w/-b, or the gamescope override above) — blank means
      \"don't pass that flag, let gamescope pick.\" output_* is gamescope's
      real output size (-W/-H) — gamescope only auto-detects this when it
      owns the display directly, not nested inside an existing desktop
      session, so this is the fix for -w producing a small window on a
      normal desktop. nested_* (-w/-h, gamescope's own flags — not to be
      confused with iprolaunch's own -w/--maximize) is the game's own
      internal render resolution; filter (-F, linear/nearest/fsr/nis/pixel)
      and scaler (-S, auto/integer/fit/fill/stretch) together control the
      upscale used when nested/output differ; borderless (-b) merges with
      the CLI -b flag — either one turns it on for that launch; grab_cursor
      (--force-grab-cursor, relative mouse mode) and adaptive_sync
      (--adaptive-sync, VRR) are config-only, no CLI flag.

Config:
  Enter                    edit (text fields), cycle (mode/record), or
                           toggle (auto_open); opens a picker for proton;
                           opens the entry list for env/winedlloverride
  Left/Right               adjust a number field
  Esc                      cancel a text edit without saving
  Up/Down flow from the field list straight into the separate
  \"Desktop integration\" table below it — one shared cursor, two blocks.
  Changes save to config.toml immediately.

Desktop integration (Config tab, bottom table):
  status / binary location  info only, not editable
  setup                      register iprolaunch as the default .exe/.bat/.cmd/.msi
                             handler, add it to the app/start menu, install its icon,
                             and add a file-manager right-click \"Add to IProLaunch
                             Library\" action (KDE/GNOME/Cinnamon/MATE/XFCE, whichever
                             are actually present — see `iprolaunch context-menu`
                             for installing/removing just one of those on their own)
  reapply                    re-point all of the above at this binary's
                             current path, without touching the saved
                             backup of what the default was before setup
  uninstall                  remove all of the above and restore that backup

env / winedlloverride entry list (global or per-profile):
  a                        add an entry (prompts for name, then value)
  e                        edit the selected entry
  d                        delete the selected entry
  Esc                      back to whichever screen opened it

Gamepad (Steam Deck Game Mode, or any plain controller):
  D-pad                    Up/Down/Left/Right
  A                        confirm (same as Enter)
  B                        cancel (same as Esc)
  X                        the destructive/contextual action — kill
                           (Running) or delete a profile, with the same
                           confirm prompt (Library)
  Y                        help (opens this popup from anywhere)
  LB / RB                  previous / next tab
  L3 (left stick click)    refresh
  R3 (right stick click)   winetricks (Library)
  RT                       the literal \"y\" a delete/rename/winetricks
                           confirm prompt needs — deliberately not A, so
                           mashing confirm can never delete anything by
                           accident (same as Enter alone not confirming
                           these on a keyboard either)
  Select                   quick-search
  Start                    quit
  Every title/status bar shows the matching set of captions once a gamepad
  button is used, and switches back the moment a real key is pressed.
  Adding a game by path, editing a profile's text fields, and copying the
  quick-launch command still need a keyboard (typing isn't something a
  gamepad can do) — bind a spare button through Steam Input's own remapper
  straight to the matching letter key if you want those one-button too;
  iprolaunch doesn't need to know the difference.

Config file: ~/.config/iprolaunch/config.toml
Profiles:    ~/.config/iprolaunch/profiles/<slug>/profile.toml
";

/// Number of lines of the help text (as a `u16`, like the scroll offset).
pub open spec fn help_line_count_spec() -> int {
    (crate::text::lines_spec(HELP_TEXT@).len() as u16) as int
}

pub fn help_text_line_count() -> (r: u16)
    ensures
        r == help_line_count_spec(),
{
    let v = crate::text::chars_of(HELP_TEXT);
    let ls = crate::text::lines(&v);
    assert(ls@.len() == crate::text::lines_spec(HELP_TEXT@).len()) by {
        assert(crate::text::views(ls@).len() == ls@.len());
    }
    ls.len() as u16
}

/// The furthest the help text may scroll in a bordered block `area_height`
/// rows tall (two rows are borders).
pub open spec fn help_max_scroll_spec(area_height: u16) -> int {
    let visible = if area_height >= 2 {
        area_height - 2
    } else {
        0
    };
    if help_line_count_spec() > visible {
        help_line_count_spec() - visible
    } else {
        0
    }
}

pub fn help_max_scroll(area_height: u16) -> (r: u16)
    ensures
        r == help_max_scroll_spec(area_height),
{
    let n = help_text_line_count();
    let visible: u16 = if area_height >= 2 {
        area_height - 2
    } else {
        0
    };
    if n > visible {
        n - visible
    } else {
        0
    }
}

/// The title of the Running or Library list: the search box while typing
/// one, the normal title with the locked search after it, or just the
/// normal title.
pub open spec fn filter_title_spec(filter: Option<String>, editing: bool, normal_title: Seq<char>) -> Seq<char> {
    match filter {
        Some(text) => if editing {
            "Filter: "@ + text@ + "_  (Enter = lock, Esc = clear)"@
        } else {
            normal_title + " — Filter: "@ + text@ + " (locked, Esc = clear)"@
        },
        None => normal_title,
    }
}

pub fn filter_title(filter: &Option<String>, editing: bool, normal_title: &str) -> (r: String)
    ensures
        r@ == filter_title_spec(*filter, editing, normal_title@),
{
    match filter {
        Some(text) => if editing {
            concat3("Filter: ", text.as_str(), "_  (Enter = lock, Esc = clear)")
        } else {
            let head = concat3(normal_title, " — Filter: ", text.as_str());
            concat(head.as_str(), " (locked, Esc = clear)")
        },
        None => normal_title.to_string(),
    }
}

/// The hint that tells apart games sharing an exe name: the last two
/// directory names above the exe, joined by backslashes after `..\`.
pub open spec fn parent_hint_spec(target_path: Seq<char>) -> Seq<char> {
    let parts = crate::text::split_char_spec(target_path, '/');
    let dirs = crate::text::nonempty_pieces(parts.drop_last());
    let tail = if dirs.len() > 2 {
        dirs.subrange(dirs.len() - 2, dirs.len() as int)
    } else {
        dirs
    };
    "..\\"@ + crate::text::join_spec(tail, "\\"@)
}

pub fn shortened_parent_hint(target_path: &str) -> (r: String)
    ensures
        r@ == parent_hint_spec(target_path@),
{
    let v = crate::text::chars_of(target_path);
    let parts = crate::text::split_char(&v, '/');
    let mut dirs: Vec<Vec<char>> = Vec::new();
    let n = parts.len();
    let ghost ps = crate::text::views(parts@);
    assert(ps.len() >= 1) by {
        crate::text::lemma_split_by_nonempty(v@, crate::text::eq_pred('/'));
    }
    let mut i: usize = 0;
    while i + 1 < n
        invariant
            n == parts@.len(),
            n >= 1,
            i + 1 <= n,
            ps == crate::text::views(parts@),
            crate::text::views(dirs@) == crate::text::nonempty_pieces(ps.drop_last().take(i as int)),
        decreases n - i,
    {
        assert(ps.drop_last().take(i + 1).drop_last() == ps.drop_last().take(i as int));
        assert(ps.drop_last().take(i + 1).last() == parts@[i as int]@);
        if parts[i].len() > 0 {
            let ghost before = dirs@;
            dirs.push(parts[i].clone());
            assert(crate::text::views(dirs@) =~= crate::text::views(before).push(parts@[i as int]@));
        }
        i = i + 1;
    }
    assert(ps.drop_last().take(i as int) == ps.drop_last());
    let d = dirs.len();
    let tail: Vec<Vec<char>> = if d > 2 {
        let mut t: Vec<Vec<char>> = Vec::new();
        t.push(dirs[d - 2].clone());
        t.push(dirs[d - 1].clone());
        assert(crate::text::views(t@) =~= crate::text::views(dirs@).subrange(d - 2, d as int));
        t
    } else {
        dirs
    };
    let sep = crate::text::chars_of("\\");
    let j = crate::text::join(&tail, &sep);
    let js = crate::text::string_of(&j);
    concat("..\\", js.as_str())
}

/// `n` spaces.
pub open spec fn spaces(n: nat) -> Seq<char> {
    Seq::new(n, |i: int| ' ')
}

/// The left part of a Library row: name, slug, parent hint, and whether
/// Steam already lists the game.
pub open spec fn library_row_left(name: Seq<char>, slug: Seq<char>, target_path: Seq<char>, in_steam: bool) -> Seq<char> {
    name + "  ["@ + slug + "]  ["@ + parent_hint_spec(target_path) + "]"@ + if in_steam {
        "  [in Steam]"@
    } else {
        Seq::<char>::empty()
    }
}

/// A Library row of `inner_width` characters: the left part, then, for a
/// game launched before, `last launched: <stamp>` right-aligned after at
/// least one space; a game never launched shows the left part alone.
pub open spec fn library_row_spec(
    name: Seq<char>,
    slug: Seq<char>,
    target_path: Seq<char>,
    in_steam: bool,
    last_launched: Option<Seq<char>>,
    inner_width: int,
) -> Seq<char> {
    let left = library_row_left(name, slug, target_path, in_steam);
    match last_launched {
        None => left,
        Some(stamp) => {
            let right = "last launched: "@ + stamp;
            let pad = inner_width - left.len() - right.len();
            left + spaces(if pad < 1 { 1nat } else { pad as nat }) + right
        },
    }
}

/// The text of one Library row (see `library_row_spec`).
pub fn library_row_text(
    name: &str,
    slug: &str,
    target_path: &str,
    in_steam: bool,
    last_launched: Option<&str>,
    inner_width: usize,
) -> (r: String)
    ensures
        r@ == library_row_spec(
            name@,
            slug@,
            target_path@,
            in_steam,
            super::app::opt_str_view(last_launched),
            inner_width as int,
        ),
{
    let hint = shortened_parent_hint(target_path);
    let a = concat3(name, "  [", slug);
    let b = concat3(a.as_str(), "]  [", hint.as_str());
    let left0 = concat(b.as_str(), "]");
    let left = if in_steam {
        concat(left0.as_str(), "  [in Steam]")
    } else {
        left0
    };
    proof {
        reveal_strlit("  [");
        reveal_strlit("]  [");
        reveal_strlit("]");
        reveal_strlit("  [in Steam]");
        assert(left@ =~= library_row_left(name@, slug@, target_path@, in_steam));
    }
    match last_launched {
        None => left,
        Some(stamp) => {
            let right = concat("last launched: ", stamp);
            let lv = crate::text::chars_of(left.as_str());
            let rv = crate::text::chars_of(right.as_str());
            let l = lv.len();
            let rl = rv.len();
            let mut pad: usize = if rl <= inner_width && l <= inner_width - rl {
                inner_width - rl - l
            } else {
                0
            };
            if pad < 1 {
                pad = 1;
            }
            let mut sp: Vec<char> = Vec::new();
            let mut i: usize = 0;
            while i < pad
                invariant
                    i <= pad,
                    sp@ == spaces(i as nat),
                decreases pad - i,
            {
                sp.push(' ');
                assert(sp@ =~= spaces((i + 1) as nat));
                i = i + 1;
            }
            let sps = crate::text::string_of(&sp);
            let r = concat3(left.as_str(), sps.as_str(), right.as_str());
            r
        },
    }
}

/// The title of the text-input popup opened for `purpose`.
pub open spec fn text_input_title_spec(purpose: TextInputPurpose) -> Seq<char> {
    match purpose {
        TextInputPurpose::ConfigField(f) => "Edit "@ + super::app::config_field_label(f)
            + " (Enter = save, Esc = cancel)"@,
        TextInputPurpose::AddLibraryPath => "Path to .exe (Enter = add & launch, Esc = cancel)"@,
        TextInputPurpose::ProfileTitle(_) => "Game's real title, for GAMEID matching (Enter = save, blank = skip, Esc = skip)"@,
        TextInputPurpose::ProfileField(_, f) => match f {
            super::app::ProfileField::TargetPath => "Edit target-path (Enter = save, checked against disk — Esc = cancel)"@,
            super::app::ProfileField::Slug => "Edit slug — folder name (Enter = save & rename on disk, auto-disambiguated if taken, Esc = cancel)"@,
            super::app::ProfileField::Name => "Edit name — \"#N\" is auto-managed, don't type it (Enter = save, Esc = cancel)"@,
            _ => "Edit "@ + super::app::profile_field_label(f) + " (Enter = save, blank = inherit, Esc = cancel)"@,
        },
    }
}

pub fn text_input_title(purpose: &TextInputPurpose) -> (r: String)
    ensures
        r@ == text_input_title_spec(*purpose),
{
    match purpose {
        TextInputPurpose::ConfigField(f) => concat3("Edit ", f.label(), " (Enter = save, Esc = cancel)"),
        TextInputPurpose::AddLibraryPath => "Path to .exe (Enter = add & launch, Esc = cancel)".to_string(),
        TextInputPurpose::ProfileTitle(_) => "Game's real title, for GAMEID matching (Enter = save, blank = skip, Esc = skip)".to_string(),
        TextInputPurpose::ProfileField(_, f) => match f {
            super::app::ProfileField::TargetPath => "Edit target-path (Enter = save, checked against disk — Esc = cancel)".to_string(),
            super::app::ProfileField::Slug => "Edit slug — folder name (Enter = save & rename on disk, auto-disambiguated if taken, Esc = cancel)".to_string(),
            super::app::ProfileField::Name => "Edit name — \"#N\" is auto-managed, don't type it (Enter = save, Esc = cancel)".to_string(),
            _ => concat3("Edit ", f.label(), " (Enter = save, blank = inherit, Esc = cancel)"),
        },
    }
}

/// The confirm-prompt hint for the input source last used.
pub open spec fn confirm_hint_spec(k: InputKind) -> Seq<char> {
    match k {
        InputKind::Keyboard => "y = confirm, any other key = cancel"@,
        InputKind::Gamepad => "RT = confirm, any other button = cancel"@,
    }
}

pub fn confirm_hint(input_kind: InputKind) -> (r: &'static str)
    ensures
        r@ == confirm_hint_spec(input_kind),
{
    match input_kind {
        InputKind::Keyboard => "y = confirm, any other key = cancel",
        InputKind::Gamepad => "RT = confirm, any other button = cancel",
    }
}

/// How a map's size reads in the settings list.
pub open spec fn entry_count_spec(n: nat) -> Seq<char> {
    if n == 0 {
        "(empty)"@
    } else if n == 1 {
        "1 entry"@
    } else {
        crate::text::decimal(n) + " entries"@
    }
}

pub fn entry_count(map: &crate::strmap::StrMap) -> (r: String)
    ensures
        r@ == entry_count_spec(map@.dom().len()),
{
    let n = map.len();
    if n == 0 {
        "(empty)".to_string()
    } else if n == 1 {
        "1 entry".to_string()
    } else {
        let d = crate::text::u64_to_string(n as u64);
        concat(d.as_str(), " entries")
    }
}

/// Which row (if any) of a table starting at row `offset` with `len` rows
/// the shared Config selection is on.
pub fn config_row_selected(app: &App, offset: usize, len: usize) -> (r: Option<usize>)
    ensures
        r == (if offset <= app.config_selected && app.config_selected < offset + len {
            Some((app.config_selected - offset) as usize)
        } else {
            None
        }),
{
    if app.config_selected >= offset && app.config_selected - offset < len {
        Some(app.config_selected - offset)
    } else {
        None
    }
}

/// A text popup's buffer around its cursor: the text before it, the
/// character under it (a space past the end), and the text after it.
pub open spec fn cursor_parts_spec(buffer: Seq<char>, cursor: int) -> (Seq<char>, Seq<char>, Seq<char>) {
    let c = if cursor > buffer.len() {
        buffer.len() as int
    } else {
        cursor
    };
    if c < buffer.len() {
        (buffer.subrange(0, c), seq![buffer[c]], buffer.subrange(c + 1, buffer.len() as int))
    } else {
        (buffer, seq![' '], Seq::empty())
    }
}

pub fn cursor_parts(buffer: &str, cursor: usize) -> (r: (String, String, String))
    ensures
        (r.0@, r.1@, r.2@) == cursor_parts_spec(buffer@, cursor as int),
{
    let v = crate::text::chars_of(buffer);
    let c = if cursor > v.len() {
        v.len()
    } else {
        cursor
    };
    if c < v.len() {
        let before = crate::text::slice_range(&v, 0, c);
        let at = crate::text::slice_range(&v, c, c + 1);
        let after = crate::text::slice_range(&v, c + 1, v.len());
        assert(at@ =~= seq![v@[c as int]]);
        (crate::text::string_of(&before), crate::text::string_of(&at), crate::text::string_of(&after))
    } else {
        proof {
            reveal_strlit(" ");
        }
        (buffer.to_string(), " ".to_string(), String::new())
    }
}

// ---------------------------------------------------------------------------
// Marquee
// ---------------------------------------------------------------------------

/// `text` scrolled to fit `width` characters at step `tick`: text that
/// fits is unchanged; longer text is shown as a window of `width`
/// characters over the text followed by a four-space gap, repeated
/// endlessly, starting `tick` characters in.
pub open spec fn marquee_spec(text: Seq<char>, width: int, tick: int) -> Seq<char> {
    let w = if width < 1 {
        1
    } else {
        width
    };
    if text.len() <= w {
        text
    } else {
        let padded = text + "    "@;
        let start = tick % (padded.len() as int);
        Seq::new(w as nat, |i: int| padded[(start + i) % (padded.len() as int)])
    }
}

pub fn marquee(text: &str, width: usize, tick: usize) -> (r: String)
    ensures
        r@ == marquee_spec(text@, width as int, tick as int),
{
    let w: usize = if width < 1 {
        1
    } else {
        width
    };
    let v = crate::text::chars_of(text);
    if v.len() <= w {
        return text.to_string();
    }
    let gap = crate::text::chars_of("    ");
    proof {
        reveal_strlit("    ");
    }
    let mut padded = v.clone();
    let mut g: usize = 0;
    while g < gap.len()
        invariant
            g <= gap@.len(),
            gap@ == "    "@,
            padded@ == v@ + gap@.take(g as int),
        decreases gap@.len() - g,
    {
        padded.push(gap[g]);
        assert(gap@.take(g + 1) == gap@.take(g as int).push(gap@[g as int]));
        g = g + 1;
    }
    assert(gap@.take(gap@.len() as int) == gap@);
    let plen = padded.len();
    let start = tick % plen;
    let mut out: Vec<char> = Vec::new();
    let mut i: usize = 0;
    while i < w
        invariant
            i <= w,
            w < plen,
            plen == padded@.len(),
            start < plen,
            start == tick % plen,
            padded@ == text@ + "    "@,
            out@ =~= Seq::new(i as nat, |k: int| padded@[(start + k) % (plen as int)]),
        decreases w - i,
    {
        let idx: usize = if i < plen - start {
            start + i
        } else {
            i - (plen - start)
        };
        assert(idx == (start + i) % (plen as int)) by (nonlinear_arith)
            requires
                start < plen,
                i < plen,
                idx == if i < plen - start {
                    start + i
                } else {
                    i - (plen - start)
                },
        ;
        out.push(padded[idx]);
        i = i + 1;
    }
    crate::text::string_of(&out)
}

/// `marquee` for a popup title inside a bordered block `area_width` wide
/// (two columns are borders).
pub open spec fn marquee_title_spec(title: Seq<char>, area_width: u16, tick: int) -> Seq<char> {
    let width: int = if area_width >= 2 {
        area_width - 2
    } else {
        0
    };
    if title.len() > width {
        marquee_spec(title, width, tick)
    } else {
        title
    }
}

pub fn marquee_title(title: String, area_width: u16, tick: usize) -> (r: String)
    ensures
        r@ == marquee_title_spec(title@, area_width, tick as int),
{
    let width: usize = if area_width >= 2 {
        (area_width - 2) as usize
    } else {
        0
    };
    if crate::text::chars_of(title.as_str()).len() > width {
        marquee(title.as_str(), width, tick)
    } else {
        title
    }
}

// ---------------------------------------------------------------------------
// What the marquee is scrolling
// ---------------------------------------------------------------------------

pub open spec fn opt_sig(o: Option<String>) -> Seq<char> {
    match o {
        Some(s) => "Some("@ + s@ + ")"@,
        None => "None"@,
    }
}

pub open spec fn map_field_sig(f: MapField) -> Seq<char> {
    match f {
        MapField::Env => "Env"@,
        MapField::WineDllOverride => "WineDllOverride"@,
        MapField::ProfileEnv(s) => "ProfileEnv("@ + s@ + ")"@,
        MapField::ProfileWineDllOverride(s) => "ProfileWineDllOverride("@ + s@ + ")"@,
    }
}

pub open spec fn purpose_sig(p: TextInputPurpose) -> Seq<char> {
    match p {
        TextInputPurpose::ConfigField(f) => "ConfigField("@ + super::app::config_field_label(f) + ")"@,
        TextInputPurpose::AddLibraryPath => "AddLibraryPath"@,
        TextInputPurpose::ProfileTitle(s) => "ProfileTitle("@ + s@ + ")"@,
        TextInputPurpose::ProfileField(s, f) => "ProfileField("@ + s@ + ","@ + super::app::profile_field_label(f) + ")"@,
    }
}

/// Which popup is open and what in it is selected; a text popup's buffer
/// and a picker's list of builds are left out, so typing or rescanning
/// does not restart the marquee.
pub open spec fn mode_sig(m: Mode) -> Seq<char> {
    match m {
        Mode::Normal => "normal"@,
        Mode::TextInput { purpose, .. } => "text:"@ + purpose_sig(purpose),
        Mode::ProtonPicker { selected, target, .. } => "proton:"@ + crate::text::decimal(selected as nat) + ":"@
            + match target {
            ProtonPickerTarget::Global => "Global"@,
            ProtonPickerTarget::Profile(s) => "Profile("@ + s@ + ")"@,
        },
        Mode::MapEditor { field, selected } => "map:"@ + map_field_sig(field) + ":"@ + crate::text::decimal(
            selected as nat,
        ),
        Mode::MapEntryInput { field, step, .. } => "mapentry:"@ + map_field_sig(field) + ":"@ + match step {
            MapEntryStep::Key => "Key"@,
            MapEntryStep::Value => "Value"@,
        },
        Mode::ConfirmDeleteProfile { slug, .. } => "confirmdelete:"@ + slug@,
        Mode::ConfirmRenameSlug { slug, candidate, .. } => "confirmrenameslug:"@ + slug@ + ":"@ + candidate@,
        Mode::Help => "help"@,
        Mode::ConfirmWinetricks { slug, .. } => "confirmwinetricks:"@ + slug@,
        Mode::ConfirmAddToSteam { slug, selected, .. } => "confirmaddtosteam:"@ + slug@ + ":"@
            + crate::text::decimal(selected as nat),
    }
}

/// A cheap identifier of what is currently selected or open; the marquee
/// restarts whenever it changes (see `App::sync_marquee`).
pub open spec fn signature_spec(a: App) -> Seq<char> {
    sig_of(
        super::app::tab_title_spec(a.tab),
        crate::text::decimal(a.library_selected as nat),
        crate::text::decimal(a.config_selected as nat),
        crate::text::decimal(a.profile_field_selected as nat),
        opt_sig(a.profile_editor),
        opt_sig(a.library_filter),
        opt_sig(a.running_filter),
        mode_sig(a.mode),
    )
}

/// The signature's parts joined by `|`.
#[verifier::opaque]
pub open spec fn sig_of(
    t: Seq<char>,
    d1: Seq<char>,
    d2: Seq<char>,
    d3: Seq<char>,
    pe: Seq<char>,
    lf: Seq<char>,
    rf: Seq<char>,
    m: Seq<char>,
) -> Seq<char> {
    t + "|"@ + d1 + "|"@ + d2 + "|"@ + d3 + "|"@ + pe + "|"@ + lf + "|"@ + rf + "|"@ + m
}

fn opt_sig_of(o: &Option<String>) -> (r: String)
    ensures
        r@ == opt_sig(*o),
{
    match o {
        Some(s) => concat3("Some(", s.as_str(), ")"),
        None => "None".to_string(),
    }
}

fn map_field_sig_of(f: &MapField) -> (r: String)
    ensures
        r@ == map_field_sig(*f),
{
    match f {
        MapField::Env => "Env".to_string(),
        MapField::WineDllOverride => "WineDllOverride".to_string(),
        MapField::ProfileEnv(s) => concat3("ProfileEnv(", s.as_str(), ")"),
        MapField::ProfileWineDllOverride(s) => concat3("ProfileWineDllOverride(", s.as_str(), ")"),
    }
}

fn num(n: usize) -> (r: String)
    ensures
        r@ == crate::text::decimal(n as nat),
{
    crate::text::u64_to_string(n as u64)
}

fn mode_sig_of(m: &Mode) -> (r: String)
    ensures
        r@ == mode_sig(*m),
{
    match m {
        Mode::Normal => "normal".to_string(),
        Mode::TextInput { purpose, .. } => {
            let p = match purpose {
                TextInputPurpose::ConfigField(f) => concat3("ConfigField(", f.label(), ")"),
                TextInputPurpose::AddLibraryPath => "AddLibraryPath".to_string(),
                TextInputPurpose::ProfileTitle(s) => concat3("ProfileTitle(", s.as_str(), ")"),
                TextInputPurpose::ProfileField(s, f) => {
                    let head = concat3("ProfileField(", s.as_str(), ",");
                    concat3(head.as_str(), f.label(), ")")
                },
            };
            concat("text:", p.as_str())
        },
        Mode::ProtonPicker { selected, target, .. } => {
            let t = match target {
                ProtonPickerTarget::Global => "Global".to_string(),
                ProtonPickerTarget::Profile(s) => concat3("Profile(", s.as_str(), ")"),
            };
            let n = num(*selected);
            let head = concat3("proton:", n.as_str(), ":");
            concat(head.as_str(), t.as_str())
        },
        Mode::MapEditor { field, selected } => {
            let f = map_field_sig_of(field);
            let n = num(*selected);
            let head = concat3("map:", f.as_str(), ":");
            concat(head.as_str(), n.as_str())
        },
        Mode::MapEntryInput { field, step, .. } => {
            let f = map_field_sig_of(field);
            let st = match step {
                MapEntryStep::Key => "Key",
                MapEntryStep::Value => "Value",
            };
            let head = concat3("mapentry:", f.as_str(), ":");
            concat(head.as_str(), st)
        },
        Mode::ConfirmDeleteProfile { slug, .. } => concat("confirmdelete:", slug.as_str()),
        Mode::ConfirmRenameSlug { slug, candidate, .. } => {
            let head = concat3("confirmrenameslug:", slug.as_str(), ":");
            concat(head.as_str(), candidate.as_str())
        },
        Mode::Help => "help".to_string(),
        Mode::ConfirmWinetricks { slug, .. } => concat("confirmwinetricks:", slug.as_str()),
        Mode::ConfirmAddToSteam { slug, selected, .. } => {
            let n = num(*selected);
            let head = concat3("confirmaddtosteam:", slug.as_str(), ":");
            concat(head.as_str(), n.as_str())
        },
    }
}

/// The selection signature of `app` (see `signature_spec`).
pub fn marquee_signature(app: &App) -> (r: String)
    ensures
        r@ == signature_spec(*app),
{
    let mut out = concat(app.tab.title(), "|");
    out = concat3(out.as_str(), num(app.library_selected).as_str(), "|");
    out = concat3(out.as_str(), num(app.config_selected).as_str(), "|");
    out = concat3(out.as_str(), num(app.profile_field_selected).as_str(), "|");
    out = concat3(out.as_str(), opt_sig_of(&app.profile_editor).as_str(), "|");
    out = concat3(out.as_str(), opt_sig_of(&app.library_filter).as_str(), "|");
    out = concat3(out.as_str(), opt_sig_of(&app.running_filter).as_str(), "|");
    let m = mode_sig_of(&app.mode);
    proof {
        reveal(sig_of);
    }
    concat(out.as_str(), m.as_str())
}


proof fn lemma_middle_differs(p: Seq<char>, x: Seq<char>, y: Seq<char>, s: Seq<char>)
    requires
        x != y,
    ensures
        p + x + s != p + y + s,
{
    if x.len() == y.len() {
        assert((p + x + s).subrange(p.len() as int, (p.len() + x.len()) as int) =~= x);
        assert((p + y + s).subrange(p.len() as int, (p.len() + y.len()) as int) =~= y);
    } else {
        assert((p + x + s).len() != (p + y + s).len());
    }
}

proof fn lemma_tab_titles_distinct(a: Tab, b: Tab)
    requires
        a != b,
    ensures
        super::app::tab_title_spec(a) != super::app::tab_title_spec(b),
{
    reveal_strlit("Running");
    reveal_strlit("Library");
    reveal_strlit("Config");
    reveal_strlit("Help");
    assert(super::app::tab_title_spec(a)[0] != super::app::tab_title_spec(b)[0]);
}

proof fn lemma_opt_sig_injective(a: Option<String>, b: Option<String>)
    requires
        opt_view(a) != opt_view(b),
    ensures
        opt_sig(a) != opt_sig(b),
{
    reveal_strlit("None");
    reveal_strlit("Some(");
    match (a, b) {
        (Some(x), Some(y)) => lemma_middle_differs("Some("@, x@, y@, ")"@),
        _ => assert(opt_sig(a)[0] != opt_sig(b)[0]),
    }
}

proof fn lemma_sig_of_differs_at_tab(d1: Seq<char>, d2: Seq<char>, d3: Seq<char>, pe: Seq<char>, lf: Seq<char>, rf: Seq<char>, m: Seq<char>, x: Seq<char>, y: Seq<char>)
    requires
        x != y,
    ensures
        sig_of(x, d1, d2, d3, pe, lf, rf, m) != sig_of(y, d1, d2, d3, pe, lf, rf, m),
{
    reveal(sig_of);
    let p = Seq::<char>::empty();
    let s = "|"@ + d1 + "|"@ + d2 + "|"@ + d3 + "|"@ + pe + "|"@ + lf + "|"@ + rf + "|"@ + m;
    assert(sig_of(x, d1, d2, d3, pe, lf, rf, m) =~= p + x + s);
    assert(sig_of(y, d1, d2, d3, pe, lf, rf, m) =~= p + y + s);
    lemma_middle_differs(p, x, y, s);
}

proof fn lemma_signature_sees_tab(a: App, b: App)
    requires
        b == (App { tab: b.tab, ..a }),
        b.tab != a.tab,
    ensures
        signature_spec(a) != signature_spec(b),
{
    assert(super::app::tab_title_spec(a.tab) != super::app::tab_title_spec(b.tab)) by {
        lemma_tab_titles_distinct(a.tab, b.tab);
    }
    lemma_sig_of_differs_at_tab(crate::text::decimal(a.library_selected as nat), crate::text::decimal(a.config_selected as nat), crate::text::decimal(a.profile_field_selected as nat), opt_sig(a.profile_editor), opt_sig(a.library_filter), opt_sig(a.running_filter), mode_sig(a.mode), super::app::tab_title_spec(a.tab), super::app::tab_title_spec(b.tab));
}

proof fn lemma_sig_of_differs_at_library_selected(t: Seq<char>, d2: Seq<char>, d3: Seq<char>, pe: Seq<char>, lf: Seq<char>, rf: Seq<char>, m: Seq<char>, x: Seq<char>, y: Seq<char>)
    requires
        x != y,
    ensures
        sig_of(t, x, d2, d3, pe, lf, rf, m) != sig_of(t, y, d2, d3, pe, lf, rf, m),
{
    reveal(sig_of);
    let p = t + "|"@;
    let s = "|"@ + d2 + "|"@ + d3 + "|"@ + pe + "|"@ + lf + "|"@ + rf + "|"@ + m;
    assert(sig_of(t, x, d2, d3, pe, lf, rf, m) =~= p + x + s);
    assert(sig_of(t, y, d2, d3, pe, lf, rf, m) =~= p + y + s);
    lemma_middle_differs(p, x, y, s);
}

proof fn lemma_signature_sees_library_selected(a: App, b: App)
    requires
        b == (App { library_selected: b.library_selected, ..a }),
        b.library_selected != a.library_selected,
    ensures
        signature_spec(a) != signature_spec(b),
{
    assert(crate::text::decimal(a.library_selected as nat) != crate::text::decimal(b.library_selected as nat)) by {
        if crate::text::decimal(a.library_selected as nat) == crate::text::decimal(b.library_selected as nat) {
            crate::text::lemma_decimal_injective(a.library_selected as nat, b.library_selected as nat);
        }
    }
    lemma_sig_of_differs_at_library_selected(super::app::tab_title_spec(a.tab), crate::text::decimal(a.config_selected as nat), crate::text::decimal(a.profile_field_selected as nat), opt_sig(a.profile_editor), opt_sig(a.library_filter), opt_sig(a.running_filter), mode_sig(a.mode), crate::text::decimal(a.library_selected as nat), crate::text::decimal(b.library_selected as nat));
}

proof fn lemma_sig_of_differs_at_config_selected(t: Seq<char>, d1: Seq<char>, d3: Seq<char>, pe: Seq<char>, lf: Seq<char>, rf: Seq<char>, m: Seq<char>, x: Seq<char>, y: Seq<char>)
    requires
        x != y,
    ensures
        sig_of(t, d1, x, d3, pe, lf, rf, m) != sig_of(t, d1, y, d3, pe, lf, rf, m),
{
    reveal(sig_of);
    let p = t + "|"@ + d1 + "|"@;
    let s = "|"@ + d3 + "|"@ + pe + "|"@ + lf + "|"@ + rf + "|"@ + m;
    assert(sig_of(t, d1, x, d3, pe, lf, rf, m) =~= p + x + s);
    assert(sig_of(t, d1, y, d3, pe, lf, rf, m) =~= p + y + s);
    lemma_middle_differs(p, x, y, s);
}

proof fn lemma_signature_sees_config_selected(a: App, b: App)
    requires
        b == (App { config_selected: b.config_selected, ..a }),
        b.config_selected != a.config_selected,
    ensures
        signature_spec(a) != signature_spec(b),
{
    assert(crate::text::decimal(a.config_selected as nat) != crate::text::decimal(b.config_selected as nat)) by {
        if crate::text::decimal(a.config_selected as nat) == crate::text::decimal(b.config_selected as nat) {
            crate::text::lemma_decimal_injective(a.config_selected as nat, b.config_selected as nat);
        }
    }
    lemma_sig_of_differs_at_config_selected(super::app::tab_title_spec(a.tab), crate::text::decimal(a.library_selected as nat), crate::text::decimal(a.profile_field_selected as nat), opt_sig(a.profile_editor), opt_sig(a.library_filter), opt_sig(a.running_filter), mode_sig(a.mode), crate::text::decimal(a.config_selected as nat), crate::text::decimal(b.config_selected as nat));
}

proof fn lemma_sig_of_differs_at_profile_field_selected(t: Seq<char>, d1: Seq<char>, d2: Seq<char>, pe: Seq<char>, lf: Seq<char>, rf: Seq<char>, m: Seq<char>, x: Seq<char>, y: Seq<char>)
    requires
        x != y,
    ensures
        sig_of(t, d1, d2, x, pe, lf, rf, m) != sig_of(t, d1, d2, y, pe, lf, rf, m),
{
    reveal(sig_of);
    let p = t + "|"@ + d1 + "|"@ + d2 + "|"@;
    let s = "|"@ + pe + "|"@ + lf + "|"@ + rf + "|"@ + m;
    assert(sig_of(t, d1, d2, x, pe, lf, rf, m) =~= p + x + s);
    assert(sig_of(t, d1, d2, y, pe, lf, rf, m) =~= p + y + s);
    lemma_middle_differs(p, x, y, s);
}

proof fn lemma_signature_sees_profile_field_selected(a: App, b: App)
    requires
        b == (App { profile_field_selected: b.profile_field_selected, ..a }),
        b.profile_field_selected != a.profile_field_selected,
    ensures
        signature_spec(a) != signature_spec(b),
{
    assert(crate::text::decimal(a.profile_field_selected as nat) != crate::text::decimal(b.profile_field_selected as nat)) by {
        if crate::text::decimal(a.profile_field_selected as nat) == crate::text::decimal(b.profile_field_selected as nat) {
            crate::text::lemma_decimal_injective(a.profile_field_selected as nat, b.profile_field_selected as nat);
        }
    }
    lemma_sig_of_differs_at_profile_field_selected(super::app::tab_title_spec(a.tab), crate::text::decimal(a.library_selected as nat), crate::text::decimal(a.config_selected as nat), opt_sig(a.profile_editor), opt_sig(a.library_filter), opt_sig(a.running_filter), mode_sig(a.mode), crate::text::decimal(a.profile_field_selected as nat), crate::text::decimal(b.profile_field_selected as nat));
}

proof fn lemma_sig_of_differs_at_profile_editor(t: Seq<char>, d1: Seq<char>, d2: Seq<char>, d3: Seq<char>, lf: Seq<char>, rf: Seq<char>, m: Seq<char>, x: Seq<char>, y: Seq<char>)
    requires
        x != y,
    ensures
        sig_of(t, d1, d2, d3, x, lf, rf, m) != sig_of(t, d1, d2, d3, y, lf, rf, m),
{
    reveal(sig_of);
    let p = t + "|"@ + d1 + "|"@ + d2 + "|"@ + d3 + "|"@;
    let s = "|"@ + lf + "|"@ + rf + "|"@ + m;
    assert(sig_of(t, d1, d2, d3, x, lf, rf, m) =~= p + x + s);
    assert(sig_of(t, d1, d2, d3, y, lf, rf, m) =~= p + y + s);
    lemma_middle_differs(p, x, y, s);
}

proof fn lemma_signature_sees_profile_editor(a: App, b: App)
    requires
        b == (App { profile_editor: b.profile_editor, ..a }),
        opt_view(b.profile_editor) != opt_view(a.profile_editor),
    ensures
        signature_spec(a) != signature_spec(b),
{
    assert(opt_sig(a.profile_editor) != opt_sig(b.profile_editor)) by {
        lemma_opt_sig_injective(a.profile_editor, b.profile_editor);
    }
    lemma_sig_of_differs_at_profile_editor(super::app::tab_title_spec(a.tab), crate::text::decimal(a.library_selected as nat), crate::text::decimal(a.config_selected as nat), crate::text::decimal(a.profile_field_selected as nat), opt_sig(a.library_filter), opt_sig(a.running_filter), mode_sig(a.mode), opt_sig(a.profile_editor), opt_sig(b.profile_editor));
}

proof fn lemma_sig_of_differs_at_library_filter(t: Seq<char>, d1: Seq<char>, d2: Seq<char>, d3: Seq<char>, pe: Seq<char>, rf: Seq<char>, m: Seq<char>, x: Seq<char>, y: Seq<char>)
    requires
        x != y,
    ensures
        sig_of(t, d1, d2, d3, pe, x, rf, m) != sig_of(t, d1, d2, d3, pe, y, rf, m),
{
    reveal(sig_of);
    let p = t + "|"@ + d1 + "|"@ + d2 + "|"@ + d3 + "|"@ + pe + "|"@;
    let s = "|"@ + rf + "|"@ + m;
    assert(sig_of(t, d1, d2, d3, pe, x, rf, m) =~= p + x + s);
    assert(sig_of(t, d1, d2, d3, pe, y, rf, m) =~= p + y + s);
    lemma_middle_differs(p, x, y, s);
}

proof fn lemma_signature_sees_library_filter(a: App, b: App)
    requires
        b == (App { library_filter: b.library_filter, ..a }),
        opt_view(b.library_filter) != opt_view(a.library_filter),
    ensures
        signature_spec(a) != signature_spec(b),
{
    assert(opt_sig(a.library_filter) != opt_sig(b.library_filter)) by {
        lemma_opt_sig_injective(a.library_filter, b.library_filter);
    }
    lemma_sig_of_differs_at_library_filter(super::app::tab_title_spec(a.tab), crate::text::decimal(a.library_selected as nat), crate::text::decimal(a.config_selected as nat), crate::text::decimal(a.profile_field_selected as nat), opt_sig(a.profile_editor), opt_sig(a.running_filter), mode_sig(a.mode), opt_sig(a.library_filter), opt_sig(b.library_filter));
}

proof fn lemma_sig_of_differs_at_running_filter(t: Seq<char>, d1: Seq<char>, d2: Seq<char>, d3: Seq<char>, pe: Seq<char>, lf: Seq<char>, m: Seq<char>, x: Seq<char>, y: Seq<char>)
    requires
        x != y,
    ensures
        sig_of(t, d1, d2, d3, pe, lf, x, m) != sig_of(t, d1, d2, d3, pe, lf, y, m),
{
    reveal(sig_of);
    let p = t + "|"@ + d1 + "|"@ + d2 + "|"@ + d3 + "|"@ + pe + "|"@ + lf + "|"@;
    let s = "|"@ + m;
    assert(sig_of(t, d1, d2, d3, pe, lf, x, m) =~= p + x + s);
    assert(sig_of(t, d1, d2, d3, pe, lf, y, m) =~= p + y + s);
    lemma_middle_differs(p, x, y, s);
}

proof fn lemma_signature_sees_running_filter(a: App, b: App)
    requires
        b == (App { running_filter: b.running_filter, ..a }),
        opt_view(b.running_filter) != opt_view(a.running_filter),
    ensures
        signature_spec(a) != signature_spec(b),
{
    assert(opt_sig(a.running_filter) != opt_sig(b.running_filter)) by {
        lemma_opt_sig_injective(a.running_filter, b.running_filter);
    }
    lemma_sig_of_differs_at_running_filter(super::app::tab_title_spec(a.tab), crate::text::decimal(a.library_selected as nat), crate::text::decimal(a.config_selected as nat), crate::text::decimal(a.profile_field_selected as nat), opt_sig(a.profile_editor), opt_sig(a.library_filter), mode_sig(a.mode), opt_sig(a.running_filter), opt_sig(b.running_filter));
}

/// The marquee restarts exactly when what is selected changes: typing in a
/// text popup leaves the signature as it was, while moving any one of the
/// selections (the tab, a list's row, the open profile, a quick-search)
/// changes it.
pub proof fn lemma_marquee_signature_tracks_selection(a: App, b: App)
    ensures
        (a.mode matches Mode::TextInput { purpose: p, .. } && b.mode matches Mode::TextInput { purpose: q, .. }
            && p == q && b == (App { mode: b.mode, ..a })) ==> signature_spec(a) == signature_spec(b),
        (b == (App { tab: b.tab, ..a }) && b.tab != a.tab) ==> signature_spec(a) != signature_spec(b),
        (b == (App { library_selected: b.library_selected, ..a }) && b.library_selected != a.library_selected) ==> signature_spec(a) != signature_spec(b),
        (b == (App { config_selected: b.config_selected, ..a }) && b.config_selected != a.config_selected) ==> signature_spec(a) != signature_spec(b),
        (b == (App { profile_field_selected: b.profile_field_selected, ..a }) && b.profile_field_selected != a.profile_field_selected) ==> signature_spec(a) != signature_spec(b),
        (b == (App { profile_editor: b.profile_editor, ..a }) && opt_view(b.profile_editor) != opt_view(a.profile_editor)) ==> signature_spec(a) != signature_spec(b),
        (b == (App { library_filter: b.library_filter, ..a }) && opt_view(b.library_filter) != opt_view(a.library_filter)) ==> signature_spec(a) != signature_spec(b),
        (b == (App { running_filter: b.running_filter, ..a }) && opt_view(b.running_filter) != opt_view(a.running_filter)) ==> signature_spec(a) != signature_spec(b),
{
    if b == (App { tab: b.tab, ..a }) && b.tab != a.tab {
        lemma_signature_sees_tab(a, b);
    }
    if b == (App { library_selected: b.library_selected, ..a }) && b.library_selected != a.library_selected {
        lemma_signature_sees_library_selected(a, b);
    }
    if b == (App { config_selected: b.config_selected, ..a }) && b.config_selected != a.config_selected {
        lemma_signature_sees_config_selected(a, b);
    }
    if b == (App { profile_field_selected: b.profile_field_selected, ..a }) && b.profile_field_selected != a.profile_field_selected {
        lemma_signature_sees_profile_field_selected(a, b);
    }
    if b == (App { profile_editor: b.profile_editor, ..a }) && opt_view(b.profile_editor) != opt_view(a.profile_editor) {
        lemma_signature_sees_profile_editor(a, b);
    }
    if b == (App { library_filter: b.library_filter, ..a }) && opt_view(b.library_filter) != opt_view(a.library_filter) {
        lemma_signature_sees_library_filter(a, b);
    }
    if b == (App { running_filter: b.running_filter, ..a }) && opt_view(b.running_filter) != opt_view(a.running_filter) {
        lemma_signature_sees_running_filter(a, b);
    }
}

} // verus!
