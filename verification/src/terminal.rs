//! Which terminal emulator to open a failed launch's log in, and how each
//! one wants the command passed.
use vstd::prelude::*;

use crate::text::{
    chars_of, owned, split_whitespace, split_whitespace_spec, str_contains, contains_spec, string_of, trim,
    trim_matches, trim_matches_spec, trim_spec, views,
};

verus! {

/// How a terminal emulator wants the command-to-run passed.
#[derive(Debug, Clone, Copy, PartialEq, Eq, Structural)]
pub enum ExecStyle {
    /// `<term> -e <cmd> <args...>`.
    DashE,
    /// `<term> -- <cmd> <args...>`.
    DoubleDash,
    /// `<term> <cmd> <args...>`.
    BareArgv,
    /// `wezterm start -- <cmd> <args...>`.
    WeztermStart,
}

/// Name for what `Path::file_name` gives for a path: its last component,
/// or nothing (a path ending in `..`, or the root).
pub uninterp spec fn spec_file_name(path: Seq<char>) -> Option<Seq<char>>;

/// std's `Path::file_name` on a string path; its result is named by
/// `spec_file_name`.
#[verifier::external_body]
pub(crate) fn file_name(path: &str) -> (r: Option<String>)
    ensures
        crate::config::opt_view(r) == spec_file_name(path@),
{
    std::path::Path::new(path).file_name().map(|n| n.to_string_lossy().into_owned())
}

/// The binary's own name from a configured terminal value that may be a
/// full path.
pub fn basename(program: &str) -> (r: String)
    ensures
        r@ == (match spec_file_name(program@) {
            Some(n) => n,
            None => program@,
        }),
{
    match file_name(program) {
        Some(n) => n,
        None => owned(program),
    }
}

pub open spec fn exec_style_spec(name: Seq<char>) -> ExecStyle {
    if name == "gnome-terminal"@ || name == "gnome-terminal.wrapper"@ {
        ExecStyle::DoubleDash
    } else if name == "kitty"@ || name == "foot"@ {
        ExecStyle::BareArgv
    } else if name == "wezterm"@ {
        ExecStyle::WeztermStart
    } else {
        ExecStyle::DashE
    }
}

/// How the terminal named `program_basename` takes its command.
pub fn exec_style(program_basename: &str) -> (r: ExecStyle)
    ensures
        r == exec_style_spec(program_basename@),
{
    let s = program_basename;
    if crate::text::str_eq(s, "gnome-terminal") || crate::text::str_eq(s, "gnome-terminal.wrapper") {
        ExecStyle::DoubleDash
    } else if crate::text::str_eq(s, "kitty") || crate::text::str_eq(s, "foot") {
        ExecStyle::BareArgv
    } else if crate::text::str_eq(s, "wezterm") {
        ExecStyle::WeztermStart
    } else {
        ExecStyle::DashE
    }
}

/// The arguments after the terminal's own configured ones that make it run
/// `pager log_path`, in its style.
pub open spec fn style_args_spec(style: ExecStyle, pager: Seq<char>, log_path: Seq<char>) -> Seq<Seq<char>> {
    match style {
        ExecStyle::DashE => seq!["-e"@, pager, log_path],
        ExecStyle::DoubleDash => seq!["--"@, pager, log_path],
        ExecStyle::BareArgv => seq![pager, log_path],
        ExecStyle::WeztermStart => seq!["start"@, "--"@, pager, log_path],
    }
}

/// The full argument list for `program existing_args...` to run
/// `pager log_path`.
pub fn terminal_args(style: ExecStyle, existing_args: &[String], pager: &str, log_path: &str) -> (r: Vec<String>)
    ensures
        crate::launch::strings(r@) == crate::launch::strings(existing_args@) + style_args_spec(style, pager@, log_path@),
{
    proof {
        reveal_strlit("-e");
        reveal_strlit("--");
        reveal_strlit("start");
    }
    let mut out: Vec<String> = Vec::new();
    let mut i: usize = 0;
    while i < existing_args.len()
        invariant
            i <= existing_args@.len(),
            out@ == existing_args@.take(i as int),
        decreases existing_args@.len() - i,
    {
        out.push(existing_args[i].clone());
        assert(out@ =~= existing_args@.take(i + 1));
        i = i + 1;
    }
    assert(existing_args@.take(existing_args@.len() as int) == existing_args@);
    let ghost base = out@;
    match style {
        ExecStyle::DashE => {
            out.push(owned("-e"));
        },
        ExecStyle::DoubleDash => {
            out.push(owned("--"));
        },
        ExecStyle::BareArgv => {},
        ExecStyle::WeztermStart => {
            out.push(owned("start"));
            out.push(owned("--"));
        },
    }
    out.push(owned(pager));
    out.push(owned(log_path));
    assert(crate::launch::strings(out@) =~= crate::launch::strings(existing_args@) + style_args_spec(
        style,
        pager@,
        log_path@,
    ));
    out
}

/// Which desktop's own terminal setting to consult.
#[derive(Debug, Clone, Copy, PartialEq, Eq, Structural)]
pub enum DesktopTerminal {
    Kde,
    Xfce,
    Gnome,
    Unknown,
}

/// From the lowercased `XDG_CURRENT_DESKTOP`: KDE first, then XFCE, then
/// GNOME.
pub fn desktop_terminal(desktop_lower: &str) -> (r: DesktopTerminal)
    ensures
        r == (if contains_spec(desktop_lower@, "kde"@) {
            DesktopTerminal::Kde
        } else if contains_spec(desktop_lower@, "xfce"@) {
            DesktopTerminal::Xfce
        } else if contains_spec(desktop_lower@, "gnome"@) {
            DesktopTerminal::Gnome
        } else {
            DesktopTerminal::Unknown
        }),
{
    if str_contains(desktop_lower, "kde") {
        DesktopTerminal::Kde
    } else if str_contains(desktop_lower, "xfce") {
        DesktopTerminal::Xfce
    } else if str_contains(desktop_lower, "gnome") {
        DesktopTerminal::Gnome
    } else {
        DesktopTerminal::Unknown
    }
}

/// A configured terminal value split into program and its own arguments;
/// none when it holds no word.
pub open spec fn split_command_spec(value: Seq<char>) -> Option<(Seq<char>, Seq<Seq<char>>)> {
    let parts = split_whitespace_spec(value);
    if parts.len() == 0 {
        None
    } else {
        Some((parts[0], parts.drop_first()))
    }
}

/// Splits a configured terminal value on whitespace into program and args.
pub fn split_command(value: &str) -> (r: Option<(String, Vec<String>)>)
    ensures
        match r {
            Some(p) => split_command_spec(value@) == Some((p.0@, crate::launch::strings(p.1@))),
            None => split_command_spec(value@) is None,
        },
{
    let v = chars_of(value);
    let parts = split_whitespace(&v);
    if parts.len() == 0 {
        return None;
    }
    let program = string_of(&parts[0]);
    let mut rest: Vec<String> = Vec::new();
    let mut i: usize = 1;
    while i < parts.len()
        invariant
            1 <= i <= parts@.len(),
            crate::launch::strings(rest@) == views(parts@).subrange(1, i as int),
        decreases parts@.len() - i,
    {
        let s = string_of(&parts[i]);
        let ghost before = rest@;
        rest.push(s);
        assert(crate::launch::strings(rest@) =~= crate::launch::strings(before).push(s@));
        assert(views(parts@).subrange(1, i + 1) =~= views(parts@).subrange(1, i as int).push(s@));
        i = i + 1;
    }
    assert(views(parts@).subrange(1, parts@.len() as int) =~= views(parts@).drop_first());
    Some((program, rest))
}

/// KDE's `TerminalApplication` value (the raw output of `kreadconfig`),
/// trimmed and split.
pub fn kde_terminal_command(raw: &str) -> (r: Option<(String, Vec<String>)>)
    ensures
        match r {
            Some(p) => split_command_spec(trim_spec(raw@)) == Some((p.0@, crate::launch::strings(p.1@))),
            None => split_command_spec(trim_spec(raw@)) is None,
        },
{
    let v = chars_of(raw);
    let t = trim(&v);
    let s = string_of(&t);
    split_command(s.as_str())
}

/// GNOME's terminal `exec` value (the raw output of `gsettings get`):
/// trimmed, quotes stripped; nothing when empty or `xdg-terminal-exec`.
pub open spec fn gnome_terminal_spec(raw: Seq<char>) -> Option<(Seq<char>, Seq<Seq<char>>)> {
    let value = trim_matches_spec(trim_spec(raw), '\'');
    if value.len() == 0 || value == "xdg-terminal-exec"@ {
        None
    } else {
        split_command_spec(value)
    }
}

pub fn gnome_terminal_command(raw: &str) -> (r: Option<(String, Vec<String>)>)
    ensures
        match r {
            Some(p) => gnome_terminal_spec(raw@) == Some((p.0@, crate::launch::strings(p.1@))),
            None => gnome_terminal_spec(raw@) is None,
        },
{
    let v = chars_of(raw);
    let t = trim(&v);
    let q = trim_matches(&t, '\'');
    let s = string_of(&q);
    if s.as_str().is_empty() || crate::text::str_eq(s.as_str(), "xdg-terminal-exec") {
        return None;
    }
    split_command(s.as_str())
}

/// Common terminal emulators, most to least likely to be in use: the last
/// resort.
pub fn fallback_terminals() -> (r: Vec<&'static str>)
    ensures
        crate::launch::strs(r@) == seq![
            "konsole"@,
            "gnome-terminal"@,
            "xfce4-terminal"@,
            "alacritty"@,
            "kitty"@,
            "foot"@,
            "wezterm"@,
            "xterm"@,
        ],
{
    let v = vec!["konsole", "gnome-terminal", "xfce4-terminal", "alacritty", "kitty", "foot", "wezterm", "xterm"];
    assert(crate::launch::strs(v@) =~= seq![
        "konsole"@,
        "gnome-terminal"@,
        "xfce4-terminal"@,
        "alacritty"@,
        "kitty"@,
        "foot"@,
        "wezterm"@,
        "xterm"@,
    ]);
    v
}

} // verus!
