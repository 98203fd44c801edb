//! Registering iprolaunch as the desktop's handler for Windows executables:
//! the `.desktop` entries written, and the clean-up of `mimeapps.list`.
use vstd::prelude::*;

use crate::launch::{strings, strs};
use crate::strmap::StrMap;
use crate::text::{
    chars_of, concat, concat3, join, join_spec, lines, lines_spec, owned, split_char, split_char_spec,
    split_once_char, split_once_char_spec, starts_with_spec, str_eq, string_of, trim, trim_spec, views,
};

verus! {

/// The mimetypes iprolaunch handles.
pub open spec fn mime_types_spec() -> Seq<Seq<char>> {
    seq![
        "application/x-msdownload"@,
        "application/x-ms-dos-executable"@,
        "application/x-bat"@,
        "application/x-msi"@,
    ]
}

pub fn mime_types() -> (r: Vec<&'static str>)
    ensures
        strs(r@) == mime_types_spec(),
{
    let v = vec!["application/x-msdownload", "application/x-ms-dos-executable", "application/x-bat", "application/x-msi"];
    assert(strs(v@) =~= mime_types_spec());
    v
}

/// The handler entry's file name.
pub fn desktop_file_name() -> (r: &'static str)
    ensures
        r@ == "iprolaunch.desktop"@,
{
    "iprolaunch.desktop"
}

/// The app-menu entry's file name.
pub fn menu_desktop_file_name() -> (r: &'static str)
    ensures
        r@ == "iprolaunch-menu.desktop"@,
{
    "iprolaunch-menu.desktop"
}

/// The mimetypes joined with `;`.
pub fn joined_mime_types() -> (r: String)
    ensures
        r@ == join_spec(mime_types_spec(), ";"@),
{
    let ms = mime_types();
    let mut pieces: Vec<Vec<char>> = Vec::new();
    let mut i: usize = 0;
    while i < ms.len()
        invariant
            i <= ms@.len(),
            strs(ms@) == mime_types_spec(),
            views(pieces@) == mime_types_spec().take(i as int),
        decreases ms@.len() - i,
    {
        let ghost before = pieces@;
        let c = chars_of(ms[i]);
        assert(strs(ms@)[i as int] == ms@[i as int]@);
        assert(c@ == mime_types_spec()[i as int]);
        pieces.push(c);
        assert(views(pieces@) =~= views(before).push(c@));
        assert(mime_types_spec().take(i + 1) =~= mime_types_spec().take(i as int).push(mime_types_spec()[i as int]));
        assert(views(pieces@) =~= mime_types_spec().take(i + 1));
        i = i + 1;
    }
    assert(mime_types_spec().take(4) == mime_types_spec());
    let sep: Vec<char> = vec![';'];
    proof {
        reveal_strlit(";");
        assert(sep@ =~= ";"@);
    }
    let j = join(&pieces, &sep);
    string_of(&j)
}

/// The file handler's `.desktop` entry for the binary at `exe`.
pub open spec fn desktop_file_spec(exe: Seq<char>) -> Seq<char> {
    "[Desktop Entry]\nType=Application\nName=IProLaunch\nComment=Launch Windows apps/games through Proton via umu-run\nExec=\""@
        + exe + "\" run %f\nTerminal=false\nNoDisplay=true\nIcon=iprolaunch\nCategories=Game;Utility;\nMimeType="@
        + join_spec(mime_types_spec(), ";"@) + ";\n"@
}

/// The file handler's `.desktop` entry (hidden from menus, opens a file
/// with `run`).
pub fn desktop_file_contents(exe: &str) -> (r: String)
    ensures
        r@ == desktop_file_spec(exe@),
{
    let mut r = concat(
        "[Desktop Entry]\nType=Application\nName=IProLaunch\nComment=Launch Windows apps/games through Proton via umu-run\nExec=\"",
        exe,
    );
    r.append("\" run %f\nTerminal=false\nNoDisplay=true\nIcon=iprolaunch\nCategories=Game;Utility;\nMimeType=");
    let m = joined_mime_types();
    r.append(m.as_str());
    r.append(";\n");
    r
}

/// The app-menu entry: plain `iprolaunch` (the TUI) inside a terminal.
pub fn menu_desktop_file_contents(exe: &str) -> (r: String)
    ensures
        r@ == "[Desktop Entry]\nType=Application\nName=IProLaunch\nComment=Launch Windows apps/games through Proton via umu-run\nExec=\""@
            + exe@ + "\"\nTerminal=true\nIcon=iprolaunch\nCategories=Game;Utility;\n"@,
{
    concat3(
        "[Desktop Entry]\nType=Application\nName=IProLaunch\nComment=Launch Windows apps/games through Proton via umu-run\nExec=\"",
        exe,
        "\"\nTerminal=true\nIcon=iprolaunch\nCategories=Game;Utility;\n",
    )
}

/// The binary path of the first `Exec="<path>"` line.
pub open spec fn exec_path_of_line(line: Seq<char>) -> Option<Seq<char>> {
    match crate::text::strip_prefix_spec(line, "Exec=\""@) {
        Some(rest) => match crate::text::char_find_from(rest, '"', 0) {
            Some(end) => Some(rest.subrange(0, end)),
            None => None,
        },
        None => None,
    }
}

pub open spec fn exec_path_from(ls: Seq<Seq<char>>, i: int) -> Option<Seq<char>>
    decreases ls.len() - i,
{
    if i < 0 || i >= ls.len() {
        None
    } else {
        match exec_path_of_line(ls[i]) {
            Some(p) => Some(p),
            None => exec_path_from(ls, i + 1),
        }
    }
}

/// The binary path an installed `.desktop` entry's `Exec="<path>" ...`
/// line points at.
pub fn parse_exec_path(content: &str) -> (r: Option<String>)
    ensures
        crate::config::opt_view(r) == exec_path_from(lines_spec(content@), 0),
{
    let cv = chars_of(content);
    let ls = lines(&cv);
    let ghost lv = views(ls@);
    let prefix: Vec<char> = chars_of("Exec=\"");
    let mut i: usize = 0;
    while i < ls.len()
        invariant
            i <= ls@.len(),
            lv == views(ls@),
            lv == lines_spec(content@),
            prefix@ == "Exec=\""@,
            exec_path_from(lv, 0) == exec_path_from(lv, i as int),
        decreases ls@.len() - i,
    {
        assert(lv[i as int] == ls@[i as int]@);
        match crate::text::strip_prefix(&ls[i], &prefix) {
            Some(rest) => match crate::text::index_of_char(&rest, '"') {
                Some(end) => {
                    proof {
                        crate::text::lemma_char_find_from_range(rest@, '"', 0);
                    }
                    let p = crate::text::slice_range(&rest, 0, end);
                    return Some(string_of(&p));
                },
                None => {},
            },
            None => {},
        }
        i = i + 1;
    }
    None
}

/// The mimetypes not yet recorded in the backup of prior defaults.
pub fn mimes_missing_from(backup: &StrMap) -> (r: Vec<&'static str>)
    ensures
        strs(r@) == mime_types_spec().filter(|m: Seq<char>| !backup@.dom().contains(m)),
{
    let ms = mime_types();
    let mut out: Vec<&'static str> = Vec::new();
    let mut i: usize = 0;
    while i < ms.len()
        invariant
            i <= ms@.len(),
            strs(ms@) == mime_types_spec(),
            strs(out@) == mime_types_spec().take(i as int).filter(|m: Seq<char>| !backup@.dom().contains(m)),
        decreases ms@.len() - i,
    {
        assert(mime_types_spec().take(i + 1).drop_last() == mime_types_spec().take(i as int));
        reveal(Seq::filter);
        let ghost before = out@;
        if !backup.contains_key(ms[i]) {
            out.push(ms[i]);
        }
        assert(strs(out@) =~= mime_types_spec().take(i + 1).filter(|m: Seq<char>| !backup@.dom().contains(m)));
        i = i + 1;
    }
    assert(mime_types_spec().take(4) == mime_types_spec());
    out
}

// ---------------------------------------------------------------------------
// mimeapps.list
// ---------------------------------------------------------------------------

/// The desktop ids of a mimetype's value: split on `;`, trimmed, empties
/// dropped.
pub open spec fn desktop_ids(value: Seq<char>) -> Seq<Seq<char>> {
    split_char_spec(value, ';').map_values(|d: Seq<char>| trim_spec(d)).filter(|d: Seq<char>| d.len() > 0)
}

/// What happens to one line, given whether it is inside one of the two
/// association sections: the next section state, the line kept (or none),
/// and whether our entry was removed from it.
pub open spec fn strip_step(in_section: bool, line: Seq<char>) -> (bool, Option<Seq<char>>, bool) {
    let t = trim_spec(line);
    if t.len() > 0 && t[0] == '[' {
        (t == "[Default Applications]"@ || t == "[Added Associations]"@, Some(line), false)
    } else {
        match split_once_char_spec(t, '=') {
            Some((key, value)) => if in_section && mime_types_spec().contains(trim_spec(key)) {
                let before = desktop_ids(value);
                let after = before.filter(|d: Seq<char>| d != "iprolaunch.desktop"@);
                (
                    in_section,
                    if after.len() > 0 {
                        Some(trim_spec(key) + "="@ + join_spec(after, ";"@) + ";"@)
                    } else {
                        None
                    },
                    after.len() != before.len(),
                )
            } else {
                (in_section, Some(line), false)
            },
            None => (in_section, Some(line), false),
        }
    }
}

/// The state after a run of lines: section flag, kept lines, changed flag.
pub open spec fn strip_lines(ls: Seq<Seq<char>>) -> (bool, Seq<Seq<char>>, bool)
    decreases ls.len(),
{
    if ls.len() == 0 {
        (false, Seq::empty(), false)
    } else {
        let prev = strip_lines(ls.drop_last());
        let step = strip_step(prev.0, ls.last());
        (
            step.0,
            prev.1 + match step.1 {
                Some(l) => seq![l],
                None => Seq::empty(),
            },
            prev.2 || step.2,
        )
    }
}

/// `mimeapps.list` with `iprolaunch.desktop` removed from our mimetypes'
/// lists in `[Default Applications]` and `[Added Associations]` (a line left
/// with no desktop id is dropped), and whether anything changed.
pub open spec fn strip_spec(content: Seq<char>) -> (Seq<char>, bool) {
    let r = strip_lines(lines_spec(content));
    (join_spec(r.1, "\n"@) + "\n"@, r.2)
}

fn is_our_mime(key: &str) -> (r: bool)
    ensures
        r == mime_types_spec().contains(key@),
{
    let ms = mime_types();
    let mut i: usize = 0;
    while i < ms.len()
        invariant
            i <= ms@.len(),
            strs(ms@) == mime_types_spec(),
            forall|j: int| 0 <= j < i ==> mime_types_spec()[j] != key@,
        decreases ms@.len() - i,
    {
        if str_eq(ms[i], key) {
            assert(mime_types_spec()[i as int] == key@);
            return true;
        }
        i = i + 1;
    }
    false
}

/// The desktop ids of a value, as `desktop_ids` describes.
fn parse_desktop_ids(value: &[char]) -> (r: Vec<Vec<char>>)
    ensures
        views(r@) == desktop_ids(value@),
{
    let parts = split_char(value, ';');
    let ghost pv = views(parts@);
    let ghost mapped = pv.map_values(|d: Seq<char>| trim_spec(d));
    let mut out: Vec<Vec<char>> = Vec::new();
    let mut i: usize = 0;
    while i < parts.len()
        invariant
            i <= parts@.len(),
            pv == views(parts@),
            pv == split_char_spec(value@, ';'),
            mapped == pv.map_values(|d: Seq<char>| trim_spec(d)),
            views(out@) == mapped.take(i as int).filter(|d: Seq<char>| d.len() > 0),
        decreases parts@.len() - i,
    {
        assert(mapped.take(i + 1).drop_last() == mapped.take(i as int));
        reveal(Seq::filter);
        let t = trim(&parts[i]);
        assert(t@ == mapped[i as int]);
        let ghost before = out@;
        if t.len() > 0 {
            out.push(t);
        }
        assert(views(out@) =~= mapped.take(i + 1).filter(|d: Seq<char>| d.len() > 0));
        i = i + 1;
    }
    assert(mapped.take(parts@.len() as int) == mapped);
    out
}

/// One line's step, as `strip_step` describes.
fn strip_one(in_section: bool, line: &[char]) -> (r: (bool, Option<Vec<char>>, bool))
    ensures
        (r.0, match r.1 {
            Some(l) => Some(l@),
            None => None,
        }, r.2) == strip_step(in_section, line@),
{
    let t = trim(line);
    if t.len() > 0 && t[0] == '[' {
        let ts = string_of(&t);
        let relevant = str_eq(ts.as_str(), "[Default Applications]") || str_eq(ts.as_str(), "[Added Associations]");
        return (relevant, Some(crate::text::slice_range(line, 0, line.len())), false);
    }
    match split_once_char(&t, '=') {
        Some((key, value)) => {
            let tk = trim(&key);
            let tks = string_of(&tk);
            if in_section && is_our_mime(tks.as_str()) {
                let before = parse_desktop_ids(&value);
                let ghost bv = views(before@);
                let mut after: Vec<Vec<char>> = Vec::new();
                let ours: Vec<char> = chars_of("iprolaunch.desktop");
                let mut i: usize = 0;
                while i < before.len()
                    invariant
                        i <= before@.len(),
                        bv == views(before@),
                        ours@ == "iprolaunch.desktop"@,
                        views(after@) == bv.take(i as int).filter(|d: Seq<char>| d != "iprolaunch.desktop"@),
                    decreases before@.len() - i,
                {
                    assert(bv.take(i + 1).drop_last() == bv.take(i as int));
                    reveal(Seq::filter);
                    let ghost pre = after@;
                    if !crate::text::chars_eq(&before[i], &ours) {
                        after.push(before[i].clone());
                    }
                    assert(views(after@) =~= bv.take(i + 1).filter(|d: Seq<char>| d != "iprolaunch.desktop"@));
                    i = i + 1;
                }
                assert(bv.take(before@.len() as int) == bv);
                let changed = after.len() != before.len();
                if after.len() > 0 {
                    let sep: Vec<char> = vec![';'];
                    proof {
                        reveal_strlit(";");
                        reveal_strlit("=");
                        assert(sep@ =~= ";"@);
                    }
                    let joined = join(&after, &sep);
                    let mut out = tk.clone();
                    out.push('=');
                    out.extend_from_slice(&joined);
                    out.push(';');
                    assert(out@ =~= tk@ + "="@ + join_spec(views(after@), ";"@) + ";"@);
                    (in_section, Some(out), changed)
                } else {
                    (in_section, None, changed)
                }
            } else {
                (in_section, Some(crate::text::slice_range(line, 0, line.len())), false)
            }
        },
        None => (in_section, Some(crate::text::slice_range(line, 0, line.len())), false),
    }
}

/// Strips `iprolaunch.desktop` out of `mimeapps.list`'s association lists
/// for our mimetypes, leaving every other app, mimetype and section alone.
pub fn strip_desktop_entry_from_mimeapps(content: &str) -> (r: (String, bool))
    ensures
        (r.0@, r.1) == strip_spec(content@),
{
    let cv = chars_of(content);
    let ls = lines(&cv);
    let ghost lv = views(ls@);
    let mut in_section = false;
    let mut changed = false;
    let mut out_lines: Vec<Vec<char>> = Vec::new();
    let mut i: usize = 0;
    while i < ls.len()
        invariant
            i <= ls@.len(),
            lv == views(ls@),
            lv == lines_spec(content@),
            strip_lines(lv.take(i as int)) == (in_section, views(out_lines@), changed),
        decreases ls@.len() - i,
    {
        assert(lv.take(i + 1).drop_last() == lv.take(i as int));
        assert(lv.take(i + 1).last() == ls@[i as int]@);
        let (sec, kept, ch) = strip_one(in_section, &ls[i]);
        let ghost before = out_lines@;
        match kept {
            Some(l) => {
                out_lines.push(l);
                assert(views(out_lines@) =~= views(before) + seq![views(out_lines@).last()]);
            },
            None => {
                assert(views(out_lines@) =~= views(before) + Seq::<Seq<char>>::empty());
            },
        }
        in_section = sec;
        changed = changed || ch;
        i = i + 1;
    }
    assert(lv.take(ls@.len() as int) == lv);
    let nl: Vec<char> = vec!['\n'];
    proof {
        reveal_strlit("\n");
        assert(nl@ =~= "\n"@);
    }
    let mut joined = join(&out_lines, &nl);
    joined.push('\n');
    assert(joined@ =~= join_spec(views(out_lines@), "\n"@) + "\n"@);
    (string_of(&joined), changed)
}

} // verus!
