//! The "Add to IProLaunch Library" right-click action for KDE, the GNOME
//! family and XFCE: the files written, and the merge into Thunar's
//! `uca.xml`.
use vstd::prelude::*;

use crate::config::{path_join, path_join_spec};
use crate::text::{
    chars_of, concat, contains_spec, find_from, find_spec, join_spec, owned, replace_all, replace_spec,
    rfind_spec, string_of,
};

verus! {

/// Which file managers the action can be installed for.
#[derive(Debug, Clone, Copy, PartialEq, Eq, Structural)]
pub enum DesktopEnv {
    Kde,
    Gnome,
    Xfce,
}

impl DesktopEnv {
    /// The name shown for this desktop in reports.
    pub fn label(self) -> (r: &'static str)
        ensures
            r@ == (match self {
                DesktopEnv::Kde => "KDE (Dolphin)"@,
                DesktopEnv::Gnome => "GNOME/Cinnamon/MATE (Nautilus/Nemo/Caja)"@,
                DesktopEnv::Xfce => "XFCE (Thunar)"@,
            }),
    {
        match self {
            DesktopEnv::Kde => "KDE (Dolphin)",
            DesktopEnv::Gnome => "GNOME/Cinnamon/MATE (Nautilus/Nemo/Caja)",
            DesktopEnv::Xfce => "XFCE (Thunar)",
        }
    }
}

/// Every supported desktop, in the order they are handled.
pub fn all_desktops() -> (r: Vec<DesktopEnv>)
    ensures
        r@ == seq![DesktopEnv::Kde, DesktopEnv::Gnome, DesktopEnv::Xfce],
{
    let v = vec![DesktopEnv::Kde, DesktopEnv::Gnome, DesktopEnv::Xfce];
    assert(v@ =~= seq![DesktopEnv::Kde, DesktopEnv::Gnome, DesktopEnv::Xfce]);
    v
}

/// The KIO service menu template (`{mimetypes}` and `{bin}` filled in on
/// install).
pub open spec fn kde_template_spec() -> Seq<char> {
    "[Desktop Entry]\nType=Service\nMimeType={mimetypes};\nActions=addToIProLaunch;\nX-KDE-ServiceTypes=KonqPopupMenu/Plugin\nX-KDE-Priority=TopLevel\n\n[Desktop Action addToIProLaunch]\nName=Add to IProLaunch Library\nIcon=iprolaunch\nExec=\"{bin}\" add %f\n"@
}

pub fn kde_template() -> (r: &'static str)
    ensures
        r@ == kde_template_spec(),
{
    "[Desktop Entry]\nType=Service\nMimeType={mimetypes};\nActions=addToIProLaunch;\nX-KDE-ServiceTypes=KonqPopupMenu/Plugin\nX-KDE-Priority=TopLevel\n\n[Desktop Action addToIProLaunch]\nName=Add to IProLaunch Library\nIcon=iprolaunch\nExec=\"{bin}\" add %f\n"
}

/// The file-manager script template shared by Nautilus, Nemo and Caja.
pub open spec fn gnome_template_spec() -> Seq<char> {
    "#!/bin/sh\n# Adds every selected file to the IProLaunch library.\nIFS='\n'\nfor path in $NAUTILUS_SCRIPT_SELECTED_FILE_PATHS $NEMO_SCRIPT_SELECTED_FILE_PATHS $CAJA_SCRIPT_SELECTED_FILE_PATHS; do\n    \"{bin}\" add \"$path\"\ndone\n"@
}

pub fn gnome_template() -> (r: &'static str)
    ensures
        r@ == gnome_template_spec(),
{
    "#!/bin/sh\n# Adds every selected file to the IProLaunch library.\nIFS='\n'\nfor path in $NAUTILUS_SCRIPT_SELECTED_FILE_PATHS $NEMO_SCRIPT_SELECTED_FILE_PATHS $CAJA_SCRIPT_SELECTED_FILE_PATHS; do\n    \"{bin}\" add \"$path\"\ndone\n"
}

/// Thunar's `<action>` block template.
pub open spec fn xfce_template_spec() -> Seq<char> {
    "<action>\n\t<icon>iprolaunch</icon>\n\t<name>Add to IProLaunch Library</name>\n\t<unique-id>com.iprolaunch.add-to-library</unique-id>\n\t<command>\"{bin}\" add %f</command>\n\t<description>Add this Windows program to the IProLaunch library</description>\n\t<patterns>*.exe;*.EXE;*.bat;*.BAT;*.cmd;*.CMD;*.msi;*.MSI</patterns>\n\t<other-files/>\n</action>\n"@
}

pub fn xfce_template() -> (r: &'static str)
    ensures
        r@ == xfce_template_spec(),
{
    "<action>\n\t<icon>iprolaunch</icon>\n\t<name>Add to IProLaunch Library</name>\n\t<unique-id>com.iprolaunch.add-to-library</unique-id>\n\t<command>\"{bin}\" add %f</command>\n\t<description>Add this Windows program to the IProLaunch library</description>\n\t<patterns>*.exe;*.EXE;*.bat;*.BAT;*.cmd;*.CMD;*.msi;*.MSI</patterns>\n\t<other-files/>\n</action>\n"
}

/// The script's file name, which is also its menu label.
pub fn gnome_script_name() -> (r: &'static str)
    ensures
        r@ == "Add to IProLaunch Library"@,
{
    "Add to IProLaunch Library"
}

/// The stable id of our Thunar action.
pub fn xfce_unique_id() -> (r: &'static str)
    ensures
        r@ == "com.iprolaunch.add-to-library"@,
{
    "com.iprolaunch.add-to-library"
}

fn replace_str(s: &str, from: &str, to: &str) -> (r: String)
    requires
        from@.len() > 0,
    ensures
        r@ == replace_spec(s@, from@, to@),
{
    let sv = chars_of(s);
    let fv = chars_of(from);
    let tv = chars_of(to);
    let r = replace_all(&sv, &fv, &tv);
    string_of(&r)
}

/// The KDE service menu for the binary at `exe`.
pub fn kde_desktop_contents(exe: &str) -> (r: String)
    ensures
        r@ == replace_spec(
            replace_spec(kde_template_spec(), "{mimetypes}"@, join_spec(crate::integrate::mime_types_spec(), ";"@)),
            "{bin}"@,
            exe@,
        ),
{
    proof {
        reveal_strlit("{mimetypes}");
        reveal_strlit("{bin}");
    }
    let m = crate::integrate::joined_mime_types();
    let a = replace_str(kde_template(), "{mimetypes}", m.as_str());
    replace_str(a.as_str(), "{bin}", exe)
}

/// The GNOME-family script for the binary at `exe`.
pub fn gnome_script_contents(exe: &str) -> (r: String)
    ensures
        r@ == replace_spec(gnome_template_spec(), "{bin}"@, exe@),
{
    proof {
        reveal_strlit("{bin}");
    }
    replace_str(gnome_template(), "{bin}", exe)
}

/// Thunar's action block for the binary at `exe`.
pub fn xfce_action_xml(exe: &str) -> (r: String)
    ensures
        r@ == replace_spec(xfce_template_spec(), "{bin}"@, exe@),
{
    proof {
        reveal_strlit("{bin}");
    }
    replace_str(xfce_template(), "{bin}", exe)
}

/// Where the KDE service menu goes: the Plasma 6 and Plasma 5 locations
/// under the data directory.
pub fn kde_service_menu_paths(data_dir: &str) -> (r: Vec<String>)
    ensures
        crate::launch::strings(r@) == seq![
            path_join_spec(data_dir@, "kio/servicemenus/iprolaunch-add.desktop"@),
            path_join_spec(data_dir@, "kservices5/ServiceMenus/iprolaunch-add.desktop"@),
        ],
{
    proof {
        reveal_strlit("kio/servicemenus/iprolaunch-add.desktop");
        reveal_strlit("kservices5/ServiceMenus/iprolaunch-add.desktop");
    }
    let a = path_join(data_dir, "kio/servicemenus/iprolaunch-add.desktop");
    let b = path_join(data_dir, "kservices5/ServiceMenus/iprolaunch-add.desktop");
    let v = vec![a, b];
    assert(crate::launch::strings(v@) =~= seq![
        path_join_spec(data_dir@, "kio/servicemenus/iprolaunch-add.desktop"@),
        path_join_spec(data_dir@, "kservices5/ServiceMenus/iprolaunch-add.desktop"@),
    ]);
    v
}

/// Where the GNOME-family script goes: Nautilus's and Nemo's script folders
/// under the data directory, Caja's under the configuration directory.
pub fn gnome_script_dirs(data_dir: &str, config_dir: &str) -> (r: Vec<String>)
    ensures
        crate::launch::strings(r@) == seq![
            path_join_spec(data_dir@, "nautilus/scripts"@),
            path_join_spec(data_dir@, "nemo/scripts"@),
            path_join_spec(config_dir@, "caja/scripts"@),
        ],
{
    proof {
        reveal_strlit("nautilus/scripts");
        reveal_strlit("nemo/scripts");
        reveal_strlit("caja/scripts");
    }
    let a = path_join(data_dir, "nautilus/scripts");
    let b = path_join(data_dir, "nemo/scripts");
    let c = path_join(config_dir, "caja/scripts");
    let v = vec![a, b, c];
    assert(crate::launch::strings(v@) =~= seq![
        path_join_spec(data_dir@, "nautilus/scripts"@),
        path_join_spec(data_dir@, "nemo/scripts"@),
        path_join_spec(config_dir@, "caja/scripts"@),
    ]);
    v
}

// ---------------------------------------------------------------------------
// uca.xml
// ---------------------------------------------------------------------------

/// `s` without one leading newline, when it has one.
pub open spec fn drop_newline(s: Seq<char>) -> Seq<char> {
    if s.len() > 0 && s[0] == '\n' {
        s.drop_first()
    } else {
        s
    }
}

/// The document with every `<action>...</action>` block whose text contains
/// `marker` removed (with the newline right after it), and whether any
/// was.
pub open spec fn remove_blocks(rest: Seq<char>, marker: Seq<char>) -> (Seq<char>, bool)
    decreases rest.len(),
{
    match find_spec(rest, "<action>"@) {
        None => (rest, false),
        Some(start) => match find_from(rest, "</action>"@, start) {
            None => (rest, false),
            Some(close) => {
                let end = close + 9;
                if start < 0 || end <= 0 || end > rest.len() {
                    (rest, false)
                } else if contains_spec(rest.subrange(start, end), marker) {
                    let next = drop_newline(rest.subrange(end, rest.len() as int));
                    let r = remove_blocks(next, marker);
                    (rest.subrange(0, start) + r.0, true)
                } else {
                    let r = remove_blocks(rest.subrange(end, rest.len() as int), marker);
                    (rest.subrange(0, end) + r.0, r.1)
                }
            },
        },
    }
}

/// `<unique-id>ID</unique-id>`.
pub open spec fn id_marker(unique_id: Seq<char>) -> Seq<char> {
    "<unique-id>"@ + unique_id + "</unique-id>"@
}

/// Strips any `<action>` block whose body contains
/// `<unique-id>{unique_id}</unique-id>`, leaving every other action
/// untouched; also reports whether one was removed.
pub fn remove_uca_action(content: &str, unique_id: &str) -> (r: (String, bool))
    ensures
        (r.0@, r.1) == remove_blocks(content@, id_marker(unique_id@)),
{
    let marker_s = crate::text::concat3("<unique-id>", unique_id, "</unique-id>");
    let marker = chars_of(marker_s.as_str());
    let open: Vec<char> = chars_of("<action>");
    let close: Vec<char> = chars_of("</action>");
    proof {
        reveal_strlit("</action>");
        assert(close@.len() == 9);
    }
    let cv = chars_of(content);
    let mut out: Vec<char> = Vec::new();
    let mut pos: usize = 0;
    let mut changed = false;
    assert(cv@.subrange(0, cv@.len() as int) == cv@);
    loop
        invariant
            pos <= cv@.len(),
            marker@ == id_marker(unique_id@),
            open@ == "<action>"@,
            close@ == "</action>"@,
            close@.len() == 9,
            (out@ + remove_blocks(cv@.subrange(pos as int, cv@.len() as int), marker@).0,
                changed || remove_blocks(cv@.subrange(pos as int, cv@.len() as int), marker@).1)
                == remove_blocks(content@, id_marker(unique_id@)),
            cv@ == content@,
        decreases cv@.len() - pos,
    {
        let ghost rest = cv@.subrange(pos as int, cv@.len() as int);
        let tail = crate::text::slice_range(&cv, pos, cv.len());
        assert(tail@ == rest);
        let start = match crate::text::chars_find(&tail, &open) {
            Some(s) => s,
            None => {
                let ghost before = out@;
                out.extend_from_slice(&tail);
                assert(out@ == before + rest);
                return (string_of(&out), changed);
            },
        };
        proof {
            crate::text::lemma_find_from_props(tail@, open@, 0);
        }
        let close_at = match crate::text::chars_find_from(&tail, &close, start) {
            Some(c) => c,
            None => {
                let ghost before = out@;
                out.extend_from_slice(&tail);
                assert(out@ == before + rest);
                return (string_of(&out), changed);
            },
        };
        proof {
            crate::text::lemma_find_from_props(tail@, close@, start as int);
        }
        let end = close_at + 9;
        let block = crate::text::slice_range(&tail, start, end);
        if crate::text::chars_find(&block, &marker).is_some() {
            let head = crate::text::slice_range(&tail, 0, start);
            let ghost before = out@;
            out.extend_from_slice(&head);
            changed = true;
            let after_start = if end < tail.len() && tail[end] == '\n' {
                end + 1
            } else {
                end
            };
            assert(cv@.subrange(pos + after_start, cv@.len() as int) == drop_newline(rest.subrange(end as int, rest.len() as int)));
            assert(out@ == before + rest.subrange(0, start as int));
            pos = pos + after_start;
        } else {
            let head = crate::text::slice_range(&tail, 0, end);
            let ghost before = out@;
            out.extend_from_slice(&head);
            assert(cv@.subrange(pos + end, cv@.len() as int) == rest.subrange(end as int, rest.len() as int));
            assert(out@ == before + rest.subrange(0, end as int));
            pos = pos + end;
        }
    }
}

/// Our action merged into a `uca.xml`: any older copy removed, the new one
/// inserted right before the last `</actions>`, or a fresh document when
/// there is none.
pub open spec fn upsert_spec(content: Seq<char>, unique_id: Seq<char>, action_xml: Seq<char>) -> Seq<char> {
    let without = remove_blocks(content, id_marker(unique_id)).0;
    match rfind_spec(without, "</actions>"@) {
        Some(p) => without.subrange(0, p) + action_xml + without.subrange(p, without.len() as int),
        None => "<?xml version=\"1.0\" encoding=\"UTF-8\"?>\n<actions>\n"@ + action_xml + "</actions>\n"@,
    }
}

/// Replaces any existing action with `unique_id` by `action_xml`, placed
/// just before the closing `</actions>`; wraps it in a fresh document when
/// there is none.
pub fn upsert_uca_action(content: &str, unique_id: &str, action_xml: &str) -> (r: String)
    ensures
        r@ == upsert_spec(content@, unique_id@, action_xml@),
{
    let (without, _) = remove_uca_action(content, unique_id);
    let wv = chars_of(without.as_str());
    let closing: Vec<char> = chars_of("</actions>");
    match crate::text::chars_rfind(&wv, &closing) {
        Some(p) => {
            proof {
                crate::text::lemma_rfind_props(wv@, closing@);
            }
            let n = wv.len();
            let head = crate::text::slice_range(&wv, 0, p);
            let tail = crate::text::slice_range(&wv, p, n);
            let mut out = string_of(&head);
            out.append(action_xml);
            let t = string_of(&tail);
            out.append(t.as_str());
            out
        },
        None => {
            let mut out = owned("<?xml version=\"1.0\" encoding=\"UTF-8\"?>\n<actions>\n");
            out.append(action_xml);
            out.append("</actions>\n");
            out
        },
    }
}

} // verus!

verus! {

// ---------------------------------------------------------------------------
// Re-running the upsert
// ---------------------------------------------------------------------------

/// A tag pattern: it starts with `<` and holds no other `<`, so no
/// occurrence of it can run into text that starts with `<`.
pub open spec fn is_tag(p: Seq<char>) -> bool {
    &&& p.len() > 0
    &&& p[0] == '<'
    &&& forall|k: int| 0 < k < p.len() ==> #[trigger] p[k] != '<'
}

proof fn lemma_find_is(s: Seq<char>, p: Seq<char>, i: int, k: int)
    requires
        0 <= i <= k,
        crate::text::matches_at(s, p, k),
        forall|j: int| i <= j < k ==> !crate::text::matches_at(s, p, j),
    ensures
        find_from(s, p, i) == Some(k),
{
    crate::text::lemma_find_from_props(s, p, i);
}

proof fn lemma_find_none(s: Seq<char>, p: Seq<char>, i: int)
    requires
        0 <= i,
        forall|j: int| i <= j ==> !crate::text::matches_at(s, p, j),
    ensures
        find_from(s, p, i) is None,
{
    crate::text::lemma_find_from_props(s, p, i);
}

proof fn lemma_matches_left(x: Seq<char>, y: Seq<char>, p: Seq<char>, j: int)
    requires
        0 <= j,
        j + p.len() <= x.len(),
    ensures
        crate::text::matches_at(x + y, p, j) == crate::text::matches_at(x, p, j),
{
    assert((x + y).subrange(j, j + p.len()) =~= x.subrange(j, j + p.len()));
}

proof fn lemma_matches_right(x: Seq<char>, y: Seq<char>, p: Seq<char>, j: int)
    requires
        j >= x.len(),
    ensures
        crate::text::matches_at(x + y, p, j) == crate::text::matches_at(y, p, j - x.len()),
{
    if j + p.len() <= x.len() + y.len() {
        assert((x + y).subrange(j, j + p.len()) =~= y.subrange(j - x.len(), j - x.len() + p.len()));
    }
}

proof fn lemma_no_straddle(x: Seq<char>, y: Seq<char>, p: Seq<char>, j: int)
    requires
        is_tag(p),
        y.len() > 0,
        y[0] == '<',
        j < x.len() < j + p.len(),
    ensures
        !crate::text::matches_at(x + y, p, j),
{
    if crate::text::matches_at(x + y, p, j) {
        let k = x.len() - j;
        assert((x + y).subrange(j, j + p.len())[k] == (x + y)[x.len() as int]);
        assert(p[k] == '<');
    }
}

/// Where a tag is first found from `i` in `x + y`, with `y` starting with
/// `<`: in `x` if it is there, else in `y`.
proof fn lemma_find_concat(x: Seq<char>, y: Seq<char>, p: Seq<char>, i: int)
    requires
        0 <= i <= x.len(),
        is_tag(p),
        y.len() > 0,
        y[0] == '<',
    ensures
        find_from(x + y, p, i) == match find_from(x, p, i) {
            Some(k) => Some(k),
            None => match find_spec(y, p) {
                Some(k) => Some(k + x.len()),
                None => None::<int>,
            },
        },
{
    crate::text::lemma_find_from_props(x, p, i);
    match find_from(x, p, i) {
        Some(k) => {
            lemma_matches_left(x, y, p, k);
            assert forall|j: int| i <= j < k implies !crate::text::matches_at(x + y, p, j) by {
                lemma_matches_left(x, y, p, j);
            }
            lemma_find_is(x + y, p, i, k);
        },
        None => {
            assert forall|j: int| i <= j < x.len() implies !crate::text::matches_at(x + y, p, j) by {
                if j + p.len() <= x.len() {
                    lemma_matches_left(x, y, p, j);
                } else {
                    lemma_no_straddle(x, y, p, j);
                }
            }
            crate::text::lemma_find_from_props(y, p, 0);
            match find_spec(y, p) {
                Some(k) => {
                    lemma_matches_right(x, y, p, k + x.len());
                    assert forall|j: int| i <= j < k + x.len() implies !crate::text::matches_at(x + y, p, j) by {
                        if j >= x.len() {
                            lemma_matches_right(x, y, p, j);
                        }
                    }
                    lemma_find_is(x + y, p, i, k + x.len());
                },
                None => {
                    assert forall|j: int| i <= j implies !crate::text::matches_at(x + y, p, j) by {
                        if j >= x.len() {
                            lemma_matches_right(x, y, p, j);
                        }
                    }
                    lemma_find_none(x + y, p, i);
                },
            }
        },
    }
}


proof fn lemma_find_shift(x: Seq<char>, y: Seq<char>, p: Seq<char>, i: int)
    requires
        i >= x.len(),
    ensures
        find_from(x + y, p, i) == match find_from(y, p, i - x.len()) {
            Some(k) => Some(k + x.len()),
            None => None::<int>,
        },
{
    crate::text::lemma_find_from_props(y, p, i - x.len());
    match find_from(y, p, i - x.len()) {
        Some(k) => {
            lemma_matches_right(x, y, p, k + x.len());
            assert forall|j: int| i <= j < k + x.len() implies !crate::text::matches_at(x + y, p, j) by {
                lemma_matches_right(x, y, p, j);
            }
            lemma_find_is(x + y, p, i, k + x.len());
        },
        None => {
            assert forall|j: int| i <= j implies !crate::text::matches_at(x + y, p, j) by {
                lemma_matches_right(x, y, p, j);
            }
            lemma_find_none(x + y, p, i);
        },
    }
}

/// Every `<action>` the block walk meets is closed by a later `</action>`.
pub open spec fn closed_blocks(r: Seq<char>, marker: Seq<char>) -> bool
    decreases r.len(),
{
    match find_spec(r, "<action>"@) {
        None => true,
        Some(start) => match find_from(r, "</action>"@, start) {
            None => false,
            Some(close) => {
                let end = close + 9;
                if start < 0 || end <= 0 || end > r.len() {
                    false
                } else if contains_spec(r.subrange(start, end), marker) {
                    closed_blocks(drop_newline(r.subrange(end, r.len() as int)), marker)
                } else {
                    closed_blocks(r.subrange(end, r.len() as int), marker)
                }
            },
        },
    }
}

proof fn lemma_tags()
    ensures
        is_tag("<action>"@),
        is_tag("</action>"@),
        "<action>"@.len() == 8,
        "</action>"@.len() == 9,
{
    reveal_strlit("<action>");
    reveal_strlit("</action>");
}

/// Removing blocks from `r + t`, where every block of `r` closes inside `r`
/// and `t` starts with `<`, removes them from each part separately.
proof fn lemma_remove_concat(r: Seq<char>, t: Seq<char>, marker: Seq<char>)
    requires
        closed_blocks(r, marker),
        t.len() > 0,
        t[0] == '<',
    ensures
        remove_blocks(r + t, marker) == (remove_blocks(r, marker).0 + remove_blocks(t, marker).0, remove_blocks(
            r,
            marker,
        ).1 || remove_blocks(t, marker).1),
    decreases r.len(),
{
    let open = "<action>"@;
    let close_tag = "</action>"@;
    lemma_tags();
    lemma_find_concat(r, t, open, 0);
    crate::text::lemma_find_from_props(r, open, 0);
    match find_spec(r, open) {
        None => {
            assert(remove_blocks(r, marker) == (r, false));
            crate::text::lemma_find_from_props(t, open, 0);
            match find_spec(t, open) {
                None => {},
                Some(st) => {
                    let start = st + r.len();
                    lemma_find_shift(r, t, close_tag, start);
                    crate::text::lemma_find_from_props(t, close_tag, st);
                    match find_from(t, close_tag, st) {
                        None => {},
                        Some(ct) => {
                            let end = ct + r.len() + 9;
                            assert((r + t).subrange(start, end) =~= t.subrange(st, ct + 9));
                            assert((r + t).subrange(end, (r + t).len() as int) =~= t.subrange(ct + 9, t.len() as int));
                            assert((r + t).subrange(0, start) =~= r + t.subrange(0, st));
                            assert((r + t).subrange(0, end) =~= r + t.subrange(0, ct + 9));
                            let rt = remove_blocks(t, marker);
                            if contains_spec(t.subrange(st, ct + 9), marker) {
                                let n = remove_blocks(drop_newline(t.subrange(ct + 9, t.len() as int)), marker);
                                assert(rt == (t.subrange(0, st) + n.0, true));
                                assert(r + (t.subrange(0, st) + n.0) =~= r + t.subrange(0, st) + n.0);
                            } else {
                                let n = remove_blocks(t.subrange(ct + 9, t.len() as int), marker);
                                assert(rt == (t.subrange(0, ct + 9) + n.0, n.1));
                                assert(r + (t.subrange(0, ct + 9) + n.0) =~= r + t.subrange(0, ct + 9) + n.0);
                            }
                        },
                    }
                },
            }
        },
        Some(start) => {
            crate::text::lemma_find_from_props(r, close_tag, start);
            let close = find_from(r, close_tag, start)->0;
            let end = close + 9;
            lemma_find_concat(r, t, close_tag, start);
            let rest_r = r.subrange(end, r.len() as int);
            assert((r + t).subrange(start, end) =~= r.subrange(start, end));
            assert((r + t).subrange(end, (r + t).len() as int) =~= rest_r + t);
            assert((r + t).subrange(0, start) =~= r.subrange(0, start));
            assert((r + t).subrange(0, end) =~= r.subrange(0, end));
            if contains_spec(r.subrange(start, end), marker) {
                let next_r = drop_newline(rest_r);
                if rest_r.len() > 0 {
                    assert(drop_newline(rest_r + t) =~= next_r + t);
                } else {
                    assert(rest_r + t =~= t);
                    assert(next_r =~= Seq::<char>::empty());
                    assert(next_r + t =~= t);
                }
                lemma_remove_concat(next_r, t, marker);
                let a = remove_blocks(next_r, marker);
                let b = remove_blocks(t, marker);
                assert(r.subrange(0, start) + (a.0 + b.0) =~= r.subrange(0, start) + a.0 + b.0);
            } else {
                lemma_remove_concat(rest_r, t, marker);
                let a = remove_blocks(rest_r, marker);
                let b = remove_blocks(t, marker);
                assert(r.subrange(0, end) + (a.0 + b.0) =~= r.subrange(0, end) + a.0 + b.0);
            }
        },
    }
}

/// A walk that removes no block gives its text back.
proof fn lemma_remove_nothing(s: Seq<char>, marker: Seq<char>)
    requires
        !remove_blocks(s, marker).1,
    ensures
        remove_blocks(s, marker).0 == s,
    decreases s.len(),
{
    match find_spec(s, "<action>"@) {
        None => {},
        Some(start) => match find_from(s, "</action>"@, start) {
            None => {},
            Some(close) => {
                let end = close + 9;
                if start < 0 || end <= 0 || end > s.len() {
                } else if contains_spec(s.subrange(start, end), marker) {
                } else {
                    lemma_remove_nothing(s.subrange(end, s.len() as int), marker);
                    assert(s.subrange(0, end) + s.subrange(end, s.len() as int) =~= s);
                }
            },
        },
    }
}

/// An action block as the upsert writes it: `<action>`, a body with its
/// first `</action>` at the end, a newline, and our id inside the block.
pub open spec fn is_action_block(action_xml: Seq<char>, marker: Seq<char>) -> bool {
    &&& action_xml.len() >= 18
    &&& crate::text::starts_with_spec(action_xml, "<action>"@)
    &&& find_spec(action_xml, "</action>"@) == Some(action_xml.len() - 10)
    &&& action_xml.last() == '\n'
    &&& contains_spec(action_xml.subrange(0, action_xml.len() - 1), marker)
}

/// The block walk over our own block followed by text starting with `<`
/// drops the block and its newline and walks on.
proof fn lemma_remove_own_block(a: Seq<char>, y: Seq<char>, marker: Seq<char>)
    requires
        is_action_block(a, marker),
        y.len() > 0,
        y[0] == '<',
    ensures
        remove_blocks(a + y, marker) == (remove_blocks(y, marker).0, true),
{
    lemma_tags();
    let open = "<action>"@;
    let close_tag = "</action>"@;
    assert(a.subrange(0, 8) == open);
    lemma_matches_left(a, y, open, 0);
    lemma_find_is(a + y, open, 0, 0);
    lemma_find_concat(a, y, close_tag, 0);
    let end = a.len() - 1;
    assert((a + y).subrange(0, end) =~= a.subrange(0, end));
    assert((a + y).subrange(end, (a + y).len() as int) =~= seq!['\n'] + y);
    assert(drop_newline(seq!['\n'] + y) =~= y);
    assert((a + y).subrange(0, 0) + remove_blocks(y, marker).0 =~= remove_blocks(y, marker).0);
}

/// The header of a fresh `uca.xml`.
pub open spec fn fresh_header() -> Seq<char> {
    "<?xml version=\"1.0\" encoding=\"UTF-8\"?>\n<actions>\n"@
}

/// The closing of a fresh `uca.xml`.
pub open spec fn fresh_footer() -> Seq<char> {
    "</actions>\n"@
}

proof fn lemma_fresh_parts_have_no_block()
    ensures
        find_spec(fresh_header(), "<action>"@) is None,
        find_spec(fresh_footer(), "<action>"@) is None,
        fresh_header().len() == 49,
        fresh_footer().len() == 11,
        fresh_footer()[0] == '<',
        fresh_footer()[1] == '/',
        crate::text::matches_at(fresh_footer(), "</actions>"@, 0),
{
    reveal_strlit("<?xml version=\"1.0\" encoding=\"UTF-8\"?>\n<actions>\n");
    reveal_strlit("</actions>\n");
    reveal_strlit("</actions>");
    reveal_strlit("<action>");
    let h = fresh_header();
    let f = fresh_footer();
    let open = "<action>"@;
    assert forall|j: int| 0 <= j implies !crate::text::matches_at(h, open, j) by {
        if crate::text::matches_at(h, open, j) {
            assert(h.subrange(j, j + 8)[0] == h[j]);
            assert(h.subrange(j, j + 8)[1] == h[j + 1]);
            assert(h.subrange(j, j + 8)[7] == h[j + 7]);
            assert(h[j] == '<');
            if j == 0 {
                assert(h[1] == '?');
            } else if j == 39 {
                assert(h[46] == 's');
            } else {
                assert(h[j] != '<');
            }
        }
    }
    lemma_find_none(h, open, 0);
    assert forall|j: int| 0 <= j implies !crate::text::matches_at(f, open, j) by {
        if crate::text::matches_at(f, open, j) {
            assert(f.subrange(j, j + 8)[0] == f[j]);
            assert(f.subrange(j, j + 8)[1] == f[j + 1]);
        }
    }
    lemma_find_none(f, open, 0);
    assert(f.subrange(0, 10) =~= "</actions>"@);
}

/// A `uca.xml` the upsert can safely run on again: once our own old block
/// is taken out, no block carries our id and every `<action>` before the
/// last `</actions>` is closed by an `</action>` before it.
pub open spec fn uca_well_formed(content: Seq<char>, marker: Seq<char>) -> bool {
    let without = remove_blocks(content, marker).0;
    &&& !remove_blocks(without, marker).1
    &&& match rfind_spec(without, "</actions>"@) {
        Some(p) => closed_blocks(without.subrange(0, p), marker),
        None => true,
    }
}

/// Installing the right-click action again changes nothing: upserting the
/// same action a second time gives the same file, and that file holds our
/// block (taking our blocks out removes something) and only the one
/// (what is left holds none).
pub proof fn lemma_upsert_twice(content: Seq<char>, unique_id: Seq<char>, action_xml: Seq<char>)
    requires
        uca_well_formed(content, id_marker(unique_id)),
        is_action_block(action_xml, id_marker(unique_id)),
    ensures
        upsert_spec(upsert_spec(content, unique_id, action_xml), unique_id, action_xml) == upsert_spec(
            content,
            unique_id,
            action_xml,
        ),
        remove_blocks(upsert_spec(content, unique_id, action_xml), id_marker(unique_id)).1,
        !remove_blocks(
            remove_blocks(upsert_spec(content, unique_id, action_xml), id_marker(unique_id)).0,
            id_marker(unique_id),
        ).1,
{
    let m = id_marker(unique_id);
    let a = action_xml;
    let w = remove_blocks(content, m).0;
    let u = upsert_spec(content, unique_id, a);
    lemma_tags();
    reveal_strlit("</actions>");
    assert(a[0] == '<') by {
        assert(a.subrange(0, 8) == "<action>"@);
        assert(a.subrange(0, 8)[0] == a[0]);
    }
    match rfind_spec(w, "</actions>"@) {
        Some(p) => {
            crate::text::lemma_rfind_props(w, "</actions>"@);
            let x = w.subrange(0, p);
            let y = w.subrange(p, w.len() as int);
            assert(y[0] == '<') by {
                assert(w.subrange(p, p + 10)[0] == w[p]);
            }
            assert(x + y =~= w);
            lemma_remove_concat(x, y, m);
            lemma_remove_nothing(x, m);
            lemma_remove_nothing(y, m);
            assert(u == x + a + y);
            assert(x + a + y =~= x + (a + y));
            lemma_remove_concat(x, a + y, m);
            lemma_remove_own_block(a, y, m);
            assert(remove_blocks(u, m) == (w, true));
        },
        None => {
            let h = fresh_header();
            let f = fresh_footer();
            assert(u == h + a + f);
            lemma_fresh_parts_have_no_block();
            assert(h + a + f =~= h + (a + f));
            lemma_remove_concat(h, a + f, m);
            lemma_remove_own_block(a, f, m);
            lemma_remove_concat(h, f, m);
            let hf = h + f;
            assert(remove_blocks(u, m) == (hf, true));
            assert(remove_blocks(hf, m) == (hf, false));
            let pat = "</actions>"@;
            lemma_matches_right(h, f, pat, 49);
            lemma_matches_right(h, f, pat, 50);
            assert(!crate::text::matches_at(f, pat, 1)) by {
                if crate::text::matches_at(f, pat, 1) {
                    assert(f.subrange(1, 11)[0] == f[1]);
                }
            }
            assert(pat.len() == 10);
            assert(hf.len() == 60);
            assert(crate::text::matches_at(hf, pat, 49));
            assert(!crate::text::matches_at(hf, pat, 50));
            assert(crate::text::rfind_upto(hf, pat, 49) == Some(49int));
            assert(crate::text::rfind_upto(hf, pat, 50) == Some(49int));
            assert(rfind_spec(hf, pat) == Some(49int));
            assert(hf.subrange(0, 49) =~= h);
            assert(hf.subrange(49, hf.len() as int) =~= f);
        },
    }
}

} // verus!
