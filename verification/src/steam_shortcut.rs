//! Steam non-Steam-game shortcuts: the wrapper `.desktop` file handed to
//! Steam's importer, its `steam://` URL, and reading which slugs Steam's
//! binary `shortcuts.vdf` already holds.
use vstd::prelude::*;

use crate::config::{Config, Profile};
use crate::text::{
    chars_of, concat, decimal, eq_ignore_ascii_case, eq_ignore_ascii_case_spec, owned, replace_all,
    replace_spec, split_whitespace, split_whitespace_spec, string_of, trim_matches, trim_matches_spec, views,
};

verus! {

// ---------------------------------------------------------------------------
// The wrapper file and its URL
// ---------------------------------------------------------------------------

/// The `Exec=` value: the quoted binary path, each extra flag, then the slug,
/// separated by single spaces.
pub open spec fn exec_line(exe: Seq<char>, flags: Seq<Seq<char>>, slug: Seq<char>) -> Seq<char>
    decreases flags.len(),
{
    if flags.len() == 0 {
        seq!['"'] + exe + seq!['"', ' '] + slug
    } else {
        let head = exec_line(exe, flags.drop_last(), seq![]);
        head.subrange(0, head.len() - 1) + seq![' '] + flags.last() + seq![' '] + slug
    }
}

/// `"<exe>"` followed by ` <flag>` for each flag.
pub open spec fn exec_prefix(exe: Seq<char>, flags: Seq<Seq<char>>) -> Seq<char>
    decreases flags.len(),
{
    if flags.len() == 0 {
        seq!['"'] + exe + seq!['"']
    } else {
        exec_prefix(exe, flags.drop_last()) + seq![' '] + flags.last()
    }
}

/// The wrapper `.desktop` file Steam imports a shortcut from.
pub open spec fn wrapper_contents_spec(name: Seq<char>, exe: Seq<char>, flags: Seq<Seq<char>>, slug: Seq<char>) -> Seq<char> {
    "[Desktop Entry]\nType=Application\nName="@ + replace_spec(name, "\n"@, " "@) + "\nExec="@ + exec_prefix(exe, flags)
        + seq![' '] + slug + "\n"@
}

/// The wrapper file's contents: `Name=` (newlines made spaces) and `Exec=`
/// (quoted binary, extra flags as separate tokens, then the slug).
pub fn wrapper_contents(name: &str, exe: &str, extra_flags: &[&str], slug: &str) -> (r: String)
    ensures
        r@ == wrapper_contents_spec(name@, exe@, crate::launch::strs(extra_flags@), slug@),
{
    proof {
        reveal_strlit("\"");
        reveal_strlit(" ");
        reveal_strlit("\n");
    }
    let mut exec = crate::text::concat3("\"", exe, "\"");
    assert(exec@ =~= exec_prefix(exe@, crate::launch::strs(extra_flags@).take(0)));
    let mut i: usize = 0;
    while i < extra_flags.len()
        invariant
            i <= extra_flags@.len(),
            exec@ == exec_prefix(exe@, crate::launch::strs(extra_flags@).take(i as int)),
        decreases extra_flags@.len() - i,
    {
        proof {
            reveal_strlit(" ");
        }
        let ghost fs = crate::launch::strs(extra_flags@);
        assert(fs.take(i + 1).drop_last() == fs.take(i as int));
        exec.append(" ");
        exec.append(extra_flags[i]);
        assert(exec@ =~= exec_prefix(exe@, fs.take(i + 1)));
        i = i + 1;
    }
    assert(crate::launch::strs(extra_flags@).take(extra_flags@.len() as int) == crate::launch::strs(extra_flags@));
    exec.append(" ");
    exec.append(slug);
    let nv = chars_of(name);
    let nl: Vec<char> = vec!['\n'];
    let sp: Vec<char> = vec![' '];
    assert(nl@ =~= "\n"@);
    assert(sp@ =~= " "@);
    let clean = replace_all(&nv, &nl, &sp);
    let clean_s = string_of(&clean);
    let mut out = owned("[Desktop Entry]\nType=Application\nName=");
    out.append(clean_s.as_str());
    out.append("\nExec=");
    out.append(exec.as_str());
    out.append("\n");
    assert(out@ =~= wrapper_contents_spec(name@, exe@, crate::launch::strs(extra_flags@), slug@));
    out
}

/// Letters, digits and `-_.~`: the bytes a URL needs no escape for.
pub open spec fn is_unreserved(b: u8) -> bool {
    (48 <= b <= 57) || (65 <= b <= 90) || (97 <= b <= 122) || b == 45 || b == 95 || b == 46 || b == 126
}

/// Uppercase hexadecimal digit.
pub open spec fn hex_digit(n: u8) -> char {
    if n < 10 {
        ((n + 48) as u32) as char
    } else {
        ((n + 55) as u32) as char
    }
}

/// One byte, percent-encoded unless unreserved.
pub open spec fn encode_byte(b: u8) -> Seq<char> {
    if is_unreserved(b) {
        seq![(b as u32) as char]
    } else {
        seq!['%', hex_digit(b / 16), hex_digit(b % 16)]
    }
}

pub open spec fn encode_bytes(bs: Seq<u8>) -> Seq<char>
    decreases bs.len(),
{
    if bs.len() == 0 {
        Seq::empty()
    } else {
        encode_bytes(bs.drop_last()) + encode_byte(bs.last())
    }
}

fn hex_char(n: u8) -> (c: char)
    requires
        n < 16,
    ensures
        c == hex_digit(n),
{
    if n < 10 {
        crate::text::char_from_ascii_code((n + 48) as u32)
    } else {
        crate::text::char_from_ascii_code((n + 55) as u32)
    }
}

/// Percent-encodes every byte of the path's UTF-8 form that is not a
/// letter, digit or one of `-_.~` (`/` included).
pub fn percent_encode_path(path: &str) -> (r: String)
    ensures
        r@ == encode_bytes(vstd::utf8::encode_utf8(path@)),
{
    let bytes = path.as_bytes();
    let mut out: Vec<char> = Vec::new();
    let mut i: usize = 0;
    while i < bytes.len()
        invariant
            i <= bytes@.len(),
            bytes@ == vstd::utf8::encode_utf8(path@),
            out@ == encode_bytes(bytes@.take(i as int)),
        decreases bytes@.len() - i,
    {
        let b = bytes[i];
        assert(bytes@.take(i + 1).drop_last() == bytes@.take(i as int));
        let ghost before = out@;
        if (48 <= b && b <= 57) || (65 <= b && b <= 90) || (97 <= b && b <= 122) || b == 45 || b == 95 || b == 46 || b == 126 {
            out.push(crate::text::char_from_ascii_code(b as u32));
        } else {
            out.push('%');
            out.push(hex_char(b / 16));
            out.push(hex_char(b % 16));
        }
        assert(out@ =~= before + encode_byte(b));
        i = i + 1;
    }
    assert(bytes@.take(bytes@.len() as int) == bytes@);
    string_of(&out)
}

/// `steam://addnonsteamgame/` followed by the encoded wrapper path.
pub fn steam_url(wrapper_path: &str) -> (r: String)
    ensures
        r@ == "steam://addnonsteamgame/"@ + encode_bytes(vstd::utf8::encode_utf8(wrapper_path@)),
{
    let enc = percent_encode_path(wrapper_path);
    concat("steam://addnonsteamgame/", enc.as_str())
}

/// The name of `slug`'s wrapper file.
pub fn wrapper_file_name(slug: &str) -> (r: String)
    ensures
        r@ == slug@ + ".desktop"@,
{
    concat(slug, ".desktop")
}

/// The flags baked into a shortcut: the profile's own `-f`/`-w`/`-b` when
/// asked for, else none.
pub fn shortcut_flags(cfg: &Config, profile: &Profile, with_gamescope_flags: bool) -> (r: Vec<&'static str>)
    ensures
        with_gamescope_flags ==> crate::launch::strs(r@) == crate::launch::cli_flags_spec(
            match profile.defaults.gamescope {
                Some(g) => g,
                None => cfg.defaults.gamescope,
            },
            crate::config::merge_spec(cfg.defaults.gamescope_settings, profile.defaults.gamescope_settings).borderless,
        ),
        !with_gamescope_flags ==> r@.len() == 0,
{
    if with_gamescope_flags {
        let e = cfg.effective(Some(profile));
        crate::launch::iprolaunch_cli_flags_for(&e)
    } else {
        Vec::new()
    }
}

// ---------------------------------------------------------------------------
// Binary VDF
// ---------------------------------------------------------------------------

/// Name for what `String::from_utf8_lossy` makes of a byte sequence.
pub uninterp spec fn spec_utf8_lossy(bytes: Seq<u8>) -> Seq<char>;

/// std's `String::from_utf8_lossy`, owned; the result is named by
/// `spec_utf8_lossy`.
#[verifier::external_body]
pub(crate) fn utf8_lossy(bytes: &[u8]) -> (r: String)
    ensures
        r@ == spec_utf8_lossy(bytes@),
{
    String::from_utf8_lossy(bytes).into_owned()
}

/// One value of Steam's binary VDF.
#[derive(Debug)]
pub enum VdfValue {
    Str(String),
    /// Only its fixed 4-byte width matters.
    Int,
    Obj(Vec<(String, VdfValue)>),
}

/// A VDF value as plain values.
pub enum VdfSpec {
    Str(Seq<char>),
    Int,
    Obj(Seq<(Seq<char>, VdfSpec)>),
}

pub open spec fn vdf_view(v: VdfValue) -> VdfSpec
    decreases v,
{
    match v {
        VdfValue::Str(s) => VdfSpec::Str(s@),
        VdfValue::Int => VdfSpec::Int,
        VdfValue::Obj(es) => VdfSpec::Obj(entries_view(es@)),
    }
}

pub open spec fn entries_view(es: Seq<(String, VdfValue)>) -> Seq<(Seq<char>, VdfSpec)>
    decreases es,
{
    if es.len() == 0 {
        Seq::empty()
    } else {
        entries_view(es.drop_last()).push((es.last().0@, vdf_view(es.last().1)))
    }
}

/// The first NUL at or after `p`.
pub open spec fn nul_from(bytes: Seq<u8>, p: int) -> Option<int>
    decreases bytes.len() - p,
{
    if p < 0 || p >= bytes.len() {
        None
    } else if bytes[p] == 0 {
        Some(p)
    } else {
        nul_from(bytes, p + 1)
    }
}

/// The NUL-terminated string at `p` and the position after its NUL.
pub open spec fn cstr_at(bytes: Seq<u8>, p: int) -> Option<(Seq<char>, int)> {
    match nul_from(bytes, p) {
        Some(z) => Some((spec_utf8_lossy(bytes.subrange(p, z)), z + 1)),
        None => None,
    }
}

proof fn lemma_nul_from(bytes: Seq<u8>, p: int)
    requires
        0 <= p,
    ensures
        match nul_from(bytes, p) {
            Some(z) => p <= z < bytes.len() && bytes[z] == 0 && forall|k: int| p <= k < z ==> bytes[k] != 0,
            None => forall|k: int| p <= k < bytes.len() ==> bytes[k] != 0,
        },
    decreases bytes.len() - p,
{
    if p < bytes.len() && bytes[p] != 0 {
        lemma_nul_from(bytes, p + 1);
    }
}

/// The entries of the VDF object starting at `pos`, and the position after
/// it: entries are read until a closing `0x08` (consumed), the end of the
/// bytes, or anything malformed (which ends the object early).
pub open spec fn parse_entries(bytes: Seq<u8>, pos: int) -> (Seq<(Seq<char>, VdfSpec)>, int)
    decreases bytes.len() - pos,
{
    if pos < 0 || pos >= bytes.len() {
        (Seq::empty(), pos)
    } else {
        let tag = bytes[pos];
        if tag == 8 {
            (Seq::empty(), pos + 1)
        } else {
            match cstr_at(bytes, pos + 1) {
                None => (Seq::empty(), bytes.len() as int),
                Some((key, p1)) => if p1 <= pos || p1 > bytes.len() {
                    (Seq::empty(), pos)
                } else if tag == 0 {
                    let inner = parse_entries(bytes, p1);
                    if inner.1 <= pos || inner.1 > bytes.len() {
                        (Seq::empty(), pos)
                    } else {
                        let rest = parse_entries(bytes, inner.1);
                        (seq![(key, VdfSpec::Obj(inner.0))] + rest.0, rest.1)
                    }
                } else if tag == 1 {
                    match cstr_at(bytes, p1) {
                        None => (Seq::empty(), bytes.len() as int),
                        Some((s, p2)) => if p2 <= pos || p2 > bytes.len() {
                            (Seq::empty(), pos)
                        } else {
                            let rest = parse_entries(bytes, p2);
                            (seq![(key, VdfSpec::Str(s))] + rest.0, rest.1)
                        },
                    }
                } else if tag == 2 {
                    if p1 + 4 > bytes.len() {
                        (Seq::empty(), p1)
                    } else {
                        let rest = parse_entries(bytes, p1 + 4);
                        (seq![(key, VdfSpec::Int)] + rest.0, rest.1)
                    }
                } else {
                    (Seq::empty(), p1)
                }
            }
        }
    }
}

/// Reads the NUL-terminated string at `*pos`, leaving `*pos` after its NUL;
/// with no NUL left, leaves `*pos` at the end and gives nothing.
pub fn read_cstr(bytes: &[u8], pos: &mut usize) -> (r: Option<String>)
    requires
        *old(pos) <= bytes@.len(),
    ensures
        match cstr_at(bytes@, *old(pos) as int) {
            Some((s, p)) => r matches Some(x) && x@ == s && *final(pos) == p,
            None => r is None && *final(pos) == bytes@.len(),
        },
{
    let start = *pos;
    proof {
        lemma_nul_from(bytes@, start as int);
    }
    while *pos < bytes.len() && bytes[*pos] != 0
        invariant
            start <= *pos <= bytes@.len(),
            forall|k: int| start <= k < *pos ==> bytes@[k] != 0,
            nul_from(bytes@, start as int) == nul_from(bytes@, *pos as int),
        decreases bytes@.len() - *pos,
    {
        *pos = *pos + 1;
    }
    if *pos >= bytes.len() {
        return None;
    }
    let mut piece: Vec<u8> = Vec::new();
    let mut k: usize = start;
    while k < *pos
        invariant
            start <= k <= *pos,
            *pos < bytes@.len(),
            piece@ == bytes@.subrange(start as int, k as int),
        decreases *pos - k,
    {
        piece.push(bytes[k]);
        assert(piece@ =~= bytes@.subrange(start as int, k + 1));
        k = k + 1;
    }
    let s = utf8_lossy(&piece);
    *pos = *pos + 1;
    Some(s)
}

proof fn lemma_parse_progress(bytes: Seq<u8>, pos: int)
    requires
        0 <= pos,
    ensures
        parse_entries(bytes, pos).1 >= pos,
        pos < bytes.len() ==> parse_entries(bytes, pos).1 > pos,
        parse_entries(bytes, pos).1 <= bytes.len() || pos > bytes.len(),
    decreases bytes.len() - pos,
{
    if pos < bytes.len() {
        lemma_nul_from(bytes, pos + 1);
        match cstr_at(bytes, pos + 1) {
            None => {},
            Some((key, p1)) => {
                let tag = bytes[pos];
                if tag == 0 && p1 > pos {
                    lemma_parse_progress(bytes, p1);
                    let inner = parse_entries(bytes, p1);
                    if inner.1 > pos {
                        lemma_parse_progress(bytes, inner.1);
                    }
                } else if tag == 1 && p1 > pos {
                    lemma_nul_from(bytes, p1);
                    match cstr_at(bytes, p1) {
                        None => {},
                        Some((s, p2)) => {
                            if p2 > pos {
                                lemma_parse_progress(bytes, p2);
                            }
                        },
                    }
                } else if tag == 2 && p1 > pos && p1 + 4 <= bytes.len() {
                    lemma_parse_progress(bytes, p1 + 4);
                }
            },
        }
    }
}

/// Parses one VDF object starting at `*pos`, stopping at (and consuming)
/// its closing `0x08`, or at the end of the bytes; malformed input ends the
/// object early.
pub fn parse_object(bytes: &[u8], pos: &mut usize) -> (r: Vec<(String, VdfValue)>)
    requires
        *old(pos) <= bytes@.len(),
    ensures
        entries_view(r@) == parse_entries(bytes@, *old(pos) as int).0,
        *final(pos) as int == parse_entries(bytes@, *old(pos) as int).1,
        *old(pos) <= *final(pos) <= bytes@.len(),
    decreases bytes@.len() - *old(pos),
{
    let ghost p0 = *pos as int;
    let mut entries: Vec<(String, VdfValue)> = Vec::new();
    proof {
        lemma_parse_progress(bytes@, p0);
    }
    loop
        invariant
            p0 <= *pos <= bytes@.len(),
            p0 == *old(pos) as int,
            entries_view(entries@) + parse_entries(bytes@, *pos as int).0 == parse_entries(bytes@, p0).0,
            parse_entries(bytes@, *pos as int).1 == parse_entries(bytes@, p0).1,
        decreases bytes@.len() - *pos,
    {
        let ghost here = *pos as int;
        proof {
            lemma_parse_progress(bytes@, here);
        }
        if *pos >= bytes.len() {
            assert(entries_view(entries@) + Seq::empty() == entries_view(entries@));
            return entries;
        }
        let tag = bytes[*pos];
        *pos = *pos + 1;
        if tag == 8 {
            assert(entries_view(entries@) + Seq::empty() == entries_view(entries@));
            return entries;
        }
        proof {
            lemma_nul_from(bytes@, here + 1);
        }
        let key = match read_cstr(bytes, pos) {
            Some(k) => k,
            None => {
                assert(entries_view(entries@) + Seq::empty() == entries_view(entries@));
                return entries;
            },
        };
        let ghost p1 = *pos as int;
        let ghost before = entries@;
        if tag == 0 {
            let inner = parse_object(bytes, pos);
            let ghost iv = entries_view(inner@);
            let ghost kv = key@;
            let item = (key, VdfValue::Obj(inner));
            assert(vdf_view(item.1) == VdfSpec::Obj(iv));
            entries.push(item);
            assert(entries@.drop_last() =~= before);
            assert(entries@.last().0@ == kv);
            assert(entries_view(entries@) == entries_view(before).push((kv, VdfSpec::Obj(iv))));
            assert(entries_view(entries@) =~= entries_view(before) + seq![(kv, VdfSpec::Obj(iv))]);
        } else if tag == 1 {
            proof {
                lemma_nul_from(bytes@, p1);
            }
            let s = match read_cstr(bytes, pos) {
                Some(s) => s,
                None => {
                    assert(entries_view(entries@) + Seq::empty() == entries_view(entries@));
                    return entries;
                },
            };
            let ghost sv = s@;
            let ghost kv = key@;
            let item = (key, VdfValue::Str(s));
            assert(vdf_view(item.1) == VdfSpec::Str(sv));
            entries.push(item);
            assert(entries@.drop_last() =~= before);
            assert(entries@.last().0@ == kv);
            assert(entries_view(entries@) == entries_view(before).push((kv, VdfSpec::Str(sv))));
            assert(entries_view(entries@) =~= entries_view(before) + seq![(kv, VdfSpec::Str(sv))]);
        } else if tag == 2 {
            if bytes.len() - *pos < 4 {
                assert(entries_view(entries@) + Seq::empty() == entries_view(entries@));
                return entries;
            }
            *pos = *pos + 4;
            let ghost kv = key@;
            let item = (key, VdfValue::Int);
            assert(vdf_view(item.1) == VdfSpec::Int);
            entries.push(item);
            assert(entries@.drop_last() =~= before);
            assert(entries@.last().0@ == kv);
            assert(entries_view(entries@) == entries_view(before).push((kv, VdfSpec::Int)));
            assert(entries_view(entries@) =~= entries_view(before) + seq![(kv, VdfSpec::Int)]);
        } else {
            assert(entries_view(entries@) + Seq::empty() == entries_view(entries@));
            return entries;
        }
    }
}

/// The first entry from `i` on whose key equals `key`, ignoring ASCII case.
pub open spec fn first_key_from(es: Seq<(Seq<char>, VdfSpec)>, key: Seq<char>, i: int) -> Option<int>
    decreases es.len() - i,
{
    if i < 0 || i >= es.len() {
        None
    } else if eq_ignore_ascii_case_spec(es[i].0, key) {
        Some(i)
    } else {
        first_key_from(es, key, i + 1)
    }
}

/// The string under `key` (the first entry with that key, when it holds a
/// string).
pub open spec fn find_str_spec(es: Seq<(Seq<char>, VdfSpec)>, key: Seq<char>) -> Option<Seq<char>> {
    match first_key_from(es, key, 0) {
        Some(i) => match es[i].1 {
            VdfSpec::Str(s) => Some(s),
            _ => None,
        },
        None => None,
    }
}

/// The object under `key` (the first entry with that key, when it holds an
/// object).
pub open spec fn find_obj_spec(es: Seq<(Seq<char>, VdfSpec)>, key: Seq<char>) -> Option<Seq<(Seq<char>, VdfSpec)>> {
    match first_key_from(es, key, 0) {
        Some(i) => match es[i].1 {
            VdfSpec::Obj(o) => Some(o),
            _ => None,
        },
        None => None,
    }
}

proof fn lemma_entries_view_index(es: Seq<(String, VdfValue)>, i: int)
    requires
        0 <= i < es.len(),
    ensures
        entries_view(es).len() == es.len(),
        entries_view(es)[i] == (es[i].0@, vdf_view(es[i].1)),
    decreases es.len(),
{
    if i < es.len() - 1 {
        lemma_entries_view_index(es.drop_last(), i);
    } else {
        lemma_entries_view_len(es.drop_last());
    }
}

proof fn lemma_entries_view_len(es: Seq<(String, VdfValue)>)
    ensures
        entries_view(es).len() == es.len(),
    decreases es.len(),
{
    if es.len() > 0 {
        lemma_entries_view_len(es.drop_last());
    }
}

fn find_key(entries: &[(String, VdfValue)], key: &str) -> (r: Option<usize>)
    ensures
        match r {
            Some(i) => first_key_from(entries_view(entries@), key@, 0) == Some(i as int) && i < entries@.len(),
            None => first_key_from(entries_view(entries@), key@, 0) is None,
        },
{
    let ghost ev = entries_view(entries@);
    proof {
        lemma_entries_view_len(entries@);
    }
    let mut i: usize = 0;
    while i < entries.len()
        invariant
            i <= entries@.len(),
            ev == entries_view(entries@),
            ev.len() == entries@.len(),
            first_key_from(ev, key@, 0) == first_key_from(ev, key@, i as int),
        decreases entries@.len() - i,
    {
        proof {
            lemma_entries_view_index(entries@, i as int);
        }
        if eq_ignore_ascii_case(entries[i].0.as_str(), key) {
            return Some(i);
        }
        i = i + 1;
    }
    None
}

/// The string stored under `key`.
pub fn find_str(entries: &[(String, VdfValue)], key: &str) -> (r: Option<String>)
    ensures
        crate::config::opt_view(r) == find_str_spec(entries_view(entries@), key@),
{
    match find_key(entries, key) {
        Some(i) => {
            proof {
                lemma_entries_view_index(entries@, i as int);
            }
            match &entries[i].1 {
                VdfValue::Str(s) => Some(s.clone()),
                _ => None,
            }
        },
        None => None,
    }
}

/// The object stored under `key`.
pub fn find_obj<'a>(entries: &'a [(String, VdfValue)], key: &str) -> (r: Option<&'a Vec<(String, VdfValue)>>)
    ensures
        match r {
            Some(o) => find_obj_spec(entries_view(entries@), key@) == Some(entries_view(o@)),
            None => find_obj_spec(entries_view(entries@), key@) is None,
        },
{
    match find_key(entries, key) {
        Some(i) => {
            proof {
                lemma_entries_view_index(entries@, i as int);
            }
            match &entries[i].1 {
                VdfValue::Obj(o) => Some(o),
                _ => None,
            }
        },
        None => None,
    }
}

/// The slug a shortcut is for, when it is one of ours: its `exe` (quotes
/// stripped) has the file stem `iprolaunch`, and the slug is the last word
/// of its launch options with quotes stripped.
pub open spec fn matching_slug_spec(exe: Seq<char>, launch_options: Seq<char>) -> Option<Seq<char>> {
    let words = split_whitespace_spec(launch_options);
    if crate::prefix::spec_file_stem(trim_matches_spec(exe, '"')) == Some("iprolaunch"@) && words.len() > 0 {
        Some(trim_matches_spec(words.last(), '"'))
    } else {
        None
    }
}

/// Which slug a `shortcuts.vdf` entry with these `exe`/`LaunchOptions`
/// values is for, if it is one of ours.
pub fn matching_slug(exe: &str, launch_options: &str) -> (r: Option<String>)
    ensures
        crate::config::opt_view(r) == matching_slug_spec(exe@, launch_options@),
{
    let ev = chars_of(exe);
    let bare = trim_matches(&ev, '"');
    let bare_s = string_of(&bare);
    let stem = crate::prefix::file_stem(bare_s.as_str());
    match stem {
        Some(st) => {
            if !crate::text::str_eq(st.as_str(), "iprolaunch") {
                proof {
                    reveal_strlit("iprolaunch");
                }
                return None;
            }
        },
        None => {
            return None;
        },
    }
    proof {
        reveal_strlit("iprolaunch");
    }
    let lv = chars_of(launch_options);
    let words = split_whitespace(&lv);
    if words.len() == 0 {
        return None;
    }
    let last = trim_matches(&words[words.len() - 1], '"');
    Some(string_of(&last))
}

/// The slugs of our shortcuts among the entries of a `shortcuts` object, in
/// order (repeats included).
pub open spec fn shortcut_slugs(es: Seq<(Seq<char>, VdfSpec)>) -> Seq<Seq<char>>
    decreases es.len(),
{
    if es.len() == 0 {
        Seq::empty()
    } else {
        shortcut_slugs(es.drop_last()) + match es.last().1 {
            VdfSpec::Obj(entry) => match (find_str_spec(entry, "exe"@), find_str_spec(entry, "LaunchOptions"@)) {
                (Some(exe), Some(lo)) => match matching_slug_spec(exe, lo) {
                    Some(slug) => seq![slug],
                    None => Seq::empty(),
                },
                _ => Seq::empty(),
            },
            _ => Seq::empty(),
        }
    }
}

/// The slugs found in a `shortcuts.vdf`'s bytes.
pub open spec fn vdf_slugs(bytes: Seq<u8>) -> Seq<Seq<char>> {
    match find_obj_spec(parse_entries(bytes, 0).0, "shortcuts"@) {
        Some(sc) => shortcut_slugs(sc),
        None => Seq::empty(),
    }
}

fn contains_string(v: &Vec<String>, s: &str) -> (r: bool)
    ensures
        r == crate::launch::strings(v@).contains(s@),
{
    let mut i: usize = 0;
    while i < v.len()
        invariant
            i <= v@.len(),
            forall|j: int| 0 <= j < i ==> v@[j]@ != s@,
        decreases v@.len() - i,
    {
        if crate::text::str_eq(v[i].as_str(), s) {
            assert(crate::launch::strings(v@)[i as int] == s@);
            return true;
        }
        i = i + 1;
    }
    proof {
        if crate::launch::strings(v@).contains(s@) {
            let j = choose|j: int| 0 <= j < v@.len() && crate::launch::strings(v@)[j] == s@;
            assert(v@[j]@ == s@);
        }
    }
    false
}

/// Every slug already added to Steam according to one `shortcuts.vdf`'s
/// bytes, each once; garbage input gives none.
pub fn slugs_from_shortcuts_bytes(bytes: &[u8]) -> (r: Vec<String>)
    ensures
        crate::launch::strings(r@).to_set() == vdf_slugs(bytes@).to_set(),
        crate::launch::strings(r@).no_duplicates(),
{
    let mut found: Vec<String> = Vec::new();
    let mut pos: usize = 0;
    let root = parse_object(bytes, &mut pos);
    let shortcuts = match find_obj(&root, "shortcuts") {
        Some(sc) => sc,
        None => {
            assert(crate::launch::strings(found@).to_set() =~= vdf_slugs(bytes@).to_set());
            return found;
        },
    };
    let ghost sv = entries_view(shortcuts@);
    proof {
        lemma_entries_view_len(shortcuts@);
    }
    let mut i: usize = 0;
    while i < shortcuts.len()
        invariant
            i <= shortcuts@.len(),
            sv == entries_view(shortcuts@),
            sv.len() == shortcuts@.len(),
            crate::launch::strings(found@).to_set() == shortcut_slugs(sv.take(i as int)).to_set(),
            crate::launch::strings(found@).no_duplicates(),
        decreases shortcuts@.len() - i,
    {
        proof {
            lemma_entries_view_index(shortcuts@, i as int);
        }
        assert(sv.take(i + 1).drop_last() == sv.take(i as int));
        assert(sv.take(i + 1).last() == sv[i as int]);
        let ghost before = found@;
        let ghost got: Option<Seq<char>> = None;
        match &shortcuts[i].1 {
            VdfValue::Obj(entry) => {
                let exe = find_str(entry, "exe");
                let lo = find_str(entry, "LaunchOptions");
                match (exe, lo) {
                    (Some(e), Some(l)) => match matching_slug(e.as_str(), l.as_str()) {
                        Some(slug) => {
                            proof {
                                got = Some(slug@);
                            }
                            if !contains_string(&found, slug.as_str()) {
                                let ghost fs = crate::launch::strings(found@);
                                let ghost gv = slug@;
                                found.push(slug);
                                proof {
                                    let ns = crate::launch::strings(found@);
                                    assert(ns =~= fs.push(gv));
                                    assert forall|a: int, b: int| 0 <= a < b < ns.len() implies ns[a] != ns[b] by {
                                        if b == ns.len() - 1 {
                                            if ns[a] == ns[b] {
                                                assert(fs[a] == gv);
                                                assert(fs.contains(gv));
                                            }
                                        } else {
                                            assert(ns[a] == fs[a] && ns[b] == fs[b]);
                                        }
                                    }
                                }
                            }
                        },
                        None => {},
                    },
                    _ => {},
                }
            },
            _ => {},
        }
        proof {
            let add = match got {
                Some(g) => seq![g],
                None => Seq::<Seq<char>>::empty(),
            };
            assert(shortcut_slugs(sv.take(i + 1)) == shortcut_slugs(sv.take(i as int)) + add);
            assert(crate::launch::strings(found@).to_set() =~= (shortcut_slugs(sv.take(i as int)) + add).to_set()) by {
                assert forall|x: Seq<char>| #[trigger] crate::launch::strings(found@).to_set().contains(x)
                    <==> (shortcut_slugs(sv.take(i as int)) + add).to_set().contains(x) by {
                    let a = shortcut_slugs(sv.take(i as int));
                    if crate::launch::strings(found@).contains(x) {
                        let j = choose|j: int| 0 <= j < crate::launch::strings(found@).len() && crate::launch::strings(found@)[j] == x;
                        if j < before.len() {
                            assert(crate::launch::strings(before)[j] == x);
                            assert(crate::launch::strings(before).to_set().contains(x));
                            let k = choose|k: int| 0 <= k < a.len() && a[k] == x;
                            assert((a + add)[k] == x);
                        } else {
                            assert((a + add)[a.len() as int] == x);
                        }
                    }
                    if (a + add).contains(x) {
                        let k = choose|k: int| 0 <= k < (a + add).len() && (a + add)[k] == x;
                        if k < a.len() {
                            assert(a[k] == x);
                            assert(a.to_set().contains(x));
                            assert(crate::launch::strings(before).to_set().contains(x));
                            let j = choose|j: int| 0 <= j < crate::launch::strings(before).len() && crate::launch::strings(before)[j] == x;
                            assert(crate::launch::strings(found@)[j] == x);
                        } else {
                            if crate::launch::strings(found@).len() > before.len() {
                                assert(crate::launch::strings(found@)[before.len() as int] == x);
                            } else {
                                assert(crate::launch::strings(before).contains(x));
                            }
                        }
                    }
                }
            }
        }
        i = i + 1;
    }
    assert(sv.take(shortcuts@.len() as int) == sv);
    found
}

} // verus!
