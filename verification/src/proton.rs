//! Proton builds: reading Steam's manifests, ordering the builds found, and
//! where a build's own Wine lives.
use vstd::prelude::*;

use crate::config::{path_join, path_join_spec};
use crate::strmap::key_lt;
use crate::text::{
    chars_of, lines, lines_spec, owned, spec_to_lowercase, split_char, split_char_spec, string_of, strip_prefix,
    strip_prefix_spec, to_lowercase, trim, trim_matches, trim_matches_spec, trim_spec, views,
};

verus! {

/// One Proton build: the value stored and passed as `PROTONPATH`, and the
/// name shown.
#[derive(Debug, PartialEq, Eq)]
pub struct ProtonBuild {
    pub id: String,
    pub display_name: String,
}

impl Clone for ProtonBuild {
    fn clone(&self) -> (r: Self)
        ensures
            r == *self,
    {
        ProtonBuild { id: self.id.clone(), display_name: self.display_name.clone() }
    }
}

/// The value after a `"key"` at the start of a (trimmed) line, trimmed and
/// unquoted.
pub open spec fn keyed_value(line: Seq<char>, key: Seq<char>) -> Option<Seq<char>> {
    match strip_prefix_spec(trim_spec(line), key) {
        Some(rest) => Some(trim_matches_spec(trim_spec(rest), '"')),
        None => None,
    }
}

fn keyed_value_of(line: &[char], key: &[char]) -> (r: Option<Vec<char>>)
    ensures
        match r {
            Some(v) => keyed_value(line@, key@) == Some(v@),
            None => keyed_value(line@, key@) is None,
        },
{
    let t = trim(line);
    match strip_prefix(&t, key) {
        Some(rest) => {
            let rt = trim(&rest);
            Some(trim_matches(&rt, '"'))
        },
        None => None,
    }
}

/// The values of every `"path"` line, in order.
pub open spec fn library_paths_spec(ls: Seq<Seq<char>>) -> Seq<Seq<char>>
    decreases ls.len(),
{
    if ls.len() == 0 {
        Seq::empty()
    } else {
        library_paths_spec(ls.drop_last()) + match keyed_value(ls.last(), "\"path\""@) {
            Some(p) => seq![p],
            None => Seq::empty(),
        }
    }
}

/// Every library folder listed in a `libraryfolders.vdf` text.
pub fn library_paths_in(text: &str) -> (r: Vec<String>)
    ensures
        crate::launch::strings(r@) == library_paths_spec(lines_spec(text@)),
{
    let tv = chars_of(text);
    let ls = lines(&tv);
    let ghost lv = views(ls@);
    let key: Vec<char> = chars_of("\"path\"");
    let mut out: Vec<String> = Vec::new();
    let mut i: usize = 0;
    while i < ls.len()
        invariant
            i <= ls@.len(),
            lv == views(ls@),
            key@ == "\"path\""@,
            crate::launch::strings(out@) == library_paths_spec(lv.take(i as int)),
        decreases ls@.len() - i,
    {
        assert(lv.take(i + 1).drop_last() == lv.take(i as int));
        assert(lv.take(i + 1).last() == ls@[i as int]@);
        let ghost before = out@;
        match keyed_value_of(&ls[i], &key) {
            Some(v) => {
                let s = string_of(&v);
                out.push(s);
                assert(crate::launch::strings(out@) =~= crate::launch::strings(before) + seq![v@]);
            },
            None => {
                assert(crate::launch::strings(out@) =~= crate::launch::strings(before) + Seq::<Seq<char>>::empty());
            },
        }
        i = i + 1;
    }
    assert(lv.take(ls@.len() as int) == lv);
    out
}

/// The first `"display_name"` value, from line `i` on.
pub open spec fn display_name_from(ls: Seq<Seq<char>>, i: int) -> Option<Seq<char>>
    decreases ls.len() - i,
{
    if i < 0 || i >= ls.len() {
        None
    } else {
        match keyed_value(ls[i], "\"display_name\""@) {
            Some(v) => Some(v),
            None => display_name_from(ls, i + 1),
        }
    }
}

/// The `"display_name"` of a `compatibilitytool.vdf` text.
pub fn display_name_in(text: &str) -> (r: Option<String>)
    ensures
        crate::config::opt_view(r) == display_name_from(lines_spec(text@), 0),
{
    let tv = chars_of(text);
    let ls = lines(&tv);
    let ghost lv = views(ls@);
    let key: Vec<char> = chars_of("\"display_name\"");
    let mut i: usize = 0;
    while i < ls.len()
        invariant
            i <= ls@.len(),
            lv == views(ls@),
            lv == lines_spec(text@),
            key@ == "\"display_name\""@,
            display_name_from(lv, 0) == display_name_from(lv, i as int),
        decreases ls@.len() - i,
    {
        assert(lv[i as int] == ls@[i as int]@);
        match keyed_value_of(&ls[i], &key) {
            Some(v) => return Some(string_of(&v)),
            None => {},
        }
        i = i + 1;
    }
    None
}

/// A community build found in a compatibility-tools folder: its folder name
/// as id (or its full path, for folders `umu-run` does not resolve names
/// against), and its manifest's display name when it has one, else the id.
pub fn compat_build(path: &str, folder_name: &str, absolute_id: bool, display_name: Option<String>) -> (r: ProtonBuild)
    ensures
        r.id@ == (if absolute_id {
            path@
        } else {
            folder_name@
        }),
        r.display_name@ == (match display_name {
            Some(d) => d@,
            None => r.id@,
        }),
{
    let id = if absolute_id {
        owned(path)
    } else {
        owned(folder_name)
    };
    let display_name = match display_name {
        Some(d) => d,
        None => id.clone(),
    };
    ProtonBuild { id, display_name }
}

/// An official Steam build folder: named `Proton...` with a `proton`
/// script inside.
pub fn is_official_proton(folder_name: &str, has_proton_script: bool) -> (r: bool)
    ensures
        r == (crate::text::starts_with_spec(folder_name@, "Proton"@) && has_proton_script),
{
    crate::text::str_starts_with(folder_name, "Proton") && has_proton_script
}

/// The sort key of a build: its display name, lowercased.
pub open spec fn build_key(b: ProtonBuild) -> Seq<char> {
    spec_to_lowercase(b.display_name@)
}

/// `x` inserted into a sorted list after every element whose key is not
/// greater than its own (so equal keys keep their order).
pub open spec fn insert_stable(s: Seq<ProtonBuild>, x: ProtonBuild) -> Seq<ProtonBuild>
    decreases s.len(),
{
    if s.len() == 0 || !key_lt(build_key(x), build_key(s.last())) {
        s.push(x)
    } else {
        insert_stable(s.drop_last(), x).push(s.last())
    }
}

/// The builds in a stable order by lowercased display name.
pub open spec fn sort_builds_spec(s: Seq<ProtonBuild>) -> Seq<ProtonBuild>
    decreases s.len(),
{
    if s.len() == 0 {
        s
    } else {
        insert_stable(sort_builds_spec(s.drop_last()), s.last())
    }
}

/// Consecutive builds with the same id collapsed to the first of them.
pub open spec fn dedup_ids(s: Seq<ProtonBuild>) -> Seq<ProtonBuild>
    decreases s.len(),
{
    if s.len() == 0 {
        s
    } else {
        let r = dedup_ids(s.drop_last());
        if r.len() > 0 && r.last().id@ == s.last().id@ {
            r
        } else {
            r.push(s.last())
        }
    }
}

proof fn lemma_insert_at(s: Seq<ProtonBuild>, x: ProtonBuild, p: int)
    requires
        0 <= p <= s.len(),
        forall|k: int| p <= k < s.len() ==> key_lt(build_key(x), #[trigger] build_key(s[k])),
        p == 0 || !key_lt(build_key(x), build_key(s[p - 1])),
    ensures
        insert_stable(s, x) == s.subrange(0, p).push(x) + s.subrange(p, s.len() as int),
    decreases s.len(),
{
    if p == s.len() {
        assert(s.subrange(0, p) == s);
        assert(s.subrange(p, s.len() as int) =~= Seq::<ProtonBuild>::empty());
        if s.len() > 0 {
        }
        assert(s.push(x) + Seq::<ProtonBuild>::empty() =~= s.push(x));
    } else {
        assert(key_lt(build_key(x), build_key(s[s.len() - 1])));
        let t = s.drop_last();
        assert forall|k: int| p <= k < t.len() implies key_lt(build_key(x), #[trigger] build_key(t[k])) by {
            assert(t[k] == s[k]);
        }
        if p > 0 {
            assert(t[p - 1] == s[p - 1]);
        }
        lemma_insert_at(t, x, p);
        assert(insert_stable(s, x) == insert_stable(t, x).push(s.last()));
        assert(s.subrange(0, p).push(x) + s.subrange(p, s.len() as int) =~= (t.subrange(0, p).push(x) + t.subrange(
            p,
            t.len() as int,
        )).push(s.last()));
    }
}

/// Sorts builds by lowercased display name (stable), then drops each build
/// whose id repeats the one before it.
pub fn order_builds(builds: Vec<ProtonBuild>) -> (r: Vec<ProtonBuild>)
    ensures
        r@ == dedup_ids(sort_builds_spec(builds@)),
{
    let mut sorted: Vec<ProtonBuild> = Vec::new();
    let mut keys: Vec<String> = Vec::new();
    let mut i: usize = 0;
    while i < builds.len()
        invariant
            i <= builds@.len(),
            sorted@ == sort_builds_spec(builds@.take(i as int)),
            keys@.len() == sorted@.len(),
            forall|k: int| 0 <= k < keys@.len() ==> keys@[k]@ == #[trigger] build_key(sorted@[k]),
        decreases builds@.len() - i,
    {
        assert(builds@.take(i + 1).drop_last() == builds@.take(i as int));
        let x = builds[i].clone();
        assert(x == builds@[i as int]);
        let kx = to_lowercase(x.display_name.as_str());
        let kxv = chars_of(kx.as_str());
        let mut p: usize = sorted.len();
        while p > 0
            invariant_except_break
                p > 0 ==> p <= sorted@.len(),
            invariant
                p <= sorted@.len(),
                keys@.len() == sorted@.len(),
                forall|k: int| 0 <= k < keys@.len() ==> keys@[k]@ == #[trigger] build_key(sorted@[k]),
                kxv@ == build_key(x),
                forall|k: int| p <= k < sorted@.len() ==> key_lt(build_key(x), #[trigger] build_key(sorted@[k])),
            ensures
                p == 0 || !key_lt(build_key(x), build_key(sorted@[p - 1])),
            decreases p,
        {
            let kp = chars_of(keys[p - 1].as_str());
            assert(kp@ == build_key(sorted@[p - 1]));
            if !crate::strmap::chars_lt(&kxv, &kp) {
                break;
            }
            p = p - 1;
        }
        proof {
            lemma_insert_at(sorted@, x, p as int);
        }
        let ghost old_sorted = sorted@;
        let ghost old_keys = keys@;
        sorted.insert(p, x);
        keys.insert(p, kx);
        assert(sorted@ =~= old_sorted.subrange(0, p as int).push(x) + old_sorted.subrange(p as int, old_sorted.len() as int));
        assert forall|k: int| 0 <= k < keys@.len() implies keys@[k]@ == #[trigger] build_key(sorted@[k]) by {
            if k < p {
                assert(keys@[k] == old_keys[k] && sorted@[k] == old_sorted[k]);
            } else if k > p {
                assert(keys@[k] == old_keys[k - 1] && sorted@[k] == old_sorted[k - 1]);
            }
        }
        i = i + 1;
    }
    assert(builds@.take(builds@.len() as int) == builds@);
    let mut out: Vec<ProtonBuild> = Vec::new();
    let mut j: usize = 0;
    while j < sorted.len()
        invariant
            j <= sorted@.len(),
            out@ == dedup_ids(sorted@.take(j as int)),
        decreases sorted@.len() - j,
    {
        assert(sorted@.take(j + 1).drop_last() == sorted@.take(j as int));
        let n = out.len();
        let same = n > 0 && crate::text::str_eq(out[n - 1].id.as_str(), sorted[j].id.as_str());
        let ghost before = out@;
        if !same {
            let b = sorted[j].clone();
            out.push(b);
            assert(out@ == before.push(sorted@[j as int]));
        }
        j = j + 1;
    }
    assert(sorted@.take(sorted@.len() as int) == sorted@);
    out
}

/// Why a build's Wine directory cannot be named.
#[derive(Debug, Clone, PartialEq, Eq)]
pub enum ResolveError {
    /// `system` (or nothing) is selected: `umu-run` manages its own build.
    NoBuildSelected,
    /// No home directory to find the Steam root in.
    NoHome,
}

/// The directory of a build: an absolute id as is, else the folder of that
/// name in the user's own Steam compatibility-tools directory.
pub open spec fn resolve_dir_spec(id: Seq<char>, home: Option<Seq<char>>) -> Result<Seq<char>, ResolveError> {
    if id.len() == 0 || id == "system"@ {
        Err(ResolveError::NoBuildSelected)
    } else if id[0] == '/' {
        Ok(id)
    } else {
        match home {
            Some(h) => Ok(path_join_spec(path_join_spec(h, ".local/share/Steam/compatibilitytools.d"@), id)),
            None => Err(ResolveError::NoHome),
        }
    }
}

/// Resolves a stored Proton value to its build's directory against a known
/// home directory.
pub fn resolve_binary_dir_with(id: &str, home: Option<&str>) -> (r: Result<String, ResolveError>)
    ensures
        match r {
            Ok(p) => resolve_dir_spec(id@, match home {
                Some(h) => Some(h@),
                None => None,
            }) == Ok::<Seq<char>, ResolveError>(p@),
            Err(e) => resolve_dir_spec(id@, match home {
                Some(h) => Some(h@),
                None => None,
            }) == Err::<Seq<char>, ResolveError>(e),
        },
{
    let iv = chars_of(id);
    if iv.len() == 0 || crate::text::str_eq(id, "system") {
        return Err(ResolveError::NoBuildSelected);
    }
    if iv[0] == '/' {
        return Ok(owned(id));
    }
    match home {
        Some(h) => {
            let root = path_join(h, ".local/share/Steam/compatibilitytools.d");
            Ok(path_join(root.as_str(), id))
        },
        None => Err(ResolveError::NoHome),
    }
}

/// Resolves a stored Proton value to its build's directory.
pub fn resolve_binary_dir(id: &str) -> (r: Result<String, ResolveError>)
    ensures
        exists|h: Option<Seq<char>>|
            #![trigger resolve_dir_spec(id@, h)]
            match r {
                Ok(p) => resolve_dir_spec(id@, h) == Ok::<Seq<char>, ResolveError>(p@),
                Err(e) => resolve_dir_spec(id@, h) == Err::<Seq<char>, ResolveError>(e),
            },
{
    match crate::config::home_dir() {
        Some(h) => resolve_binary_dir_with(id, Some(h.as_str())),
        None => resolve_binary_dir_with(id, None),
    }
}

/// Where to look for `name` along a `PATH` value: each `:`-separated entry
/// joined with it, in order.
pub fn path_candidates(path_var: &str, name: &str) -> (r: Vec<String>)
    ensures
        crate::launch::strings(r@) == split_char_spec(path_var@, ':').map_values(|d: Seq<char>| path_join_spec(d, name@)),
{
    let pv = chars_of(path_var);
    let dirs = split_char(&pv, ':');
    let ghost dv = views(dirs@);
    let mut out: Vec<String> = Vec::new();
    let mut i: usize = 0;
    while i < dirs.len()
        invariant
            i <= dirs@.len(),
            dv == views(dirs@),
            dv == split_char_spec(path_var@, ':'),
            crate::launch::strings(out@) == dv.take(i as int).map_values(|d: Seq<char>| path_join_spec(d, name@)),
        decreases dirs@.len() - i,
    {
        let d = string_of(&dirs[i]);
        assert(d@ == dv[i as int]);
        let c = path_join(d.as_str(), name);
        let ghost before = out@;
        out.push(c);
        assert(crate::launch::strings(out@) =~= crate::launch::strings(before).push(c@));
        assert(dv.take(i + 1) =~= dv.take(i as int).push(dv[i as int]));
        assert(crate::launch::strings(out@) =~= dv.take(i + 1).map_values(|d: Seq<char>| path_join_spec(d, name@)));
        i = i + 1;
    }
    assert(dv.take(dirs@.len() as int) == dv);
    out
}

} // verus!
