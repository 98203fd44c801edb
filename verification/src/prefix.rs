//! Folder slugs for profiles, and where a launch's Wine prefix lives.
use vstd::prelude::*;

use crate::config::{expand_home_spec, expand_home_with, home_dir, path_join_spec, path_join, Effective, PrefixMode};
use crate::text::{
    ascii_lower, char_is_ascii_alnum, chars_of, is_ascii_alnum, is_ascii_text, is_ascii_upper, owned, spec_to_lowercase,
    string_of, to_lowercase, trim_end_by, trim_matches, trim_matches_spec, trim_start_by,
};

verus! {

/// Every character that is not an ASCII letter or digit replaced by `-`.
pub open spec fn dash_non_alnum(s: Seq<char>) -> Seq<char> {
    s.map_values(|c: char| if is_ascii_alnum(c) { c } else { '-' })
}

/// Each run of `-` shortened to a single `-`.
pub open spec fn collapse_dashes(s: Seq<char>) -> Seq<char>
    decreases s.len(),
{
    if s.len() == 0 {
        s
    } else {
        let r = collapse_dashes(s.drop_last());
        if s.last() == '-' && r.len() > 0 && r.last() == '-' {
            r
        } else {
            r.push(s.last())
        }
    }
}

/// The slug rule: lowercase, non-alphanumerics to `-`, runs of `-` collapsed
/// to one, and `-` trimmed from both ends.
pub open spec fn sanitize_spec(text: Seq<char>) -> Seq<char> {
    trim_matches_spec(collapse_dashes(dash_non_alnum(spec_to_lowercase(text))), '-')
}

/// A well-formed slug: ASCII letters, digits and single `-`s, with no `-` at
/// either end.
pub open spec fn is_slug_shaped(s: Seq<char>) -> bool {
    &&& forall|i: int| 0 <= i < s.len() ==> is_ascii_alnum(#[trigger] s[i]) || s[i] == '-'
    &&& forall|i: int| 0 <= i < s.len() - 1 ==> !(#[trigger] s[i] == '-' && s[i + 1] == '-')
    &&& s.len() > 0 ==> s[0] != '-' && s.last() != '-'
}

proof fn lemma_collapse_shape(s: Seq<char>)
    requires
        forall|i: int| 0 <= i < s.len() ==> is_ascii_alnum(#[trigger] s[i]) || s[i] == '-',
    ensures
        forall|i: int| 0 <= i < collapse_dashes(s).len() ==> is_ascii_alnum(#[trigger] collapse_dashes(s)[i])
            || collapse_dashes(s)[i] == '-',
        forall|i: int| 0 <= i < collapse_dashes(s).len() - 1 ==> !(#[trigger] collapse_dashes(s)[i] == '-'
            && collapse_dashes(s)[i + 1] == '-'),
        collapse_dashes(s).len() <= s.len(),
    decreases s.len(),
{
    if s.len() > 0 {
        let t = s.drop_last();
        assert forall|i: int| 0 <= i < t.len() implies is_ascii_alnum(#[trigger] t[i]) || t[i] == '-' by {
            assert(t[i] == s[i]);
        }
        lemma_collapse_shape(t);
        let r = collapse_dashes(t);
        if !(s.last() == '-' && r.len() > 0 && r.last() == '-') {
            let q = r.push(s.last());
            assert(collapse_dashes(s) == q);
            assert(is_ascii_alnum(s[s.len() - 1]) || s[s.len() - 1] == '-');
            assert forall|i: int| 0 <= i < q.len() - 1 implies !(#[trigger] q[i] == '-' && q[i + 1] == '-') by {
                if i < r.len() - 1 {
                    assert(q[i] == r[i] && q[i + 1] == r[i + 1]);
                }
            }
        }
    }
}

proof fn lemma_trim_dash_shape(s: Seq<char>)
    requires
        forall|i: int| 0 <= i < s.len() ==> is_ascii_alnum(#[trigger] s[i]) || s[i] == '-',
        forall|i: int| 0 <= i < s.len() - 1 ==> !(#[trigger] s[i] == '-' && s[i + 1] == '-'),
    ensures
        is_slug_shaped(trim_matches_spec(s, '-')),
{
    let a = crate::text::lemma_trim_matches_sub(s, '-');
    let t = trim_matches_spec(s, '-');
    assert forall|i: int| 0 <= i < t.len() implies is_ascii_alnum(#[trigger] t[i]) || t[i] == '-' by {
        assert(t[i] == s[a + i]);
    }
    assert forall|i: int| 0 <= i < t.len() - 1 implies !(#[trigger] t[i] == '-' && t[i + 1] == '-') by {
        assert(t[i] == s[a + i] && t[i + 1] == s[a + i + 1]);
    }
}

proof fn lemma_collapse_keeps_single_dashes(s: Seq<char>)
    requires
        forall|i: int| 0 <= i < s.len() - 1 ==> !(#[trigger] s[i] == '-' && s[i + 1] == '-'),
    ensures
        collapse_dashes(s) == s,
    decreases s.len(),
{
    if s.len() > 0 {
        let t = s.drop_last();
        assert forall|i: int| 0 <= i < t.len() - 1 implies !(#[trigger] t[i] == '-' && t[i + 1] == '-') by {
            assert(t[i] == s[i] && t[i + 1] == s[i + 1]);
        }
        lemma_collapse_keeps_single_dashes(t);
        if s.last() == '-' && t.len() > 0 && t.last() == '-' {
            assert(s[t.len() - 1] == '-' && s[t.len() as int] == '-');
        }
        assert(t.push(s.last()) =~= s);
    }
}

proof fn lemma_collapse_no_upper(s: Seq<char>)
    requires
        forall|i: int| 0 <= i < s.len() ==> !is_ascii_upper(#[trigger] s[i]),
    ensures
        forall|i: int| 0 <= i < collapse_dashes(s).len() ==> !is_ascii_upper(#[trigger] collapse_dashes(s)[i]),
    decreases s.len(),
{
    if s.len() > 0 {
        let t = s.drop_last();
        assert forall|i: int| 0 <= i < t.len() implies !is_ascii_upper(#[trigger] t[i]) by {
            assert(t[i] == s[i]);
        }
        lemma_collapse_no_upper(t);
        assert(!is_ascii_upper(s[s.len() - 1]));
        let r = collapse_dashes(t);
        if !(s.last() == '-' && r.len() > 0 && r.last() == '-') {
            let q = r.push(s.last());
            assert(collapse_dashes(s) == q);
            assert forall|i: int| 0 <= i < q.len() implies !is_ascii_upper(#[trigger] q[i]) by {
                if i < r.len() {
                    assert(q[i] == r[i]);
                }
            }
        }
    }
}

/// A slug with no capital letter is its own slug.
pub proof fn lemma_sanitize_fixes_slugs(s: Seq<char>)
    requires
        is_slug_shaped(s),
        forall|i: int| 0 <= i < s.len() ==> !is_ascii_upper(#[trigger] s[i]),
    ensures
        sanitize_spec(s) == s,
{
    assert forall|i: int| 0 <= i < s.len() implies (#[trigger] s[i] as u32) < 128 by {
        assert(is_ascii_alnum(s[i]) || s[i] == '-');
    }
    assert(spec_to_lowercase(s) =~= s);
    assert(dash_non_alnum(s) =~= s) by {
        assert forall|i: int| 0 <= i < s.len() implies #[trigger] dash_non_alnum(s)[i] == s[i] by {
            assert(is_ascii_alnum(s[i]) || s[i] == '-');
        }
    }
    lemma_collapse_keeps_single_dashes(s);
    if s.len() > 0 {
        assert(s[0] != '-' && s.last() != '-');
        assert(trim_start_by(s, crate::text::eq_pred('-')) == s);
        assert(trim_end_by(s, crate::text::eq_pred('-')) == s);
    } else {
        assert(trim_start_by(s, crate::text::eq_pred('-')) == s);
        assert(trim_end_by(s, crate::text::eq_pred('-')) == s);
    }
}

/// A slug holds no capital letter.
pub proof fn lemma_sanitize_has_no_capitals(text: Seq<char>)
    ensures
        forall|i: int| 0 <= i < sanitize_spec(text).len() ==> !is_ascii_upper(#[trigger] sanitize_spec(text)[i]),
{
    let lower = spec_to_lowercase(text);
    crate::text::lemma_lowercase_has_no_capitals(text);
    let mapped = dash_non_alnum(lower);
    assert forall|i: int| 0 <= i < mapped.len() implies !is_ascii_upper(#[trigger] mapped[i]) by {
        assert(!is_ascii_upper(lower[i]));
    }
    lemma_collapse_no_upper(mapped);
    let c = collapse_dashes(mapped);
    let a = crate::text::lemma_trim_matches_sub(c, '-');
    let r = sanitize_spec(text);
    assert forall|i: int| 0 <= i < r.len() implies !is_ascii_upper(#[trigger] r[i]) by {
        assert(r[i] == c[a + i]);
    }
}

/// The slug of a text's slug is that slug again: slugging twice changes
/// nothing.
pub proof fn lemma_sanitize_idempotent(text: Seq<char>)
    ensures
        sanitize_spec(sanitize_spec(text)) == sanitize_spec(text),
{
    let mapped = dash_non_alnum(spec_to_lowercase(text));
    assert forall|i: int| 0 <= i < mapped.len() implies is_ascii_alnum(#[trigger] mapped[i]) || mapped[i] == '-' by {}
    lemma_collapse_shape(mapped);
    lemma_trim_dash_shape(collapse_dashes(mapped));
    lemma_sanitize_has_no_capitals(text);
    lemma_sanitize_fixes_slugs(sanitize_spec(text));
}

/// Some character is not `-`.
spec fn has_non_dash(s: Seq<char>) -> bool {
    exists|i: int| 0 <= i < s.len() && #[trigger] s[i] != '-'
}

proof fn lemma_push_dash(s: Seq<char>)
    ensures
        has_non_dash(s.push('-')) == has_non_dash(s),
{
    let q = s.push('-');
    if has_non_dash(q) {
        let i = choose|i: int| 0 <= i < q.len() && #[trigger] q[i] != '-';
        assert(i < s.len() && s[i] == q[i]);
    }
    if has_non_dash(s) {
        let i = choose|i: int| 0 <= i < s.len() && #[trigger] s[i] != '-';
        assert(q[i] == s[i]);
    }
}

proof fn lemma_collapse_keeps_letters(s: Seq<char>)
    ensures
        has_non_dash(s) == has_non_dash(collapse_dashes(s)),
    decreases s.len(),
{
    if s.len() > 0 {
        let t = s.drop_last();
        lemma_collapse_keeps_letters(t);
        let r = collapse_dashes(t);
        if s.last() != '-' {
            let q = r.push(s.last());
            assert(collapse_dashes(s) == q);
            assert(s[s.len() - 1] != '-');
            assert(q[r.len() as int] != '-');
        } else {
            assert(s == t.push('-'));
            lemma_push_dash(t);
            lemma_push_dash(r);
        }
    }
}

/// A text's slug is empty exactly when its lowercase form holds no ASCII
/// letter or digit.
pub proof fn lemma_sanitize_empty_iff(text: Seq<char>)
    ensures
        sanitize_spec(text).len() == 0 <==> forall|i: int|
            0 <= i < spec_to_lowercase(text).len() ==> !is_ascii_alnum(#[trigger] spec_to_lowercase(text)[i]),
{
    let lower = spec_to_lowercase(text);
    let mapped = dash_non_alnum(lower);
    lemma_collapse_keeps_letters(mapped);
    let c = collapse_dashes(mapped);
    let a = crate::text::lemma_trim_matches_sub(c, '-');
    let r = sanitize_spec(text);
    if exists|i: int| 0 <= i < lower.len() && is_ascii_alnum(#[trigger] lower[i]) {
        let i = choose|i: int| 0 <= i < lower.len() && is_ascii_alnum(#[trigger] lower[i]);
        assert(mapped[i] == lower[i]);
        assert(mapped[i] != '-');
        assert(has_non_dash(mapped));
        let k = choose|k: int| 0 <= k < c.len() && #[trigger] c[k] != '-';
        crate::text::lemma_trim_keeps(c, crate::text::eq_pred('-'), k);
    }
    if r.len() > 0 {
        assert(r[0] != '-');
        assert(r[0] == c[a]);
        assert(has_non_dash(c));
        let i = choose|i: int| 0 <= i < mapped.len() && #[trigger] mapped[i] != '-';
        assert(is_ascii_alnum(lower[i]));
    }
}

fn dash_char(c: char) -> (r: char)
    ensures
        r == (if is_ascii_alnum(c) {
            c
        } else {
            '-'
        }),
{
    if char_is_ascii_alnum(c) {
        c
    } else {
        '-'
    }
}

/// Lowercases, collapses non-alphanumerics to `-`, and trims leading and
/// trailing `-`: the rule for anything used as a folder slug.
pub fn sanitize(text: &str) -> (r: String)
    ensures
        r@ == sanitize_spec(text@),
        is_slug_shaped(r@),
        forall|i: int| 0 <= i < r@.len() ==> !is_ascii_upper(#[trigger] r@[i]),
{
    proof {
        lemma_sanitize_has_no_capitals(text@);
    }
    let lower = to_lowercase(text);
    let lv = chars_of(lower.as_str());
    let ghost mapped = dash_non_alnum(lv@);
    let mut out: Vec<char> = Vec::new();
    let mut i: usize = 0;
    while i < lv.len()
        invariant
            i <= lv@.len(),
            mapped == dash_non_alnum(lv@),
            out@ == collapse_dashes(mapped.take(i as int)),
        decreases lv@.len() - i,
    {
        let c = dash_char(lv[i]);
        let ghost prev = mapped.take(i as int);
        assert(mapped.take(i + 1).drop_last() == prev);
        assert(mapped.take(i + 1).last() == c);
        let n = out.len();
        if c == '-' && n > 0 && out[n - 1] == '-' {
        } else {
            out.push(c);
        }
        i = i + 1;
    }
    assert(mapped.take(lv@.len() as int) == mapped);
    proof {
        assert forall|k: int| 0 <= k < mapped.len() implies is_ascii_alnum(#[trigger] mapped[k])
            || mapped[k] == '-' by {}
        lemma_collapse_shape(mapped);
        lemma_trim_dash_shape(out@);
    }
    let t = trim_matches(&out, '-');
    let r = string_of(&t);
    proof {
        assert(r@ == sanitize_spec(text@));
        assert forall|i: int| 0 <= i < r@.len() implies !is_ascii_upper(#[trigger] r@[i]) by {
            assert(r@[i] == sanitize_spec(text@)[i]);
        }
    }
    r
}

/// Name for what `Path::file_stem` gives for a path: the last component's
/// name without its final extension, or nothing when the path has no file
/// name.
pub uninterp spec fn spec_file_stem(path: Seq<char>) -> Option<Seq<char>>;

/// std's `Path::file_stem` on a string path; its result is named by
/// `spec_file_stem`. The path is valid UTF-8, so its stem is too.
#[verifier::external_body]
pub(crate) fn file_stem(path: &str) -> (r: Option<String>)
    ensures
        crate::config::opt_view(r) == spec_file_stem(path@),
{
    std::path::Path::new(path).file_stem().map(|s| s.to_string_lossy().into_owned())
}

/// The slug derived from a file stem: the stem sanitized, or `app` when
/// there is no stem or nothing of it survives.
pub open spec fn slug_from_stem_spec(stem: Option<Seq<char>>) -> Seq<char> {
    let s = sanitize_spec(
        match stem {
            Some(x) => x,
            None => "app"@,
        },
    );
    if s.len() == 0 {
        "app"@
    } else {
        s
    }
}

/// The starting-point slug for an exe whose file stem is `stem`.
pub fn slug_from_stem(stem: Option<&str>) -> (r: String)
    ensures
        r@ == slug_from_stem_spec(match stem {
            Some(x) => Some(x@),
            None => None,
        }),
        r@.len() > 0,
{
    let s = match stem {
        Some(x) => sanitize(x),
        None => sanitize("app"),
    };
    if s.as_str().is_empty() {
        proof {
            reveal_strlit("app");
        }
        owned("app")
    } else {
        s
    }
}

/// Derives a starting-point slug from an exe path (its sanitized file
/// stem), falling back to `app`.
pub fn slug_from_exe(target: &str) -> (r: String)
    ensures
        r@ == slug_from_stem_spec(spec_file_stem(target@)),
        r@.len() > 0,
{
    match file_stem(target) {
        Some(s) => slug_from_stem(Some(s.as_str())),
        None => slug_from_stem(None),
    }
}

/// The prefix directory for one launch, given the home directory: the
/// shared prefix in `Single` mode, else the slug's folder under the prefixes
/// root.
pub open spec fn resolve_spec(
    mode: PrefixMode,
    prefix_path: Seq<char>,
    prefixes_root: Seq<char>,
    slug: Seq<char>,
    home: Option<Seq<char>>,
) -> Seq<char> {
    match mode {
        PrefixMode::Single => expand_home_spec(prefix_path, home),
        PrefixMode::PerSlug => path_join_spec(expand_home_spec(prefixes_root, home), slug),
    }
}

/// Resolves the prefix directory for one launch against a known home
/// directory.
pub fn resolve_with(effective: &Effective, slug: &str, home: Option<&str>) -> (r: String)
    ensures
        r@ == resolve_spec(
            effective.prefix_mode,
            effective.prefix_path@,
            effective.prefixes_root@,
            slug@,
            match home {
                Some(h) => Some(h@),
                None => None,
            },
        ),
{
    match effective.prefix_mode {
        PrefixMode::Single => expand_home_with(effective.prefix_path.as_str(), home),
        PrefixMode::PerSlug => {
            let root = expand_home_with(effective.prefixes_root.as_str(), home);
            path_join(root.as_str(), slug)
        },
    }
}

/// Resolves the prefix directory for one launch.
pub fn resolve(effective: &Effective, slug: &str) -> (r: String)
    ensures
        exists|h: Option<Seq<char>>|
            r@ == resolve_spec(effective.prefix_mode, effective.prefix_path@, effective.prefixes_root@, slug@, h),
{
    match home_dir() {
        Some(h) => resolve_with(effective, slug, Some(h.as_str())),
        None => resolve_with(effective, slug, None),
    }
}

/// In `PerSlug` mode two different slugs always get two different prefix
/// directories.
pub proof fn lemma_per_slug_prefixes_distinct(root: Seq<char>, a: Seq<char>, b: Seq<char>)
    requires
        a != b,
        is_slug_shaped(a),
        is_slug_shaped(b),
        a.len() > 0,
        b.len() > 0,
    ensures
        path_join_spec(root, a) != path_join_spec(root, b),
{
    let ja = path_join_spec(root, a);
    let jb = path_join_spec(root, b);
    assert(a[0] != '/') by {
        assert(is_ascii_alnum(a[0]) || a[0] == '-');
    }
    assert(b[0] != '/') by {
        assert(is_ascii_alnum(b[0]) || b[0] == '-');
    }
    if root.len() == 0 {
    } else if root.last() == '/' {
        if ja == jb {
            assert(a =~= ja.subrange(root.len() as int, ja.len() as int));
            assert(b =~= jb.subrange(root.len() as int, jb.len() as int));
        }
    } else {
        if ja == jb {
            assert(a =~= ja.subrange(root.len() + 1int, ja.len() as int));
            assert(b =~= jb.subrange(root.len() + 1int, jb.len() as int));
        }
    }
}

} // verus!
