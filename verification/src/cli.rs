//! Command-line decisions: `KEY=VALUE` tokens, and which library entry or
//! running launch a command names.
use vstd::prelude::*;

use crate::config::Profile;
use crate::running::RunningEntry;
use crate::text::{
    chars_of, concat3, eq_ignore_ascii_case, eq_ignore_ascii_case_spec, is_ascii_alnum, is_ascii_alpha, parse_u32,
    parse_u32_spec, split_once_char, split_once_char_spec, string_of,
};

verus! {

/// A `KEY=VALUE` argument split at its first `=`.
pub open spec fn env_kv_spec(s: Seq<char>) -> Option<(Seq<char>, Seq<char>)> {
    split_once_char_spec(s, '=')
}

/// Parses a `--env KEY=VALUE` argument; the error names the argument.
pub fn parse_env_kv(s: &str) -> (r: Result<(String, String), String>)
    ensures
        match r {
            Ok(p) => env_kv_spec(s@) == Some((p.0@, p.1@)),
            Err(m) => env_kv_spec(s@) is None && m@ == "expected KEY=VALUE, got `"@ + s@ + "`"@,
        },
{
    let v = chars_of(s);
    match split_once_char(&v, '=') {
        Some((k, val)) => Ok((string_of(&k), string_of(&val))),
        None => Err(concat3("expected KEY=VALUE, got `", s, "`")),
    }
}

/// A name that looks like an environment variable: a letter or `_`, then
/// letters, digits and `_`.
pub open spec fn is_env_name(k: Seq<char>) -> bool {
    &&& k.len() > 0
    &&& (is_ascii_alpha(k[0]) || k[0] == '_')
    &&& forall|i: int| 1 <= i < k.len() ==> is_ascii_alnum(#[trigger] k[i]) || k[i] == '_'
}

/// `KEY=VALUE` the way `env` and Steam launch options read it.
pub open spec fn leading_env_spec(s: Seq<char>) -> Option<(Seq<char>, Seq<char>)> {
    match split_once_char_spec(s, '=') {
        Some((k, v)) => if is_env_name(k) {
            Some((k, v))
        } else {
            None
        },
        None => None,
    }
}

/// Recognizes `KEY=VALUE` where `KEY` looks like an environment variable
/// name (so `-connect=1.2.3.4` is not one).
pub fn parse_leading_env(s: &str) -> (r: Option<(String, String)>)
    ensures
        match r {
            Some(p) => leading_env_spec(s@) == Some((p.0@, p.1@)),
            None => leading_env_spec(s@) is None,
        },
{
    let v = chars_of(s);
    let (k, val) = match split_once_char(&v, '=') {
        Some(p) => p,
        None => return None,
    };
    if k.len() == 0 || !(crate::text::char_is_ascii_alpha(k[0]) || k[0] == '_') {
        return None;
    }
    let mut i: usize = 1;
    while i < k.len()
        invariant
            1 <= i <= k@.len(),
            split_once_char_spec(v@, '=') == Some((k@, val@)),
            v@ == s@,
            forall|j: int| 1 <= j < i ==> is_ascii_alnum(#[trigger] k@[j]) || k@[j] == '_',
        decreases k@.len() - i,
    {
        if !(crate::text::char_is_ascii_alnum(k[i]) || k[i] == '_') {
            assert(!is_env_name(k@));
            return None;
        }
        i = i + 1;
    }
    Some((string_of(&k), string_of(&val)))
}

/// The leading `KEY=VALUE` tokens (as pairs) and everything from the first
/// token that is not one.
pub open spec fn split_env_spec(args: Seq<Seq<char>>) -> (Seq<(Seq<char>, Seq<char>)>, Seq<Seq<char>>)
    decreases args.len(),
{
    if args.len() == 0 {
        (Seq::empty(), Seq::empty())
    } else {
        match leading_env_spec(args[0]) {
            Some(kv) => {
                let r = split_env_spec(args.drop_first());
                (seq![kv] + r.0, r.1)
            },
            None => (Seq::empty(), args),
        }
    }
}

/// Splits leading `KEY=VALUE` tokens off the front of `args`, stopping at the
/// first token that is not one.
pub fn split_leading_env(args: Vec<String>) -> (r: (Vec<(String, String)>, Vec<String>))
    ensures
        (r.0@.map_values(|p: (String, String)| crate::strmap::pair_view(p)), crate::launch::strings(r.1@))
            == split_env_spec(crate::launch::strings(args@)),
{
    let ghost all = crate::launch::strings(args@);
    let mut env: Vec<(String, String)> = Vec::new();
    let mut i: usize = 0;
    assert(all.subrange(0, all.len() as int) == all);
    assert(env@.map_values(|p: (String, String)| crate::strmap::pair_view(p)) + split_env_spec(all).0 =~= split_env_spec(all).0);
    while i < args.len()
        invariant
            i <= args@.len(),
            all == crate::launch::strings(args@),
            split_env_spec(all) == (env@.map_values(|p: (String, String)| crate::strmap::pair_view(p)) + split_env_spec(
                all.subrange(i as int, all.len() as int),
            ).0, split_env_spec(all.subrange(i as int, all.len() as int)).1),
        decreases args@.len() - i,
    {
        let ghost rest = all.subrange(i as int, all.len() as int);
        assert(rest[0] == args@[i as int]@);
        assert(rest.drop_first() == all.subrange(i + 1, all.len() as int));
        match parse_leading_env(args[i].as_str()) {
            Some(kv) => {
                let ghost before = env@;
                env.push(kv);
                assert(env@.map_values(|p: (String, String)| crate::strmap::pair_view(p)) =~= before.map_values(
                    |p: (String, String)| crate::strmap::pair_view(p),
                ).push(crate::strmap::pair_view(kv)));
                assert(env@.map_values(|p: (String, String)| crate::strmap::pair_view(p)) + split_env_spec(
                    rest.drop_first(),
                ).0 =~= before.map_values(|p: (String, String)| crate::strmap::pair_view(p)) + (seq![
                    crate::strmap::pair_view(kv),
                ] + split_env_spec(rest.drop_first()).0));
            },
            None => {
                let mut out: Vec<String> = Vec::new();
                let mut j: usize = i;
                while j < args.len()
                    invariant
                        i <= j <= args@.len(),
                        all == crate::launch::strings(args@),
                        crate::launch::strings(out@) == all.subrange(i as int, j as int),
                    decreases args@.len() - j,
                {
                    let ghost before = out@;
                    let x = args[j].clone();
                    assert(x@ == all[j as int]);
                    out.push(x);
                    assert(crate::launch::strings(out@) =~= crate::launch::strings(before).push(x@));
                    assert(crate::launch::strings(out@) =~= all.subrange(i as int, j + 1));
                    j = j + 1;
                }
                assert(env@.map_values(|p: (String, String)| crate::strmap::pair_view(p)) + Seq::<(Seq<char>, Seq<char>)>::empty()
                    =~= env@.map_values(|p: (String, String)| crate::strmap::pair_view(p)));
                return (env, out);
            },
        }
        i = i + 1;
    }
    assert(all.subrange(args@.len() as int, all.len() as int) =~= Seq::<Seq<char>>::empty());
    assert(env@.map_values(|p: (String, String)| crate::strmap::pair_view(p)) + Seq::<(Seq<char>, Seq<char>)>::empty()
        =~= env@.map_values(|p: (String, String)| crate::strmap::pair_view(p)));
    (env, Vec::new())
}

/// Why a name picks no single entry.
#[derive(Debug, Clone, PartialEq, Eq)]
pub enum SelectError {
    NoMatch,
    Ambiguous,
}

/// How many entries of `xs` from `i` on satisfy `f`.
pub open spec fn count_from<T>(xs: Seq<T>, f: spec_fn(T) -> bool, i: int) -> nat
    decreases xs.len() - i,
{
    if i < 0 || i >= xs.len() {
        0
    } else {
        (if f(xs[i]) {
            1nat
        } else {
            0nat
        }) + count_from(xs, f, i + 1)
    }
}

/// The only entry of `xs` satisfying `f`, or why there is not exactly one.
pub open spec fn unique_index<T>(xs: Seq<T>, f: spec_fn(T) -> bool, r: Result<usize, SelectError>) -> bool {
    match r {
        Ok(i) => i < xs.len() && f(xs[i as int]) && count_from(xs, f, 0) == 1,
        Err(SelectError::NoMatch) => count_from(xs, f, 0) == 0,
        Err(SelectError::Ambiguous) => count_from(xs, f, 0) >= 2,
    }
}

proof fn lemma_count_single<T>(xs: Seq<T>, f: spec_fn(T) -> bool, i: int, k: int)
    requires
        0 <= i <= k < xs.len(),
        f(xs[k]),
        forall|j: int| i <= j < xs.len() && j != k ==> !f(#[trigger] xs[j]),
    ensures
        count_from(xs, f, i) == 1,
    decreases xs.len() - i,
{
    if i < k {
        lemma_count_single(xs, f, i + 1, k);
    } else {
        lemma_count_none(xs, f, i + 1);
    }
}

proof fn lemma_count_none<T>(xs: Seq<T>, f: spec_fn(T) -> bool, i: int)
    requires
        0 <= i,
        forall|j: int| i <= j < xs.len() ==> !f(#[trigger] xs[j]),
    ensures
        count_from(xs, f, i) == 0,
    decreases xs.len() - i,
{
    if i < xs.len() {
        lemma_count_none(xs, f, i + 1);
    }
}

proof fn lemma_count_two<T>(xs: Seq<T>, f: spec_fn(T) -> bool, i: int, a: int, b: int)
    requires
        0 <= i <= a < b < xs.len(),
        f(xs[a]),
        f(xs[b]),
    ensures
        count_from(xs, f, i) >= 2,
    decreases xs.len() - i,
{
    if i < a {
        lemma_count_two(xs, f, i + 1, a, b);
    } else {
        lemma_count_at_least_one(xs, f, i + 1, b);
    }
}

proof fn lemma_count_at_least_one<T>(xs: Seq<T>, f: spec_fn(T) -> bool, i: int, b: int)
    requires
        0 <= i <= b < xs.len(),
        f(xs[b]),
    ensures
        count_from(xs, f, i) >= 1,
    decreases xs.len() - i,
{
    if i < b {
        lemma_count_at_least_one(xs, f, i + 1, b);
    }
}

/// A library entry named by `query`: its slug or its display name, ASCII
/// case ignored.
pub open spec fn names_profile(query: Seq<char>) -> spec_fn((String, Profile)) -> bool {
    |e: (String, Profile)| eq_ignore_ascii_case_spec(e.0@, query) || eq_ignore_ascii_case_spec(e.1.name@, query)
}

/// The one library entry `query` names (slug or name, ASCII case
/// ignored); no match and several matches are errors.
pub fn select_profile(profiles: &[(String, Profile)], query: &str) -> (r: Result<usize, SelectError>)
    ensures
        unique_index(profiles@, names_profile(query@), r),
{
    let ghost f = names_profile(query@);
    let mut found: Option<usize> = None;
    let mut i: usize = 0;
    while i < profiles.len()
        invariant
            i <= profiles@.len(),
            f == names_profile(query@),
            match found {
                Some(k) => k < i && f(profiles@[k as int]) && forall|j: int| 0 <= j < i && j != k ==> !f(#[trigger] profiles@[j]),
                None => forall|j: int| 0 <= j < i ==> !f(#[trigger] profiles@[j]),
            },
        decreases profiles@.len() - i,
    {
        let hit = eq_ignore_ascii_case(profiles[i].0.as_str(), query) || eq_ignore_ascii_case(
            profiles[i].1.name.as_str(),
            query,
        );
        if hit {
            match found {
                Some(k) => {
                    proof {
                        lemma_count_two(profiles@, f, 0, k as int, i as int);
                    }
                    return Err(SelectError::Ambiguous);
                },
                None => {
                    found = Some(i);
                },
            }
        }
        i = i + 1;
    }
    match found {
        Some(k) => {
            proof {
                lemma_count_single(profiles@, f, 0, k as int);
            }
            Ok(k)
        },
        None => {
            proof {
                lemma_count_none(profiles@, f, 0);
            }
            Err(SelectError::NoMatch)
        },
    }
}

/// A running entry named by `target`: by pid when `target` parses as one,
/// else by profile name with ASCII case ignored.
pub open spec fn names_running(target: Seq<char>) -> spec_fn(RunningEntry) -> bool {
    |e: RunningEntry| match parse_u32_spec(target) {
        Some(pid) => e.pid == pid,
        None => eq_ignore_ascii_case_spec(e.name@, target),
    }
}

/// The one running launch `target` names.
pub fn select_running(entries: &[RunningEntry], target: &str) -> (r: Result<usize, SelectError>)
    ensures
        unique_index(entries@, names_running(target@), r),
{
    let ghost f = names_running(target@);
    let tv = chars_of(target);
    let pid = parse_u32(&tv);
    let mut found: Option<usize> = None;
    let mut i: usize = 0;
    while i < entries.len()
        invariant
            i <= entries@.len(),
            f == names_running(target@),
            pid == parse_u32_spec(target@),
            match found {
                Some(k) => k < i && f(entries@[k as int]) && forall|j: int| 0 <= j < i && j != k ==> !f(#[trigger] entries@[j]),
                None => forall|j: int| 0 <= j < i ==> !f(#[trigger] entries@[j]),
            },
        decreases entries@.len() - i,
    {
        let hit = match pid {
            Some(p) => entries[i].pid == p,
            None => eq_ignore_ascii_case(entries[i].name.as_str(), target),
        };
        if hit {
            match found {
                Some(k) => {
                    proof {
                        lemma_count_two(entries@, f, 0, k as int, i as int);
                    }
                    return Err(SelectError::Ambiguous);
                },
                None => {
                    found = Some(i);
                },
            }
        }
        i = i + 1;
    }
    match found {
        Some(k) => {
            proof {
                lemma_count_single(entries@, f, 0, k as int);
            }
            Ok(k)
        },
        None => {
            proof {
                lemma_count_none(entries@, f, 0);
            }
            Err(SelectError::NoMatch)
        },
    }
}


proof fn lemma_count_one_unique<T>(xs: Seq<T>, f: spec_fn(T) -> bool, i: int)
    requires
        0 <= i < xs.len(),
        f(xs[i]),
        count_from(xs, f, 0) == 1,
    ensures
        forall|j: int| 0 <= j < xs.len() && j != i ==> !f(#[trigger] xs[j]),
{
    assert forall|j: int| 0 <= j < xs.len() && j != i implies !f(#[trigger] xs[j]) by {
        if f(xs[j]) {
            if j < i {
                lemma_count_two(xs, f, 0, j, i);
            } else {
                lemma_count_two(xs, f, 0, i, j);
            }
        }
    }
}

proof fn lemma_count_zero_none<T>(xs: Seq<T>, f: spec_fn(T) -> bool)
    requires
        count_from(xs, f, 0) == 0,
    ensures
        forall|j: int| 0 <= j < xs.len() ==> !f(#[trigger] xs[j]),
{
    assert forall|j: int| 0 <= j < xs.len() implies !f(#[trigger] xs[j]) by {
        if f(xs[j]) {
            lemma_count_at_least_one(xs, f, 0, j);
        }
    }
}

/// A numeric target picks a running game by pid alone: the selected entry
/// has that pid and is the only one that does; nothing is selected
/// exactly when no entry has it; and the one entry with that pid is the
/// one selected. Names are not consulted.
pub proof fn lemma_select_running_by_pid(
    entries: Seq<RunningEntry>,
    target: Seq<char>,
    p: u32,
    r: Result<usize, SelectError>,
)
    requires
        parse_u32_spec(target) == Some(p),
        unique_index(entries, names_running(target), r),
    ensures
        r matches Ok(i) ==> entries[i as int].pid == p && forall|j: int|
            0 <= j < entries.len() && j != i ==> (#[trigger] entries[j]).pid != p,
        (r == Err::<usize, SelectError>(SelectError::NoMatch)) <==> forall|j: int|
            0 <= j < entries.len() ==> (#[trigger] entries[j]).pid != p,
        forall|i: int|
            0 <= i < entries.len() && (#[trigger] entries[i]).pid == p && (forall|j: int|
                0 <= j < entries.len() && j != i ==> entries[j].pid != p) ==> r == Ok::<usize, SelectError>(
                i as usize,
            ),
{
    let f = names_running(target);
    assert forall|e: RunningEntry| #[trigger] f(e) == (e.pid == p) by {}
    match r {
        Ok(i) => {
            lemma_count_one_unique(entries, f, i as int);
            assert forall|j: int| 0 <= j < entries.len() && j != i implies (#[trigger] entries[j]).pid != p by {
                assert(!f(entries[j]));
            }
            assert forall|k: int|
                0 <= k < entries.len() && (#[trigger] entries[k]).pid == p && (forall|j: int|
                    0 <= j < entries.len() && j != k ==> entries[j].pid != p) implies r == Ok::<usize, SelectError>(
                k as usize,
            ) by {
                if k != i {
                    assert(entries[i as int].pid == p);
                }
            }
        },
        Err(SelectError::NoMatch) => {
            lemma_count_zero_none(entries, f);
            assert forall|j: int| 0 <= j < entries.len() implies (#[trigger] entries[j]).pid != p by {
                assert(!f(entries[j]));
            }
        },
        Err(SelectError::Ambiguous) => {
            if forall|j: int| 0 <= j < entries.len() ==> (#[trigger] entries[j]).pid != p {
                assert forall|j: int| 0 <= j < entries.len() implies !f(#[trigger] entries[j]) by {}
                lemma_count_none(entries, f, 0);
            }
            assert forall|k: int|
                0 <= k < entries.len() && (#[trigger] entries[k]).pid == p && (forall|j: int|
                    0 <= j < entries.len() && j != k ==> entries[j].pid != p) implies false by {
                assert forall|j: int| 0 <= j < entries.len() && j != k implies !f(#[trigger] entries[j]) by {}
                lemma_count_single(entries, f, 0, k);
            }
        },
    }
}

} // verus!
