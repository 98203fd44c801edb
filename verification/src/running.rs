//! Launches that are still running: their state records, and how their
//! processes are recognised from the environment each one carries.
use vstd::prelude::*;

use crate::text::{
    chars_of, concat, owned, starts_with_spec, str_eq, str_starts_with, string_of, trim_end_matches_spec,
    u64_to_string,
};

verus! {

/// The state record of one launch.
#[derive(Debug, Clone)]
pub struct RunningEntry {
    /// The pid spawned for `umu-run` itself (display and lookup only).
    pub pid: u32,
    pub name: String,
    pub target_path: String,
    pub prefix_path: String,
    /// This launch's own `IPROLAUNCH_LAUNCH_ID` value.
    pub launch_id: String,
    pub started_at: String,
}

/// A `WINEPREFIX` value belongs to the prefix at `prefix_path`: it is the
/// prefix itself (trailing `/` ignored) or something nested under it.
pub open spec fn prefix_matches_spec(prefix_path: Seq<char>, value: Seq<char>) -> bool {
    let exact = trim_end_matches_spec(prefix_path, '/');
    value == exact || starts_with_spec(value, exact + seq!['/'])
}

/// Whether a process's `WINEPREFIX` value belongs to `prefix_path`.
pub fn prefix_matches(prefix_path: &str, value: &str) -> (r: bool)
    ensures
        r == prefix_matches_spec(prefix_path@, value@),
{
    let pv = chars_of(prefix_path);
    let n = pv.len();
    let mut end: usize = n;
    assert(pv@.subrange(0, pv@.len() as int) == pv@);
    while end > 0 && pv[end - 1] == '/'
        invariant
            end <= pv@.len(),
            trim_end_matches_spec(pv@, '/') == trim_end_matches_spec(pv@.subrange(0, end as int), '/'),
        decreases end,
    {
        assert(pv@.subrange(0, end as int).drop_last() == pv@.subrange(0, end - 1));
        end = end - 1;
    }
    assert(pv@.subrange(0, pv@.len() as int) == pv@);
    let exact_v = crate::text::slice_range(&pv, 0, end);
    let exact = string_of(&exact_v);
    let nested = concat(exact.as_str(), "/");
    proof {
        reveal_strlit("/");
        assert("/"@ =~= seq!['/']);
    }
    str_eq(value, exact.as_str()) || str_starts_with(value, nested.as_str())
}

/// The pids whose `WINEPREFIX` belongs to `prefix_path`, from a list of
/// (pid, `WINEPREFIX`) pairs of running processes.
pub fn matching_pids_for_prefix(prefix_path: &str, procs: &[(u32, String)]) -> (r: Vec<u32>)
    ensures
        r@ == procs@.filter(|p: (u32, String)| prefix_matches_spec(prefix_path@, p.1@)).map_values(
            |p: (u32, String)| p.0,
        ),
{
    let mut out: Vec<u32> = Vec::new();
    let mut i: usize = 0;
    while i < procs.len()
        invariant
            i <= procs@.len(),
            out@ == procs@.take(i as int).filter(|p: (u32, String)| prefix_matches_spec(prefix_path@, p.1@)).map_values(
                |p: (u32, String)| p.0,
            ),
        decreases procs@.len() - i,
    {
        let ghost f = |p: (u32, String)| prefix_matches_spec(prefix_path@, p.1@);
        assert(procs@.take(i + 1).drop_last() == procs@.take(i as int));
        reveal(Seq::filter);
        if prefix_matches(prefix_path, procs[i].1.as_str()) {
            out.push(procs[i].0);
        }
        assert(out@ =~= procs@.take(i + 1).filter(f).map_values(|p: (u32, String)| p.0));
        i = i + 1;
    }
    assert(procs@.take(procs@.len() as int) == procs@);
    out
}

/// The pids tagged with this launch's own id, from a list of (pid,
/// `IPROLAUNCH_LAUNCH_ID`) pairs of running processes.
pub fn matching_pids_for_launch(launch_id: &str, procs: &[(u32, String)]) -> (r: Vec<u32>)
    ensures
        r@ == procs@.filter(|p: (u32, String)| p.1@ == launch_id@).map_values(|p: (u32, String)| p.0),
{
    let mut out: Vec<u32> = Vec::new();
    let mut i: usize = 0;
    while i < procs.len()
        invariant
            i <= procs@.len(),
            out@ == procs@.take(i as int).filter(|p: (u32, String)| p.1@ == launch_id@).map_values(
                |p: (u32, String)| p.0,
            ),
        decreases procs@.len() - i,
    {
        let ghost f = |p: (u32, String)| p.1@ == launch_id@;
        assert(procs@.take(i + 1).drop_last() == procs@.take(i as int));
        reveal(Seq::filter);
        if str_eq(procs[i].1.as_str(), launch_id) {
            out.push(procs[i].0);
        }
        assert(out@ =~= procs@.take(i + 1).filter(f).map_values(|p: (u32, String)| p.0));
        i = i + 1;
    }
    assert(procs@.take(procs@.len() as int) == procs@);
    out
}

/// The state record of a launch that just started, stamped with the
/// current local time in RFC 3339 form (empty when that cannot be
/// formatted).
pub fn new_entry(pid: u32, name: &str, target_path: &str, prefix_path: &str, launch_id: &str) -> (e: RunningEntry)
    ensures
        e.pid == pid,
        e.name@ == name@,
        e.target_path@ == target_path@,
        e.prefix_path@ == prefix_path@,
        e.launch_id@ == launch_id@,
{
    RunningEntry {
        pid,
        name: owned(name),
        target_path: owned(target_path),
        prefix_path: owned(prefix_path),
        launch_id: owned(launch_id),
        started_at: match crate::logging::rfc3339_now().0 {
            Some(t) => t,
            None => String::new(),
        },
    }
}

/// Whether anything at all runs against `prefix_path`, given the
/// `WINEPREFIX` values of the running processes.
pub fn is_prefix_active(prefix_path: &str, wineprefixes: &[String]) -> (r: bool)
    ensures
        r == exists|i: int| 0 <= i < wineprefixes@.len() && #[trigger] prefix_matches_spec(prefix_path@, wineprefixes@[i]@),
{
    let mut i: usize = 0;
    while i < wineprefixes.len()
        invariant
            i <= wineprefixes@.len(),
            forall|j: int| 0 <= j < i ==> !#[trigger] prefix_matches_spec(prefix_path@, wineprefixes@[j]@),
        decreases wineprefixes@.len() - i,
    {
        if prefix_matches(prefix_path, wineprefixes[i].as_str()) {
            return true;
        }
        i = i + 1;
    }
    false
}

/// The launch id of one launch: this process's pid, a dash, and a
/// nanosecond timestamp.
pub fn launch_id_from(pid: u32, nanos: u128) -> (r: String)
    ensures
        r@ == crate::text::decimal(pid as nat) + "-"@ + crate::text::decimal(nanos as nat),
{
    let p = u64_to_string(pid as u64);
    let n = crate::text::u128_to_string(nanos);
    crate::text::concat3(p.as_str(), "-", n.as_str())
}

/// Launches tagged from different (pid, time) pairs never share a launch
/// id, so one launch's id picks out its own processes only.
pub proof fn lemma_launch_ids_distinct(p1: u32, n1: u128, p2: u32, n2: u128)
    requires
        p1 != p2 || n1 != n2,
    ensures
        crate::text::decimal(p1 as nat) + "-"@ + crate::text::decimal(n1 as nat) != crate::text::decimal(p2 as nat)
            + "-"@ + crate::text::decimal(n2 as nat),
{
    let a1 = crate::text::decimal(p1 as nat);
    let a2 = crate::text::decimal(p2 as nat);
    let b1 = crate::text::decimal(n1 as nat);
    let b2 = crate::text::decimal(n2 as nat);
    reveal_strlit("-");
    crate::text::lemma_decimal_digits(p1 as nat);
    crate::text::lemma_decimal_digits(p2 as nat);
    let s1 = a1 + "-"@ + b1;
    let s2 = a2 + "-"@ + b2;
    if s1 == s2 {
        if a1.len() < a2.len() {
            assert(s1[a1.len() as int] == '-');
            assert(s2[a1.len() as int] == a2[a1.len() as int]);
            assert(crate::text::is_ascii_digit(a2[a1.len() as int]));
        } else if a2.len() < a1.len() {
            assert(s2[a2.len() as int] == '-');
            assert(s1[a2.len() as int] == a1[a2.len() as int]);
            assert(crate::text::is_ascii_digit(a1[a2.len() as int]));
        } else {
            assert(a1 =~= s1.subrange(0, a1.len() as int));
            assert(a2 =~= s2.subrange(0, a2.len() as int));
            assert(b1 =~= s1.subrange(a1.len() + 1int, s1.len() as int));
            assert(b2 =~= s2.subrange(a2.len() + 1int, s2.len() as int));
            crate::text::lemma_decimal_injective(p1 as nat, p2 as nat);
            crate::text::lemma_decimal_injective(n1 as nat, n2 as nat);
        }
    }
}

/// The file name of a launch's state record: `<pid>.json`.
pub fn state_file_name(pid: u32) -> (r: String)
    ensures
        r@ == crate::text::decimal(pid as nat) + ".json"@,
{
    let p = u64_to_string(pid as u64);
    concat(p.as_str(), ".json")
}

/// The error when `terminate` finds nothing to kill.
pub fn nothing_running_message(launch_id: &str) -> (r: String)
    ensures
        r@ == "nothing running against launch "@ + launch_id@,
{
    concat("nothing running against launch ", launch_id)
}

/// The value of `var` in a process's raw environment block (entries
/// separated by NUL bytes): the first entry that is valid UTF-8 and starts
/// with `var=`, without that prefix.
pub open spec fn environ_value_spec(entries: Seq<Seq<u8>>, var: Seq<char>) -> Option<Seq<char>>
    decreases entries.len(),
{
    if entries.len() == 0 {
        None
    } else {
        match crate::text::spec_utf8(entries[0]) {
            Some(s) if starts_with_spec(s, var + seq!['=']) => Some(s.subrange(var.len() + 1int, s.len() as int)),
            _ => environ_value_spec(entries.drop_first(), var),
        }
    }
}

/// The NUL-separated entries of an environment block (std's
/// `split(|b| b == 0)`: a trailing NUL leaves an empty last entry).
pub open spec fn nul_split(bytes: Seq<u8>) -> Seq<Seq<u8>>
    decreases bytes.len(),
{
    if bytes.len() == 0 {
        seq![Seq::empty()]
    } else {
        let rest = nul_split(bytes.drop_last());
        if bytes.last() == 0 {
            rest.push(Seq::empty())
        } else {
            rest.update(rest.len() - 1, rest.last().push(bytes.last()))
        }
    }
}

proof fn lemma_nul_split_nonempty(bytes: Seq<u8>)
    ensures
        nul_split(bytes).len() >= 1,
    decreases bytes.len(),
{
    if bytes.len() > 0 {
        lemma_nul_split_nonempty(bytes.drop_last());
    }
}

/// Splits an environment block at its NUL bytes.
pub fn split_nul(bytes: &[u8]) -> (r: Vec<Vec<u8>>)
    ensures
        r@.map_values(|v: Vec<u8>| v@) == nul_split(bytes@),
{
    let mut out: Vec<Vec<u8>> = Vec::new();
    let mut cur: Vec<u8> = Vec::new();
    let mut i: usize = 0;
    while i < bytes.len()
        invariant
            i <= bytes@.len(),
            out@.map_values(|v: Vec<u8>| v@).push(cur@) == nul_split(bytes@.take(i as int)),
        decreases bytes@.len() - i,
    {
        let ghost pre = bytes@.take(i as int);
        assert(bytes@.take(i + 1).drop_last() == pre);
        proof {
            lemma_nul_split_nonempty(pre);
        }
        let ghost before = out@;
        let ghost cb = cur@;
        if bytes[i] == 0 {
            let done = cur;
            out.push(done);
            cur = Vec::new();
            assert(out@.map_values(|v: Vec<u8>| v@) =~= before.map_values(|v: Vec<u8>| v@).push(cb));
        } else {
            cur.push(bytes[i]);
            assert(before.map_values(|v: Vec<u8>| v@).push(cur@) =~= before.map_values(|v: Vec<u8>| v@).push(cb).update(
                before.len() as int,
                cb.push(bytes@[i as int]),
            ));
        }
        assert(out@.map_values(|v: Vec<u8>| v@).push(cur@) =~= nul_split(bytes@.take(i + 1)));
        i = i + 1;
    }
    assert(bytes@.take(bytes@.len() as int) == bytes@);
    out.push(cur);
    out
}

/// The value of `var` in a raw environment block.
pub fn environ_value(environ: &[u8], var: &str) -> (r: Option<String>)
    ensures
        crate::config::opt_view(r) == environ_value_spec(nul_split(environ@), var@),
{
    let entries = split_nul(environ);
    let ghost es = entries@.map_values(|v: Vec<u8>| v@);
    assert(es == nul_split(environ@));
    let needle = concat(var, "=");
    proof {
        reveal_strlit("=");
        assert("="@ =~= seq!['=']);
    }
    let mut i: usize = 0;
    assert(es.subrange(0, es.len() as int) == es);
    while i < entries.len()
        invariant
            i <= entries@.len(),
            es == entries@.map_values(|v: Vec<u8>| v@),
            es == nul_split(environ@),
            needle@ == var@ + seq!['='],
            environ_value_spec(es, var@) == environ_value_spec(es.subrange(i as int, es.len() as int), var@),
        decreases entries@.len() - i,
    {
        let ghost rest = es.subrange(i as int, es.len() as int);
        assert(rest.drop_first() == es.subrange(i + 1, es.len() as int));
        assert(rest[0] == entries@[i as int]@);
        match crate::text::utf8_decode(&entries[i]) {
            Some(s) => {
                if str_starts_with(s.as_str(), needle.as_str()) {
                    let sv = chars_of(s.as_str());
                    let n = sv.len();
                    let kv = chars_of(needle.as_str());
                    let tail = crate::text::slice_range(&sv, kv.len(), n);
                    assert(tail@ == s@.subrange(var@.len() + 1int, s@.len() as int));
                    assert(environ_value_spec(rest, var@) == Some(tail@));
                    assert(environ_value_spec(nul_split(environ@), var@) == Some(tail@));
                    return Some(string_of(&tail));
                }
            },
            None => {},
        }
        i = i + 1;
    }
    None
}

} // verus!
