//! One launch's log file: where it goes, what is kept, and the noise
//! filtered out of it.
use vstd::prelude::*;

use crate::config::{config_dir, path_join, path_join_spec, Effective, LogMode, RecordMode};
use crate::text::{
    chars_of, concat, contains_spec, ends_with_spec, lines, lines_spec, owned, replace_all, replace_spec,
    starts_with_spec, str_contains, str_ends_with, str_starts_with, string_of, views,
};

verus! {

/// One launch's log file, from creation through the keep/discard decision.
#[derive(Debug, Clone)]
pub struct LogSession {
    pub path: String,
    pub dir: String,
    pub slug: String,
    pub record: RecordMode,
    pub keep: u32,
}

/// The directory of one launch's log: the shared log directory in `Single`
/// mode, else `profiles/<slug>/logs` under the configuration directory.
pub open spec fn session_dir_spec(mode: LogMode, log_dir: Seq<char>, slug: Seq<char>, config_dir: Seq<char>) -> Seq<char> {
    match mode {
        LogMode::Each => path_join_spec(path_join_spec(path_join_spec(config_dir, "profiles"@), slug), "logs"@),
        LogMode::Single => log_dir,
    }
}

/// The directory of one launch's log, given the configuration directory.
pub fn session_dir_in(effective: &Effective, log_dir: &str, slug: &str, config_dir: &str) -> (r: String)
    ensures
        r@ == session_dir_spec(effective.log_mode, log_dir@, slug@, config_dir@),
{
    match effective.log_mode {
        LogMode::Each => {
            let profiles = crate::config::profiles_dir_in(config_dir);
            let own = path_join(profiles.as_str(), slug);
            proof {
                reveal_strlit("logs");
            }
            path_join(own.as_str(), "logs")
        },
        LogMode::Single => owned(log_dir),
    }
}

/// The directory of one launch's log; fails, with the message of
/// `no_home_message`, when `Each` mode needs a configuration directory and
/// none can be found.
pub fn session_dir(effective: &Effective, log_dir: &str, slug: &str) -> (r: Result<String, String>)
    ensures
        effective.log_mode == LogMode::Single ==> r is Ok && r->Ok_0@ == log_dir@,
        r is Ok ==> exists|c: Seq<char>| r->Ok_0@ == session_dir_spec(effective.log_mode, log_dir@, slug@, c),
        r is Err ==> r->Err_0@ == "could not determine home directory"@,
{
    match effective.log_mode {
        LogMode::Single => {
            let d = owned(log_dir);
            assert(d@ == session_dir_spec(effective.log_mode, log_dir@, slug@, Seq::<char>::empty()));
            Ok(d)
        },
        LogMode::Each => match config_dir() {
            Some(c) => Ok(session_dir_in(effective, log_dir, slug, c.as_str())),
            None => Err(crate::config::no_home_message()),
        },
    }
}

/// The log file name of one launch: `<slug>-<stamp>.log`.
pub open spec fn log_file_name(slug: Seq<char>, stamp: Seq<char>) -> Seq<char> {
    slug + "-"@ + stamp + ".log"@
}

impl LogSession {
    /// The session for one launch writing into `dir`, stamped `stamp`.
    pub fn new(effective: &Effective, dir: &str, slug: &str, stamp: &str) -> (r: LogSession)
        ensures
            r.path@ == path_join_spec(dir@, log_file_name(slug@, stamp@)),
            r.dir@ == dir@,
            r.slug@ == slug@,
            r.record == effective.record,
            r.keep == effective.keep,
    {
        let name = crate::text::concat3(slug, "-", stamp);
        let file = concat(name.as_str(), ".log");
        LogSession {
            path: path_join(dir, file.as_str()),
            dir: owned(dir),
            slug: owned(slug),
            record: effective.record,
            keep: effective.keep,
        }
    }

    /// The log file's path.
    pub fn path(&self) -> (r: &str)
        ensures
            r@ == self.path@,
    {
        self.path.as_str()
    }

    /// The directory holding this launch's log and its history.
    pub fn dir(&self) -> (r: &str)
        ensures
            r@ == self.dir@,
    {
        self.dir.as_str()
    }

    /// The slug the history is kept under.
    pub fn slug(&self) -> (r: &str)
        ensures
            r@ == self.slug@,
    {
        self.slug.as_str()
    }

    /// How many logs of this slug to keep.
    pub fn keep(&self) -> (r: u32)
        ensures
            r == self.keep,
    {
        self.keep
    }

    /// Whether the finished log is thrown away: only errors are recorded and
    /// the launch exited cleanly.
    pub fn discards(&self, exit_success: bool) -> (r: bool)
        ensures
            r == (self.record == RecordMode::Errors && exit_success),
    {
        match self.record {
            RecordMode::Errors => exit_success,
            _ => false,
        }
    }
}

/// Known Steam-runtime chatter: the overlay library's failed preload, and
/// its own fork bookkeeping.
pub open spec fn is_noise_spec(line: Seq<char>) -> bool {
    contains_spec(line, "gameoverlayrenderer.so"@) || contains_spec(line, "skipping destruction (fork without exec?)"@)
}

/// Recognizes known Steam-runtime chatter that clutters every log.
pub fn is_noise_line(line: &str) -> (r: bool)
    ensures
        r == is_noise_spec(line@),
{
    str_contains(line, "gameoverlayrenderer.so") || str_contains(line, "skipping destruction (fork without exec?)")
}

/// Each kept line followed by a newline.
pub open spec fn kept_lines(ls: Seq<Seq<char>>) -> Seq<char>
    decreases ls.len(),
{
    if ls.len() == 0 {
        Seq::empty()
    } else {
        kept_lines(ls.drop_last()) + (if is_noise_spec(ls.last()) {
            Seq::empty()
        } else {
            ls.last().push('\n')
        })
    }
}

/// A log's text with the noise lines removed, every remaining line ended
/// by a newline.
pub fn strip_noise_text(raw: &str) -> (r: String)
    ensures
        r@ == kept_lines(lines_spec(raw@)),
{
    let rv = chars_of(raw);
    let ls = lines(&rv);
    let ghost lv = views(ls@);
    let mut out: Vec<char> = Vec::new();
    let mut i: usize = 0;
    while i < ls.len()
        invariant
            i <= ls@.len(),
            lv == views(ls@),
            out@ == kept_lines(lv.take(i as int)),
        decreases ls@.len() - i,
    {
        assert(lv.take(i + 1).drop_last() == lv.take(i as int));
        assert(lv.take(i + 1).last() == ls@[i as int]@);
        let line = string_of(&ls[i]);
        if !is_noise_line(line.as_str()) {
            let ghost before = out@;
            out.extend_from_slice(&ls[i]);
            out.push('\n');
            assert(out@ =~= before + ls@[i as int]@.push('\n'));
        }
        i = i + 1;
    }
    assert(lv.take(ls@.len() as int) == lv);
    string_of(&out)
}

/// The current local time from the `time` crate (UTC when the local offset
/// is unknown): its RFC 3339 form, nothing when formatting fails, and the
/// same instant's Unix timestamp in decimal. Nothing is stated of either:
/// they are the clock.
#[verifier::external_body]
pub(crate) fn rfc3339_now() -> (r: (Option<String>, String)) {
    let now = time::OffsetDateTime::now_utc();
    let now = now.to_offset(time::UtcOffset::current_local_offset().unwrap_or(time::UtcOffset::UTC));
    (now.format(&time::format_description::well_known::Rfc3339).ok(), now.unix_timestamp().to_string())
}

/// A time stamp made safe for a file name: every `:` turned into `-`.
pub fn file_stamp(stamp: &str) -> (r: String)
    ensures
        r@ == replace_spec(stamp@, ":"@, "-"@),
{
    let sv = chars_of(stamp);
    let colon: Vec<char> = vec![':'];
    let dash: Vec<char> = vec!['-'];
    proof {
        reveal_strlit(":");
        reveal_strlit("-");
        assert(colon@ =~= ":"@);
        assert(dash@ =~= "-"@);
    }
    let r = replace_all(&sv, &colon, &dash);
    string_of(&r)
}

/// The stamp of a log file name: the local time in RFC 3339 form (the Unix
/// timestamp when that cannot be formatted) with `:` made `-`.
pub fn timestamp() -> (r: String)
    ensures
        exists|t: Seq<char>| r@ == replace_spec(t, ":"@, "-"@),
{
    let (formatted, unix) = rfc3339_now();
    let t = match formatted {
        Some(t) => t,
        None => unix,
    };
    file_stamp(t.as_str())
}

/// A log of this slug's history: `<slug>-...log`.
pub open spec fn is_history_log(name: Seq<char>, slug: Seq<char>) -> bool {
    starts_with_spec(name, slug + "-"@) && ends_with_spec(name, ".log"@)
}

/// `j` sorts as newer than `i`: a later modification time, or the same time
/// and a later position.
pub open spec fn newer(times: Seq<Option<u128>>, j: int, i: int) -> bool {
    match (times[j], times[i]) {
        (Some(a), Some(b)) => a > b || (a == b && j > i),
        (Some(_), None) => true,
        (None, Some(_)) => false,
        (None, None) => j > i,
    }
}

/// How many history logs among the first `n` entries are newer than `i`.
pub open spec fn newer_count(names: Seq<Seq<char>>, times: Seq<Option<u128>>, slug: Seq<char>, i: int, n: int) -> nat
    decreases n,
{
    if n <= 0 {
        0
    } else {
        newer_count(names, times, slug, i, n - 1) + (if is_history_log(names[n - 1], slug) && newer(times, n - 1, i) {
            1nat
        } else {
            0nat
        })
    }
}

/// Entry `i` is a history log beyond the `keep` newest ones.
pub open spec fn is_stale_log(names: Seq<Seq<char>>, times: Seq<Option<u128>>, slug: Seq<char>, keep: u32, i: int) -> bool {
    is_history_log(names[i], slug) && newer_count(names, times, slug, i, names.len() as int) >= keep
}

fn is_newer(times: &[Option<u128>], j: usize, i: usize) -> (r: bool)
    requires
        j < times@.len(),
        i < times@.len(),
    ensures
        r == newer(times@, j as int, i as int),
{
    match (times[j], times[i]) {
        (Some(a), Some(b)) => a > b || (a == b && j > i),
        (Some(_), None) => true,
        (None, Some(_)) => false,
        (None, None) => j > i,
    }
}

/// The history logs of `slug` beyond the `keep` newest (by modification
/// time), to be deleted; `names` and `times` describe one directory's
/// entries.
pub fn prune_victims(names: &[String], times: &[Option<u128>], slug: &str, keep: u32) -> (r: Vec<usize>)
    requires
        names@.len() == times@.len(),
    ensures
        forall|k: int| 0 <= k < r@.len() ==> r@[k] < names@.len() && is_stale_log(
            crate::launch::strings(names@),
            times@,
            slug@,
            keep,
            #[trigger] r@[k] as int,
        ),
        forall|i: int| 0 <= i < names@.len() && is_stale_log(crate::launch::strings(names@), times@, slug@, keep, i)
            ==> r@.contains(i as usize),
        forall|a: int, b: int| 0 <= a < b < r@.len() ==> r@[a] < r@[b],
{
    let ghost ns = crate::launch::strings(names@);
    let prefix = concat(slug, "-");
    let mut out: Vec<usize> = Vec::new();
    let mut i: usize = 0;
    while i < names.len()
        invariant
            i <= names@.len(),
            names@.len() == times@.len(),
            ns == crate::launch::strings(names@),
            prefix@ == slug@ + "-"@,
            forall|k: int| 0 <= k < out@.len() ==> out@[k] < i && is_stale_log(ns, times@, slug@, keep, #[trigger] out@[k] as int),
            forall|x: int| 0 <= x < i && is_stale_log(ns, times@, slug@, keep, x) ==> out@.contains(x as usize),
            forall|a: int, b: int| 0 <= a < b < out@.len() ==> out@[a] < out@[b],
        decreases names@.len() - i,
    {
        assert(ns[i as int] == names@[i as int]@);
        let is_log = str_starts_with(names[i].as_str(), prefix.as_str()) && str_ends_with(names[i].as_str(), ".log");
        if is_log {
            let mut count: u64 = 0;
            let mut j: usize = 0;
            while j < names.len()
                invariant
                    j <= names@.len(),
                    i < names@.len(),
                    names@.len() == times@.len(),
                    ns == crate::launch::strings(names@),
                    prefix@ == slug@ + "-"@,
                    count == newer_count(ns, times@, slug@, i as int, j as int),
                    count <= j,
                decreases names@.len() - j,
            {
                assert(ns[j as int] == names@[j as int]@);
                let jl = str_starts_with(names[j].as_str(), prefix.as_str()) && str_ends_with(names[j].as_str(), ".log");
                if jl && is_newer(times, j, i) {
                    count = count + 1;
                }
                j = j + 1;
            }
            if count >= keep as u64 {
                let ghost before = out@;
                out.push(i);
                assert(forall|x: int| 0 <= x < before.len() ==> out@[x] == before[x]);
                assert(out@[before.len() as int] == i);
            }
        }
        i = i + 1;
    }
    out
}


/// `name` is `slug`, a `-`, then anything, ending in `.log`.
pub open spec fn own_log_name(name: Seq<char>, slug: Seq<char>) -> bool {
    &&& name.len() >= slug.len() + 1
    &&& name.subrange(0, slug.len() as int) == slug
    &&& name[slug.len() as int] == '-'
    &&& name.len() >= 4
    &&& name.subrange(name.len() - 4, name.len() as int) == ".log"@
}

/// A log of this slug's history is exactly a file named `<slug>-...log`.
pub proof fn lemma_history_log_names(name: Seq<char>, slug: Seq<char>)
    ensures
        is_history_log(name, slug) <==> own_log_name(name, slug),
{
    reveal_strlit("-");
    reveal_strlit(".log");
    let d = slug + "-"@;
    assert(d.len() == slug.len() + 1);
    if starts_with_spec(name, d) {
        let pre = name.subrange(0, slug.len() + 1int);
        assert(pre == d);
        assert(name.subrange(0, slug.len() as int) =~= d.subrange(0, slug.len() as int));
        assert(d.subrange(0, slug.len() as int) =~= slug);
        assert(name[slug.len() as int] == pre[slug.len() as int]);
        assert(d[slug.len() as int] == '-');
    }
    if name.len() >= slug.len() + 1 && name.subrange(0, slug.len() as int) == slug && name[slug.len() as int] == '-' {
        assert(name.subrange(0, slug.len() + 1int) =~= d);
    }
}

proof fn lemma_newer_count_same(
    names: Seq<Seq<char>>,
    names2: Seq<Seq<char>>,
    times: Seq<Option<u128>>,
    slug: Seq<char>,
    i: int,
    n: int,
)
    requires
        names.len() == names2.len(),
        n <= names.len(),
        forall|j: int| 0 <= j < names.len() ==> (#[trigger] is_history_log(names[j], slug)) == is_history_log(names2[j], slug),
    ensures
        newer_count(names, times, slug, i, n) == newer_count(names2, times, slug, i, n),
    decreases n,
{
    if n > 0 {
        lemma_newer_count_same(names, names2, times, slug, i, n - 1);
        assert(is_history_log(names[n - 1], slug) == is_history_log(names2[n - 1], slug));
    }
}

/// Pruning a slug's logs only looks at that slug's own `<slug>-...log`
/// files: a victim is always one of them, and renaming any file that is
/// not one (say `portal2-3.log` next to `portal`'s logs) into another that
/// is not one either changes no victim.
pub proof fn lemma_prune_sees_only_own_logs(
    names: Seq<Seq<char>>,
    names2: Seq<Seq<char>>,
    times: Seq<Option<u128>>,
    slug: Seq<char>,
    keep: u32,
)
    requires
        names.len() == names2.len(),
        forall|j: int|
            0 <= j < names.len() ==> names[j] == names2[j] || (!own_log_name(#[trigger] names[j], slug)
                && !own_log_name(names2[j], slug)),
    ensures
        forall|i: int| 0 <= i < names.len() && is_stale_log(names, times, slug, keep, i) ==> own_log_name(
            #[trigger] names[i],
            slug,
        ),
        forall|i: int|
            0 <= i < names.len() ==> #[trigger] is_stale_log(names, times, slug, keep, i) == is_stale_log(
                names2,
                times,
                slug,
                keep,
                i,
            ),
{
    assert forall|j: int| 0 <= j < names.len() implies (#[trigger] is_history_log(names[j], slug)) == is_history_log(
        names2[j],
        slug,
    ) by {
        lemma_history_log_names(names[j], slug);
        lemma_history_log_names(names2[j], slug);
    }
    assert forall|i: int| 0 <= i < names.len() && is_stale_log(names, times, slug, keep, i) implies own_log_name(
        #[trigger] names[i],
        slug,
    ) by {
        lemma_history_log_names(names[i], slug);
    }
    assert forall|i: int| 0 <= i < names.len() implies #[trigger] is_stale_log(names, times, slug, keep, i)
        == is_stale_log(names2, times, slug, keep, i) by {
        lemma_newer_count_same(names, names2, times, slug, i, names.len() as int);
        assert(is_history_log(names[i], slug) == is_history_log(names2[i], slug));
    }
}

} // verus!
