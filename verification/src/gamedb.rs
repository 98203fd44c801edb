//! GAMEID lookup against the umu-database CSV.
use vstd::prelude::*;

use crate::text::{contains_spec, eq_ignore_ascii_case, eq_ignore_ascii_case_spec, spec_to_lowercase, str_contains, to_lowercase};

verus! {

/// Name for the records the `csv` crate reads from a CSV text with a header
/// row: each data row's fields, rows it cannot read left out.
pub uninterp spec fn spec_csv_records(text: Seq<char>) -> Seq<Seq<Seq<char>>>;

/// The data rows of a CSV text with a header row, read by the `csv` crate
/// (rows it fails to read are skipped); the result is named by
/// `spec_csv_records`.
#[verifier::external_body]
pub(crate) fn csv_records(text: &str) -> (r: Vec<Vec<String>>)
    ensures
        r@.map_values(|row: Vec<String>| crate::launch::strings(row@)) == spec_csv_records(text@),
{
    let mut reader = csv::Reader::from_reader(text.as_bytes());
    reader.records().flatten().map(|rec| rec.iter().map(|f| f.to_string()).collect()).collect()
}

/// A row whose title (column 0) equals the query, ignoring ASCII case; only
/// rows with an id column (3) count.
pub open spec fn title_match(row: Seq<Seq<char>>, query: Seq<char>) -> bool {
    row.len() > 3 && eq_ignore_ascii_case_spec(row[0], query)
}

/// A row whose non-empty exe strings (column 6), lowercased, contain the
/// lowercased query; only rows with an id column (3) count.
pub open spec fn exe_match(row: Seq<Seq<char>>, query: Seq<char>) -> bool {
    row.len() > 6 && row[6].len() > 0 && contains_spec(spec_to_lowercase(row[6]), spec_to_lowercase(query))
}

/// The id of the first row from `i` on whose title matches.
pub open spec fn find_title_from(rows: Seq<Seq<Seq<char>>>, query: Seq<char>, i: int) -> Option<Seq<char>>
    decreases rows.len() - i,
{
    if i < 0 || i >= rows.len() {
        None
    } else if title_match(rows[i], query) {
        Some(rows[i][3])
    } else {
        find_title_from(rows, query, i + 1)
    }
}

/// The id of the first row from `i` on whose exe strings match.
pub open spec fn find_exe_from(rows: Seq<Seq<Seq<char>>>, query: Seq<char>, i: int) -> Option<Seq<char>>
    decreases rows.len() - i,
{
    if i < 0 || i >= rows.len() {
        None
    } else if exe_match(rows[i], query) {
        Some(rows[i][3])
    } else {
        find_exe_from(rows, query, i + 1)
    }
}

/// An exact title match anywhere wins; else the first exe-strings match.
pub open spec fn lookup_spec(rows: Seq<Seq<Seq<char>>>, query: Seq<char>) -> Option<Seq<char>> {
    match find_title_from(rows, query, 0) {
        Some(id) => Some(id),
        None => find_exe_from(rows, query, 0),
    }
}

/// Looks up a UMU_ID for `query` among the database rows.
pub fn lookup_gameid_in_rows(rows: &[Vec<String>], query: &str) -> (r: Option<String>)
    ensures
        crate::config::opt_view(r) == lookup_spec(rows@.map_values(|row: Vec<String>| crate::launch::strings(row@)), query@),
{
    let ghost rs = rows@.map_values(|row: Vec<String>| crate::launch::strings(row@));
    let query_lower = to_lowercase(query);
    let mut exe: Option<String> = None;
    let mut i: usize = 0;
    while i < rows.len()
        invariant
            i <= rows@.len(),
            rs == rows@.map_values(|row: Vec<String>| crate::launch::strings(row@)),
            query_lower@ == spec_to_lowercase(query@),
            find_title_from(rs, query@, 0) == find_title_from(rs, query@, i as int),
            match exe {
                Some(v) => find_exe_from(rs, query@, 0) == Some(v@),
                None => find_exe_from(rs, query@, 0) == find_exe_from(rs, query@, i as int),
            },
        decreases rows@.len() - i,
    {
        let row = &rows[i];
        assert(rs[i as int] == crate::launch::strings(row@));
        if row.len() > 3 {
            assert(rs[i as int][0] == row@[0]@);
            if eq_ignore_ascii_case(row[0].as_str(), query) {
                assert(rs[i as int][3] == row@[3]@);
                return Some(row[3].clone());
            }
            if exe.is_none() && row.len() > 6 && !row[6].as_str().is_empty() {
                let lowered = to_lowercase(row[6].as_str());
                if str_contains(lowered.as_str(), query_lower.as_str()) {
                    assert(rs[i as int][6] == row@[6]@);
                    assert(rs[i as int][3] == row@[3]@);
                    exe = Some(row[3].clone());
                }
            }
        }
        i = i + 1;
    }
    exe
}

/// Looks up a UMU_ID for `query` (the profile's title, else the exe's file
/// stem) in the cached database text: an exact title match first (ASCII
/// case ignored), then a substring match against the exe strings.
pub fn lookup_gameid(cache: &str, query: &str) -> (r: Option<String>)
    ensures
        crate::config::opt_view(r) == lookup_spec(spec_csv_records(cache@), query@),
{
    let rows = csv_records(cache);
    lookup_gameid_in_rows(&rows, query)
}

/// Whether the cached database needs a fresh download: it is missing (no
/// age known), or older than `interval_days`.
pub fn is_stale(age_nanos: Option<u128>, interval_days: u32) -> (r: bool)
    ensures
        r == (match age_nanos {
            None => true,
            Some(a) => a > interval_days * 86400 * 1_000_000_000,
        }),
{
    match age_nanos {
        None => true,
        Some(a) => {
            let limit: u128 = (interval_days as u128) * 86400u128 * 1_000_000_000u128;
            a > limit
        },
    }
}


/// A title equal to the query when ASCII letters are compared without case.
pub open spec fn same_title(title: Seq<char>, query: Seq<char>) -> bool {
    title.len() == query.len() && forall|j: int| 0 <= j < title.len() ==> crate::text::ascii_lower(#[trigger] title[j])
        == crate::text::ascii_lower(query[j])
}

proof fn lemma_title_from(rows: Seq<Seq<Seq<char>>>, query: Seq<char>, i: int, k: int)
    requires
        0 <= i <= k < rows.len(),
        rows[k].len() > 3,
        same_title(rows[k][0], query),
        forall|j: int| 0 <= j < k ==> !(#[trigger] rows[j].len() > 3 && same_title(rows[j][0], query)),
    ensures
        find_title_from(rows, query, i) == Some(rows[k][3]),
    decreases k - i,
{
    if i < k {
        assert(!(rows[i].len() > 3 && same_title(rows[i][0], query)));
        lemma_title_from(rows, query, i + 1, k);
    }
}

/// The GAMEID lookup takes the first row whose title equals the query
/// (ASCII case ignored): that row's UMU_ID, whatever other rows' titles or
/// exe strings merely contain.
pub proof fn lemma_lookup_prefers_exact_title(rows: Seq<Seq<Seq<char>>>, query: Seq<char>, k: int)
    requires
        0 <= k < rows.len(),
        rows[k].len() > 3,
        same_title(rows[k][0], query),
        forall|j: int| 0 <= j < k ==> !(#[trigger] rows[j].len() > 3 && same_title(rows[j][0], query)),
    ensures
        lookup_spec(rows, query) == Some(rows[k][3]),
{
    lemma_title_from(rows, query, 0, k);
}

proof fn lemma_no_title_from(rows: Seq<Seq<Seq<char>>>, query: Seq<char>, i: int)
    requires
        0 <= i,
        forall|j: int| 0 <= j < rows.len() ==> !(#[trigger] rows[j].len() > 3 && same_title(rows[j][0], query)),
    ensures
        find_title_from(rows, query, i) is None,
    decreases rows.len() - i,
{
    if i < rows.len() {
        assert(!(rows[i].len() > 3 && same_title(rows[i][0], query)));
        lemma_no_title_from(rows, query, i + 1);
    }
}

proof fn lemma_exe_from(rows: Seq<Seq<Seq<char>>>, query: Seq<char>, i: int)
    requires
        0 <= i,
    ensures
        find_exe_from(rows, query, i) matches Some(id) ==> exists|j: int|
            i <= j < rows.len() && (#[trigger] rows[j]).len() > 6 && rows[j][6].len() > 0 && contains_spec(
                spec_to_lowercase(rows[j][6]),
                spec_to_lowercase(query),
            ) && id == rows[j][3],
    decreases rows.len() - i,
{
    if i < rows.len() && !exe_match(rows[i], query) {
        lemma_exe_from(rows, query, i + 1);
    }
}

/// Without a row whose title equals the query, a GAMEID found is the
/// UMU_ID of a row whose non-empty exe strings, lowercased, contain the
/// lowercased query.
pub proof fn lemma_lookup_falls_back_to_exe_strings(rows: Seq<Seq<Seq<char>>>, query: Seq<char>)
    requires
        forall|j: int| 0 <= j < rows.len() ==> !(#[trigger] rows[j].len() > 3 && same_title(rows[j][0], query)),
    ensures
        lookup_spec(rows, query) matches Some(id) ==> exists|j: int|
            0 <= j < rows.len() && (#[trigger] rows[j]).len() > 6 && rows[j][6].len() > 0 && contains_spec(
                spec_to_lowercase(rows[j][6]),
                spec_to_lowercase(query),
            ) && id == rows[j][3],
{
    lemma_no_title_from(rows, query, 0);
    lemma_exe_from(rows, query, 0);
}

} // verus!
