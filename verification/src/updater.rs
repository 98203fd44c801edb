//! Self-update decisions: version parsing and what GitHub's latest release
//! means for this build.
use vstd::prelude::*;

use crate::text::{chars_of, parse_u32, parse_u32_spec, split_char, split_char_spec, str_ends_with, ends_with_spec, views};

verus! {

/// A `MAJOR.MINOR.PATCH` version, an optional leading `v` stripped first;
/// pieces past the third are ignored.
pub open spec fn parse_version_spec(v: Seq<char>) -> Option<(u32, u32, u32)> {
    let body = if v.len() > 0 && v[0] == 'v' {
        v.drop_first()
    } else {
        v
    };
    let parts = split_char_spec(body, '.');
    if parts.len() >= 3 && parse_u32_spec(parts[0]) is Some && parse_u32_spec(parts[1]) is Some && parse_u32_spec(
        parts[2],
    ) is Some {
        Some((parse_u32_spec(parts[0])->0, parse_u32_spec(parts[1])->0, parse_u32_spec(parts[2])->0))
    } else {
        None
    }
}

/// Parses a `MAJOR.MINOR.PATCH`-shaped version (leading `v` allowed).
pub fn parse_version(v: &str) -> (r: Option<(u32, u32, u32)>)
    ensures
        r == parse_version_spec(v@),
{
    let vv = chars_of(v);
    let body = if vv.len() > 0 && vv[0] == 'v' {
        crate::text::slice_range(&vv, 1, vv.len())
    } else {
        crate::text::slice_range(&vv, 0, vv.len())
    };
    assert(body@ == (if v@.len() > 0 && v@[0] == 'v' {
        v@.drop_first()
    } else {
        v@
    }));
    let parts = split_char(&body, '.');
    if parts.len() < 3 {
        return None;
    }
    let major = match parse_u32(&parts[0]) {
        Some(x) => x,
        None => return None,
    };
    let minor = match parse_u32(&parts[1]) {
        Some(x) => x,
        None => return None,
    };
    let patch = match parse_u32(&parts[2]) {
        Some(x) => x,
        None => return None,
    };
    Some((major, minor, patch))
}

/// `a` is a strictly later version than `b`.
pub open spec fn version_gt(a: (u32, u32, u32), b: (u32, u32, u32)) -> bool {
    a.0 > b.0 || (a.0 == b.0 && (a.1 > b.1 || (a.1 == b.1 && a.2 > b.2)))
}

pub fn is_newer(a: (u32, u32, u32), b: (u32, u32, u32)) -> (r: bool)
    ensures
        r == version_gt(a, b),
{
    a.0 > b.0 || (a.0 == b.0 && (a.1 > b.1 || (a.1 == b.1 && a.2 > b.2)))
}

/// One downloadable file of a release.
#[derive(Debug, Clone)]
pub struct ReleaseAsset {
    pub name: String,
    pub browser_download_url: String,
}

/// GitHub's latest published release.
#[derive(Debug, Clone)]
pub struct Release {
    pub tag_name: String,
    pub assets: Vec<ReleaseAsset>,
}

/// The outcome of an update check.
#[derive(Debug, Clone, PartialEq, Eq)]
pub enum UpdateCheck {
    UpToDate { current: String },
    Available { current: String, latest: String, asset_name: String, asset_url: String },
}

/// Why an update check could not decide.
#[derive(Debug, Clone, PartialEq, Eq)]
pub enum CheckError {
    /// This build's own version does not parse.
    BadCurrent(String),
    /// The release tag does not parse.
    BadTag(String),
    /// A newer release has no `.tar.gz` asset.
    NoArchive(String),
}

/// The first asset whose name ends in `.tar.gz`.
pub open spec fn first_archive(assets: Seq<ReleaseAsset>, i: int) -> Option<int>
    decreases assets.len() - i,
{
    if i < 0 || i >= assets.len() {
        None
    } else if ends_with_spec(assets[i].name@, ".tar.gz"@) {
        Some(i)
    } else {
        first_archive(assets, i + 1)
    }
}

/// What the latest release means for a build at version `current`: an
/// error when either version does not parse, up to date unless the tag is
/// strictly newer, else the first `.tar.gz` asset (an error without one).
pub fn decide_update(current: &str, release: &Release) -> (r: Result<UpdateCheck, CheckError>)
    ensures
        parse_version_spec(current@) is None ==> (r matches Err(CheckError::BadCurrent(c)) && c@ == current@),
        parse_version_spec(current@) is Some && parse_version_spec(release.tag_name@) is None ==> (r matches Err(CheckError::BadTag(t)) && t@ == release.tag_name@),
        match (parse_version_spec(current@), parse_version_spec(release.tag_name@)) {
            (Some(c), Some(l)) => if !version_gt(l, c) {
                r matches Ok(UpdateCheck::UpToDate { current: cur }) && cur@ == current@
            } else {
                match first_archive(release.assets@, 0) {
                    Some(i) => r matches Ok(UpdateCheck::Available { current: cur, latest, asset_name, asset_url })
                        && cur@ == current@ && latest@ == release.tag_name@ && asset_name@ == release.assets@[i].name@
                        && asset_url@ == release.assets@[i].browser_download_url@,
                    None => r matches Err(CheckError::NoArchive(t)) && t@ == release.tag_name@,
                }
            },
            _ => true,
        },
{
    let cur = match parse_version(current) {
        Some(c) => c,
        None => return Err(CheckError::BadCurrent(crate::text::owned(current))),
    };
    let latest = match parse_version(release.tag_name.as_str()) {
        Some(l) => l,
        None => return Err(CheckError::BadTag(release.tag_name.clone())),
    };
    if !is_newer(latest, cur) {
        return Ok(UpdateCheck::UpToDate { current: crate::text::owned(current) });
    }
    let mut i: usize = 0;
    while i < release.assets.len()
        invariant
            i <= release.assets@.len(),
            first_archive(release.assets@, 0) == first_archive(release.assets@, i as int),
            parse_version_spec(current@) == Some(cur),
            parse_version_spec(release.tag_name@) == Some(latest),
            version_gt(latest, cur),
        decreases release.assets@.len() - i,
    {
        if str_ends_with(release.assets[i].name.as_str(), ".tar.gz") {
            return Ok(
                UpdateCheck::Available {
                    current: crate::text::owned(current),
                    latest: release.tag_name.clone(),
                    asset_name: release.assets[i].name.clone(),
                    asset_url: release.assets[i].browser_download_url.clone(),
                },
            );
        }
        i = i + 1;
    }
    Err(CheckError::NoArchive(release.tag_name.clone()))
}


/// Versions are totally ordered: of two versions exactly one is the same
/// as, newer than, or older than the other; "newer" is transitive; and
/// among versions equal up to some part, a larger major, minor or patch
/// number is newer.
pub proof fn lemma_version_order(a: (u32, u32, u32), b: (u32, u32, u32), c: (u32, u32, u32))
    ensures
        a == b ==> !version_gt(a, b),
        a != b ==> (version_gt(a, b) != version_gt(b, a)),
        version_gt(a, b) && version_gt(b, c) ==> version_gt(a, c),
        a.0 > b.0 ==> version_gt(a, b),
        a.0 == b.0 && a.1 > b.1 ==> version_gt(a, b),
        a.0 == b.0 && a.1 == b.1 && a.2 > b.2 ==> version_gt(a, b),
{
}

} // verus!
