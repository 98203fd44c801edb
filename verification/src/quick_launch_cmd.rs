//! The quick-launch command line for a Steam shortcut's "Target" field.
use vstd::prelude::*;

use crate::text::concat;

verus! {

/// `"<exe>" <slug>`.
pub open spec fn command_for_spec(exe: Seq<char>, slug: Seq<char>) -> Seq<char> {
    seq!['"'] + exe + seq!['"', ' '] + slug
}

/// The quick-launch command line: the quoted binary path followed by the
/// slug.
pub fn command_for(exe: &str, slug: &str) -> (r: String)
    ensures
        r@ == command_for_spec(exe@, slug@),
{
    proof {
        reveal_strlit("\"");
        reveal_strlit("\" ");
    }
    let mut r = concat("\"", exe);
    r.append("\" ");
    r.append(slug);
    assert(r@ =~= command_for_spec(exe@, slug@));
    r
}

} // verus!
