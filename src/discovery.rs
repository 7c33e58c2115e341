//! Which walked entries are left out, and which paths are test files.

use vstd::prelude::*;

use crate::command::strings_view;
use crate::text::{contains_text, is_prefix_of, occurs_in, starts_with_text};

verus! {

/// The paths of `paths` in which `filter` occurs, in order.
pub open spec fn paths_matching(paths: Seq<Seq<char>>, filter: Seq<char>) -> Seq<Seq<char>>
    decreases paths.len(),
{
    if paths.len() == 0 {
        Seq::empty()
    } else if occurs_in(filter, paths.last()) {
        paths_matching(paths.drop_last(), filter).push(paths.last())
    } else {
        paths_matching(paths.drop_last(), filter)
    }
}

/// Whether a directory entry with this file name is left out of the walk: version-control
/// metadata, whose name starts with `.git`. An entry whose name is not valid text is kept.
pub fn should_ignore(file_name: Option<&str>) -> (r: bool)
    ensures
        r == (file_name matches Some(n) && is_prefix_of(".git"@, n@)),
{
    match file_name {
        Some(n) => starts_with_text(n, ".git"),
        None => false,
    }
}

/// The paths in which `filter` occurs, in their order.
pub fn select_test_files(paths: &Vec<String>, filter: &str) -> (r: Vec<String>)
    ensures
        strings_view(r@) == paths_matching(strings_view(paths@), filter@),
{
    let mut r: Vec<String> = Vec::new();
    let mut i: usize = 0;
    while i < paths.len()
        invariant
            i <= paths.len(),
            strings_view(r@) == paths_matching(strings_view(paths@.take(i as int)), filter@),
        decreases paths.len() - i,
    {
        let p = &paths[i];
        proof {
            assert(strings_view(paths@.take(i + 1)).drop_last() =~= strings_view(paths@.take(i as int)));
            assert(strings_view(paths@.take(i + 1)).last() == p@);
        }
        if contains_text(p.as_str(), filter) {
            r.push(p.clone());
            assert(strings_view(r@) =~= paths_matching(strings_view(paths@.take(i as int)), filter@).push(p@));
        }
        i = i + 1;
    }
    assert(paths@.take(paths.len() as int) =~= paths@);
    r
}

} // verus!
