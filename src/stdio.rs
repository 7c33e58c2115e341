//! Markers that split a source file into the skeleton handed out and its solution.

use vstd::prelude::*;

verus! {

/// The tags and the delimiter that mark a skeleton and its solution.
#[derive(Debug)]
pub struct SkeletonDelimiters {
    pub skeleton_tag: String,
    pub skeleton_delimiter: String,
    pub solution_tag: String,
}

} // verus!
