//! Ancestors of a path.

use vstd::prelude::*;
use crate::task::text_of;

verus! {

/// What `std::path::Path::parent` yields for the path: the path without its
/// final component, or nothing where the path ends in a root or is empty.
pub uninterp spec fn path_parent(path: Seq<char>) -> Option<Seq<char>>;

/// Calls `std::path::Path::parent`. Taken on trust: the result depends on
/// the text of the path alone, by the path syntax of the platform the
/// library is built for.
#[verifier::external_body]
fn parent_of(path: &str) -> (parent: Option<String>)
    ensures
        text_of(parent) == path_parent(path@),
{
    std::path::Path::new(path).parent().map(|p| p.to_string_lossy().into_owned())
}

/// How many levels the "go back" key climbs from the selected entry.
pub const BACK_LEVELS: usize = 2;

/// The ancestor `levels` above the path, if the path has that many.
pub open spec fn ancestor(path: Seq<char>, levels: nat) -> Option<Seq<char>>
    decreases levels,
{
    if levels == 0 {
        Some(path)
    } else {
        match path_parent(path) {
            Some(parent) => ancestor(parent, (levels - 1) as nat),
            None => None,
        }
    }
}

/// The ancestor two levels up is the parent of the parent, and is missing
/// exactly when the path or its parent has no parent.
pub proof fn lemma_grandparent(path: Seq<char>)
    ensures
        ancestor(path, 2) == match path_parent(path) {
            Some(parent) => path_parent(parent),
            None => None,
        },
{
    reveal_with_fuel(ancestor, 3);
}

/// The ancestor `levels` above the path, if the path has that many.
pub fn ancestor_of(path: &str, levels: usize) -> (found: Option<String>)
    ensures
        text_of(found) == ancestor(path@, levels as nat),
{
    let mut at: String = path.to_owned();
    let mut left: usize = levels;
    while left > 0
        invariant
            ancestor(at@, left as nat) == ancestor(path@, levels as nat),
        decreases left,
    {
        match parent_of(at.as_str()) {
            Some(parent) => {
                at = parent;
                left = left - 1;
            },
            None => {
                return None;
            },
        }
    }
    Some(at)
}

} // verus!
