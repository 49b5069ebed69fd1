//! Which of the documents that come with the service describe a collection.

use vstd::prelude::*;

use crate::text::{same_text, split, split_text, views};

verus! {

/// Name of the directory that holds the items of a collection.
pub const ITEMS_DIRECTORY: &'static str = "items";

/// A segment of the path is the items directory.
pub open spec fn below_items(path: Seq<char>) -> bool {
    exists|at: int|
        0 <= at < split(path, '/').len() && #[trigger] split(path, '/')[at] == ITEMS_DIRECTORY@
}

/// Whether the document at `path` describes a collection: it does unless
/// a segment of the path is the items directory.
pub fn describes_collection(path: &str) -> (collection: bool)
    ensures
        collection == !below_items(path@),
{
    let segments = split_text(path, '/');
    let mut at: usize = 0;
    while at < segments.len()
        invariant
            at <= segments.len(),
            views(segments@) == split(path@, '/'),
            forall|j: int| 0 <= j < at ==> #[trigger] split(path@, '/')[j] != ITEMS_DIRECTORY@,
        decreases segments.len() - at,
    {
        if same_text(segments[at].as_str(), ITEMS_DIRECTORY) {
            assert(views(segments@)[at as int] == segments@[at as int]@);
            return false;
        }
        assert(views(segments@)[at as int] == segments@[at as int]@);
        at += 1;
    }
    true
}

} // verus!
