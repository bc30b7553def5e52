//! Relationship-gated read visibility.
//!
//! Whether one account may view content scoped to another factors in the
//! relationship state between the two: friendship, staff standing or
//! identity grants visibility, everything else is restricted unless the
//! content is explicitly public.

use vstd::prelude::*;
use crate::relationship::RelationshipState;

verus! {

/// Whether `viewer` may view content scoped to `owner`: friends, a
/// helper, or the owner personally.
pub open spec fn spec_may_view(
    viewer_id: Seq<char>,
    owner_id: Seq<char>,
    rel: RelationshipState,
    viewer_is_helper: bool,
) -> bool {
    viewer_id == owner_id || viewer_is_helper || rel == RelationshipState::Friends
}

/// Decides visibility of content scoped to `owner_id` for `viewer_id`,
/// given the stored relationship as seen by the viewer and the viewer's
/// helper standing.
pub fn may_view(
    viewer_id: &String,
    owner_id: &String,
    rel: RelationshipState,
    viewer_is_helper: bool,
) -> (r: bool)
    ensures
        r == spec_may_view(viewer_id@, owner_id@, rel, viewer_is_helper),
{
    *viewer_id == *owner_id || viewer_is_helper || rel == RelationshipState::Friends
}

/// The relationship recorded in a timeline's per-author visibility map:
/// staff and the author personally are treated as friends, everyone else
/// sees the stored state.
pub open spec fn spec_effective_relationship(
    author_id: Seq<char>,
    viewer_id: Seq<char>,
    viewer_is_helper: bool,
    stored: RelationshipState,
) -> RelationshipState {
    if viewer_is_helper || author_id == viewer_id {
        RelationshipState::Friends
    } else {
        stored
    }
}

/// The relationship entry of one timeline author, for the viewer.
pub fn effective_relationship(
    author_id: &String,
    viewer_id: &String,
    viewer_is_helper: bool,
    stored: RelationshipState,
) -> (r: RelationshipState)
    ensures
        r == spec_effective_relationship(author_id@, viewer_id@, viewer_is_helper, stored),
{
    if viewer_is_helper || *author_id == *viewer_id {
        RelationshipState::Friends
    } else {
        stored
    }
}

/// Whose notifications a request reads: a helper may name another
/// profile, anyone else reads their own.
pub fn notifications_target(viewer_id: &String, requested: &String, viewer_is_helper: bool) -> (r:
    String)
    ensures
        r@ == (if viewer_is_helper && requested@.len() > 0 {
            requested@
        } else {
            viewer_id@
        }),
{
    if viewer_is_helper && !requested.as_str().is_empty() {
        requested.clone()
    } else {
        viewer_id.clone()
    }
}

} // verus!
