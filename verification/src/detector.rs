//! Novelty detector: decides whether a freshly fetched candidate post is
//! new with respect to a feed's deduplication marker. The timestamp check
//! covers clock skew and reordering; the id check covers re-observation of
//! the same post at an equal timestamp.

use vstd::prelude::*;
use crate::model::{CandidatePost, DedupMarker};

verus! {

/// A candidate is new exactly when its timestamp is not behind the marker's
/// and its id differs from the marker's. Timestamp alone is insufficient
/// (ties and skew happen) and id alone is insufficient (the marker starts
/// at a sentinel id); together they give an idempotent, monotonic detector.
pub open spec fn spec_is_new(m: DedupMarker, c: CandidatePost) -> bool {
    &&& !(m.last_post_timestamp > c.timestamp)
    &&& c.id@ != m.last_post_id@
}

/// The marker recorded after `c` is delivered: `(c.id, c.timestamp)`.
pub open spec fn spec_advanced_marker(c: CandidatePost) -> DedupMarker {
    DedupMarker { last_post_id: c.id, last_post_timestamp: c.timestamp }
}

/// Decides whether `candidate` is new for a feed whose marker is `marker`.
/// Stale timestamps lose first; an equal id loses next; all else is new.
pub fn is_new(marker: &DedupMarker, candidate: &CandidatePost) -> (b: bool)
    ensures
        b == spec_is_new(*marker, *candidate),
{
    if marker.last_post_timestamp > candidate.timestamp {
        false
    } else if candidate.id == marker.last_post_id {
        false
    } else {
        true
    }
}

/// Builds the marker to persist after `candidate` was delivered.
pub fn advance_marker(candidate: &CandidatePost) -> (m: DedupMarker)
    ensures
        m == spec_advanced_marker(*candidate),
{
    DedupMarker {
        last_post_id: candidate.id.clone(),
        last_post_timestamp: candidate.timestamp,
    }
}

/// Novelty is a pure function of its inputs: two evaluations of the
/// detector on the same marker and candidate always agree.
pub proof fn lemma_is_new_idempotent(m: DedupMarker, c: CandidatePost, b1: bool, b2: bool)
    requires
        b1 == spec_is_new(m, c),
        b2 == spec_is_new(m, c),
    ensures
        b1 == b2,
{
}

/// Once a candidate's marker is persisted, that same candidate is no longer
/// new: repeated sweeps with no new upstream data never re-deliver.
pub proof fn lemma_no_redelivery(c: CandidatePost)
    ensures
        !spec_is_new(spec_advanced_marker(c), c),
{
}

/// Processing a new candidate only ever advances the marker's timestamp.
pub proof fn lemma_marker_monotonic(m: DedupMarker, c: CandidatePost)
    requires
        spec_is_new(m, c),
    ensures
        spec_advanced_marker(c).last_post_timestamp >= m.last_post_timestamp,
{
}

} // verus!
