//! Data model of the relay core: feed kinds, subscriptions, the per-feed
//! deduplication marker, and the candidate post fetched each sweep.

use vstd::prelude::*;

verus! {

/// Whether a subscription tracks an individual account or a community.
#[derive(Clone, Copy, PartialEq, Eq, Structural, Debug)]
pub enum FeedKind {
    User,
    Cafe,
}

/// The last delivered post of a feed: its externally assigned id (compared
/// only for equality) and its creation timestamp. The marker only advances
/// monotonically in timestamp; the id is the tie-break key.
#[derive(Clone, Debug)]
pub struct DedupMarker {
    pub last_post_id: String,
    pub last_post_timestamp: i64,
}

impl DedupMarker {
    /// The sentinel marker a subscription starts with: an id that no real
    /// post carries once a timestamp has advanced past zero.
    pub fn initial() -> (m: DedupMarker)
        ensures
            m.last_post_id@ == "0"@,
            m.last_post_timestamp == 0,
    {
        DedupMarker { last_post_id: String::from_str("0"), last_post_timestamp: 0 }
    }
}

/// A tag carried by a post: rendered as `"{emoji} {name}"` when shown.
#[derive(Clone, Debug)]
pub struct TagBadge {
    pub name: String,
    pub emoji: String,
}

/// One attachment of a post; only image-kind attachments surface a link.
#[derive(Clone, Debug)]
pub struct Attachment {
    pub kind: String,
    pub file: String,
}

/// The community context a post was written in, when it has one.
#[derive(Clone, Debug)]
pub struct CafeContext {
    pub name: String,
    pub alias: String,
}

/// The most recent post fetched for a subscription in the current sweep,
/// not yet confirmed new. Ephemeral: never persisted.
#[derive(Clone, Debug)]
pub struct CandidatePost {
    pub id: String,
    pub timestamp: i64,
    pub account_name: String,
    pub account_alias: String,
    pub account_avatar: String,
    pub cafe: Option<CafeContext>,
    pub body: String,
    pub tag: Option<TagBadge>,
    pub attachments: Vec<Attachment>,
}

/// A candidate that can be formatted for a subscription of the given kind:
/// a community feed's candidate must carry its community context.
pub open spec fn candidate_fits_kind(c: CandidatePost, kind: FeedKind) -> bool {
    kind is Cafe ==> c.cafe is Some
}

/// A community's persisted interest in one feed: its identity, the delivery
/// target, the optional mention handle, and the deduplication marker.
#[derive(Clone, Debug)]
pub struct Subscription {
    pub community: u64,
    pub channel: u64,
    pub kind: FeedKind,
    pub feed_id: String,
    pub tag_filter: Option<String>,
    pub mention_role: Option<u64>,
    pub marker: DedupMarker,
}

} // verus!
