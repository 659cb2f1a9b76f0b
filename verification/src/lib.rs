//! Verified core of a feed relay: it decides which freshly fetched post of a
//! subscribed feed is new, turns the post into a channel-ready notification,
//! and advances the per-feed deduplication marker, while the unverified shell
//! around it does the fetching, delivering and persisting.

pub mod detector;
pub mod formatter;
pub mod model;
pub mod normalize;
pub mod numbers;
pub mod response;
pub mod scheduler;
pub mod text;
