//! Sweep scheduler decisions. The long-lived loop itself — fetching,
//! delivering, persisting, sleeping — is outside work; every decision it
//! takes between those suspension points is made here, from plain values,
//! and is verified: what a fetch outcome means, when to deliver, and when
//! the deduplication marker may advance.

use vstd::prelude::*;
use crate::detector::{advance_marker, is_new, spec_advanced_marker, spec_is_new};
use crate::formatter::{format_notification, payload_matches, NotificationPayload};
use crate::model::{candidate_fits_kind, CandidatePost, DedupMarker, FeedKind, Subscription};
use crate::response::{
    classify_response, is_err_with, spec_candidate_matches, spec_fetch_ok, spec_malformed,
    spec_nothing_found, spec_upstream_failed, ApiDocument, FetchError,
};

verus! {

/// Why a subscription produced no delivery this round.
#[derive(Clone, Copy, PartialEq, Eq, Structural, Debug)]
pub enum SkipReason {
    FetchFailed(FetchError),
    NotNew,
}

/// The scheduler's decision for one subscription after its fetch: skip, or
/// deliver this payload and then persist this marker.
#[derive(Clone, Debug)]
pub enum SweepStep {
    Skipped(SkipReason),
    Deliver { payload: NotificationPayload, marker: DedupMarker },
}

/// How one subscription's processing ended, for the sweep log. Every
/// branch of a sweep lands in one of these: no failure halts the sweep.
#[derive(Clone, Copy, PartialEq, Eq, Structural, Debug)]
pub enum SubOutcome {
    Skipped(SkipReason),
    Delivered,
    DeliveryFailed,
    StoreWriteFailed,
}

/// Turns the raw fetch outcome — a transport-level failure, or a decoded
/// document — into a classified candidate, passing transport failures
/// through untouched and classifying documents exactly as
/// `classify_response` does.
pub fn evaluate_fetch(kind: FeedKind, outcome: &Result<ApiDocument, FetchError>) -> (r: Result<
    CandidatePost,
    FetchError,
>)
    ensures
        outcome matches Err(e) ==> r matches Err(e2) && e2 == e,
        outcome matches Ok(doc) ==> {
            &&& (is_err_with(r, FetchError::UpstreamError) <==> spec_upstream_failed(*doc))
            &&& (is_err_with(r, FetchError::NotFound) <==> spec_nothing_found(*doc, kind))
            &&& (is_err_with(r, FetchError::Malformed) <==> spec_malformed(*doc, kind))
            &&& (r is Ok <==> spec_fetch_ok(*doc, kind))
            &&& (r matches Ok(c) ==> spec_candidate_matches(doc.conversation->0, c)
                && candidate_fits_kind(c, kind))
        },
{
    match outcome {
        Err(e) => Err(*e),
        Ok(doc) => classify_response(doc, kind),
    }
}

/// Decides what to do for one subscription: any fetch failure — including
/// "nothing found", which is not an error — skips with the marker
/// untouched and no delivery; a candidate that is not new skips likewise;
/// a new candidate is formatted and paired with its advanced marker.
pub fn plan_subscription(sub: &Subscription, fetch: &Result<CandidatePost, FetchError>) -> (step:
    SweepStep)
    requires
        fetch matches Ok(c) ==> candidate_fits_kind(*c, sub.kind),
    ensures
        fetch matches Err(e) ==> step == SweepStep::Skipped(SkipReason::FetchFailed(*e)),
        fetch matches Ok(c) && !spec_is_new(sub.marker, *c) ==> step == SweepStep::Skipped(
            SkipReason::NotNew,
        ),
        fetch matches Ok(c) ==> (spec_is_new(sub.marker, *c) ==> (match step {
            SweepStep::Deliver { payload, marker } => payload_matches(payload, *sub, *c) && marker
                == spec_advanced_marker(*c),
            _ => false,
        })),
{
    match fetch {
        Err(e) => SweepStep::Skipped(SkipReason::FetchFailed(*e)),
        Ok(c) => {
            if is_new(&sub.marker, c) {
                let payload = format_notification(sub, c);
                let marker = advance_marker(c);
                SweepStep::Deliver { payload, marker }
            } else {
                SweepStep::Skipped(SkipReason::NotNew)
            }
        },
    }
}

/// Settles a delivery attempt: the marker to persist is released only when
/// the sink accepted the payload. A failed delivery keeps the old marker,
/// so the same post is re-evaluated — and retried — next sweep.
pub fn settle_delivery(delivered: bool, marker: DedupMarker) -> (r: Option<DedupMarker>)
    ensures
        delivered ==> (r matches Some(m) && m == marker),
        !delivered ==> r is None,
{
    if delivered {
        Some(marker)
    } else {
        None
    }
}

/// Concludes the marker write. A refused write — the subscription may have
/// vanished from the store mid-sweep, or the store may be briefly down —
/// is an outcome, never a halt: the risk is one repeated notification next
/// sweep, a bounded, self-healing inconsistency.
pub fn conclude_store_write(write_ok: bool) -> (o: SubOutcome)
    ensures
        write_ok ==> o == SubOutcome::Delivered,
        !write_ok ==> o == SubOutcome::StoreWriteFailed,
{
    if write_ok {
        SubOutcome::Delivered
    } else {
        SubOutcome::StoreWriteFailed
    }
}

/// One sweep's bookkeeping: the snapshot of subscriptions taken at sweep
/// start, a cursor over it, and the outcome of every processed entry.
pub struct SweepState {
    pub subs: Vec<Subscription>,
    pub cursor: usize,
    pub outcomes: Vec<SubOutcome>,
}

impl SweepState {
    /// The snapshot never changes size, the cursor never passes the end,
    /// and exactly the processed entries carry an outcome.
    pub open spec fn wf(self) -> bool {
        &&& self.cursor <= self.subs@.len()
        &&& self.outcomes@.len() == self.cursor
    }

    /// Starts a sweep on the snapshot read from the store.
    pub fn start(subs: Vec<Subscription>) -> (s: SweepState)
        ensures
            s.wf(),
            s.subs@ == subs@,
            s.cursor == 0,
    {
        SweepState { subs, cursor: 0, outcomes: Vec::new() }
    }

    /// True once every snapshot entry has been processed.
    pub fn finished(&self) -> (b: bool)
        requires
            self.wf(),
        ensures
            b == (self.cursor == self.subs@.len()),
    {
        self.cursor == self.subs.len()
    }

    /// The subscription the sweep is currently at.
    pub fn current(&self) -> (sub: &Subscription)
        requires
            self.wf(),
            self.cursor < self.subs@.len(),
        ensures
            *sub == self.subs@[self.cursor as int],
    {
        &self.subs[self.cursor]
    }

    /// Records the outcome of the current subscription and moves on. Only
    /// when a marker is handed over does the current entry's marker
    /// advance; every other subscription's marker is untouched — the
    /// single-writer rule, per feed, made structural.
    pub fn record(&mut self, outcome: SubOutcome, new_marker: Option<DedupMarker>)
        requires
            old(self).wf(),
            old(self).cursor < old(self).subs@.len(),
        ensures
            final(self).wf(),
            final(self).cursor == old(self).cursor + 1,
            final(self).subs@.len() == old(self).subs@.len(),
            forall|k: int|
                0 <= k < old(self).subs@.len() && k != old(self).cursor ==> final(self).subs@[k]
                    == old(self).subs@[k],
            (match new_marker {
                Some(m) => final(self).subs@[old(self).cursor as int] == Subscription {
                    marker: m,
                    ..old(self).subs@[old(self).cursor as int]
                },
                None => final(self).subs@[old(self).cursor as int] == old(self).subs@[old(
                    self,
                ).cursor as int],
            }),
            final(self).outcomes@ == old(self).outcomes@.push(outcome),
    {
        let n = self.subs.len();
        match new_marker {
            Some(m) => {
                self.subs[self.cursor].marker = m;
            },
            None => {},
        }
        self.outcomes.push(outcome);
        proof {
            assert(self.cursor < n);
        }
        self.cursor = self.cursor + 1;
    }
}

} // verus!
