use cafe_relay::detector::is_new;
use cafe_relay::model::{
    CandidatePost, DedupMarker, FeedKind, Subscription,
};
use cafe_relay::response::{ApiDocument, FetchError};
use cafe_relay::scheduler::{
    conclude_store_write, evaluate_fetch, plan_subscription, settle_delivery, SkipReason,
    SubOutcome, SweepState, SweepStep,
};

fn subscription(marker: DedupMarker) -> Subscription {
    Subscription {
        community: 10,
        channel: 77,
        kind: FeedKind::User,
        feed_id: String::from("f1"),
        tag_filter: None,
        mention_role: None,
        marker,
    }
}

fn candidate(id: &str, timestamp: i64) -> CandidatePost {
    CandidatePost {
        id: String::from(id),
        timestamp,
        account_name: String::from("Ada"),
        account_alias: String::from("ada"),
        account_avatar: String::from("https://example.invalid/a.png"),
        cafe: None,
        body: String::from("hello"),
        tag: None,
        attachments: Vec::new(),
    }
}

fn marker(id: &str, timestamp: i64) -> DedupMarker {
    DedupMarker { last_post_id: String::from(id), last_post_timestamp: timestamp }
}

#[test]
fn not_found_is_skipped_with_marker_untouched() {
    let sub = subscription(marker("5", 1000));
    let step = plan_subscription(&sub, &Err(FetchError::NotFound));
    assert!(matches!(
        step,
        SweepStep::Skipped(SkipReason::FetchFailed(FetchError::NotFound))
    ));

    // The sweep records the skip without handing over a marker: the stored
    // marker stays as it was and no delivery was planned.
    let mut sweep = SweepState::start(vec![sub]);
    sweep.record(
        SubOutcome::Skipped(SkipReason::FetchFailed(FetchError::NotFound)),
        None,
    );
    assert!(sweep.finished());
    assert_eq!(sweep.subs[0].marker.last_post_id, "5");
    assert_eq!(sweep.subs[0].marker.last_post_timestamp, 1000);
    assert_eq!(sweep.outcomes.len(), 1);
}

#[test]
fn stale_candidate_is_skipped_as_not_new() {
    let sub = subscription(marker("5", 1000));
    let step = plan_subscription(&sub, &Ok(candidate("6", 999)));
    assert!(matches!(step, SweepStep::Skipped(SkipReason::NotNew)));
}

#[test]
fn new_candidate_is_planned_for_delivery() {
    let sub = subscription(marker("5", 1000));
    let step = plan_subscription(&sub, &Ok(candidate("6", 1000)));
    match step {
        SweepStep::Deliver { payload, marker } => {
            assert_eq!(payload.title, "Ada (@ada)");
            assert_eq!(marker.last_post_id, "6");
            assert_eq!(marker.last_post_timestamp, 1000);
        }
        SweepStep::Skipped(_) => panic!("expected a delivery"),
    }
}

#[test]
fn failed_delivery_keeps_marker_and_retries_next_sweep() {
    let sub = subscription(marker("5", 1000));
    let c = candidate("6", 1000);
    let step = plan_subscription(&sub, &Ok(c.clone()));
    let new_marker = match step {
        SweepStep::Deliver { marker, .. } => marker,
        SweepStep::Skipped(_) => panic!("expected a delivery"),
    };

    // The sink refuses: no marker is released for persisting.
    assert!(settle_delivery(false, new_marker.clone()).is_none());
    let mut sweep = SweepState::start(vec![sub]);
    sweep.record(SubOutcome::DeliveryFailed, None);
    assert_eq!(sweep.subs[0].marker.last_post_id, "5");

    // Next sweep re-evaluates the same candidate: still new.
    assert!(is_new(&sweep.subs[0].marker, &c));

    // Had the sink accepted, the marker would have been released.
    assert_eq!(
        settle_delivery(true, new_marker).map(|m| m.last_post_id),
        Some(String::from("6"))
    );
}

#[test]
fn vanished_subscription_never_halts_the_sweep() {
    // Two subscriptions; the first vanishes from the store before its
    // marker write, so the write is refused. The sweep still completes.
    let first = subscription(marker("5", 1000));
    let second = subscription(marker("9", 2000));
    let mut sweep = SweepState::start(vec![first, second]);

    let step = plan_subscription(sweep.current(), &Ok(candidate("6", 1000)));
    let new_marker = match step {
        SweepStep::Deliver { marker, .. } => marker,
        SweepStep::Skipped(_) => panic!("expected a delivery"),
    };
    let released = settle_delivery(true, new_marker).expect("marker to persist");
    let outcome = conclude_store_write(false);
    assert_eq!(outcome, SubOutcome::StoreWriteFailed);
    sweep.record(outcome, Some(released));

    // The sweep moves on to the second subscription, whose marker is
    // untouched throughout.
    assert!(!sweep.finished());
    assert_eq!(sweep.current().marker.last_post_id, "9");
    sweep.record(SubOutcome::Skipped(SkipReason::NotNew), None);
    assert!(sweep.finished());
    assert_eq!(sweep.outcomes.len(), 2);
    assert_eq!(sweep.subs[1].marker.last_post_timestamp, 2000);
}

#[test]
fn successful_store_write_concludes_delivered() {
    assert_eq!(conclude_store_write(true), SubOutcome::Delivered);
}

#[test]
fn evaluate_fetch_passes_transport_failures_through() {
    let r = evaluate_fetch(FeedKind::User, &Err(FetchError::Timeout));
    assert!(matches!(r, Err(FetchError::Timeout)));
    let r = evaluate_fetch(FeedKind::User, &Err(FetchError::Transport));
    assert!(matches!(r, Err(FetchError::Transport)));
}

#[test]
fn evaluate_fetch_classifies_documents() {
    let doc = ApiDocument { api_error: None, conversation: None };
    let r = evaluate_fetch(FeedKind::User, &Ok(doc));
    assert!(matches!(r, Err(FetchError::NotFound)));
}
