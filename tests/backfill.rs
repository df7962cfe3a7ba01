use whitenoise::backfill::{BackfillTask, Identity};
use whitenoise::relay::TransportError;

fn identity(last_synced: u64) -> Identity {
    Identity { pubkey: "ab12".to_string(), active: true, last_synced }
}

#[test]
fn backfill_failure_keeps_watermark() {
    let id = identity(1000);
    let task = BackfillTask::new(&id, 5000);
    assert_eq!(task.since(), 1000);
    assert!(task.finish(Err(TransportError), true, identity(1000)).is_none());
}

#[test]
fn backfill_success_advances_watermark_to_fetch_start() {
    let id = identity(1000);
    let task = BackfillTask::new(&id, 5000);
    assert_eq!(task.pubkey(), "ab12");
    let saved = task.finish(Ok(()), true, identity(1000)).unwrap();
    assert_eq!(saved.last_synced, 5000);
    assert!(saved.last_synced >= 5000);
    assert_eq!(saved.pubkey, "ab12");
    assert!(saved.active);
}

#[test]
fn backfill_rerun_after_failure_fetches_same_window() {
    let id = identity(42);
    let first = BackfillTask::new(&id, 100);
    assert!(first.finish(Err(TransportError), true, identity(42)).is_none());
    let second = BackfillTask::new(&id, 200);
    assert_eq!(second.since(), first.since());
}

#[test]
fn backfill_with_refused_events_keeps_watermark() {
    let task = BackfillTask::new(&identity(10), 50);
    assert!(task.finish(Ok(()), false, identity(10)).is_none());
}

#[test]
fn backfill_never_moves_watermark_back() {
    let task = BackfillTask::new(&identity(900), 500);
    let saved = task.finish(Ok(()), true, identity(900)).unwrap();
    assert_eq!(saved.last_synced, 900);
}
