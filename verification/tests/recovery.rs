use kukuri::recovery::{
    probe_should_hydrate, recovery_backoff_delay_ms, saturating_add_i64, RecoveryOutcome,
    SubscriptionRecovery, SubscriptionRecoveryBackoff,
};

#[test]
fn backoff_delays_are_three_ten_then_thirty_seconds() {
    assert_eq!(recovery_backoff_delay_ms(0), 3_000);
    assert_eq!(recovery_backoff_delay_ms(1), 10_000);
    assert_eq!(recovery_backoff_delay_ms(2), 30_000);
    let mut backoff = SubscriptionRecoveryBackoff::default();
    assert!(backoff.ready(0));
    backoff.schedule(1_000);
    assert_eq!(backoff.next_retry_at_ms(), 4_000);
    assert_eq!(backoff.step(), 1);
    assert!(!backoff.ready(3_999));
    assert!(backoff.ready(4_000));
    backoff.schedule(4_000);
    assert_eq!(backoff.next_retry_at_ms(), 14_000);
    backoff.schedule(14_000);
    assert_eq!(backoff.next_retry_at_ms(), 44_000);
    assert_eq!(backoff.step(), 2);
    backoff.schedule(44_000);
    assert_eq!(backoff.next_retry_at_ms(), 74_000);
    assert_eq!(backoff.step(), 2);
}

#[test]
fn backoff_reset_allows_an_immediate_restart() {
    let mut backoff = SubscriptionRecoveryBackoff::new();
    backoff.schedule(10);
    backoff.schedule(20);
    backoff.reset();
    assert_eq!(backoff.next_retry_at_ms(), 0);
    assert_eq!(backoff.step(), 0);
    assert!(backoff.ready(0));
}

#[test]
fn refused_restart_changes_nothing() {
    let mut backoff = SubscriptionRecoveryBackoff::new();
    assert!(backoff.begin_restart(100));
    let before = backoff;
    assert!(!backoff.begin_restart(101));
    assert_eq!(backoff, before);
    assert!(backoff.begin_restart(3_100));
    assert_eq!(backoff.next_retry_at_ms(), 13_100);
}

#[test]
fn schedule_saturates_at_the_end_of_time() {
    let mut backoff = SubscriptionRecoveryBackoff::new();
    backoff.schedule(i64::MAX - 1);
    assert_eq!(backoff.next_retry_at_ms(), i64::MAX);
    assert_eq!(saturating_add_i64(i64::MIN, -5), i64::MIN);
    assert_eq!(saturating_add_i64(7, -5), 2);
}

#[test]
fn subscription_start_schedules_the_first_probe_after_the_grace_period() {
    let recovery = SubscriptionRecovery::start(true, 1_000);
    assert_eq!(recovery.probe_due_at_ms(), 4_000);
    assert!(!recovery.probe_due(3_999));
    assert!(recovery.probe_due(4_000));
    let private = SubscriptionRecovery::start(false, 1_000);
    assert!(!private.probe_due(10_000));
}

#[test]
fn remote_doc_event_on_public_topic_records_activity() {
    let mut recovery = SubscriptionRecovery::start(true, 0);
    let outcome = recovery.on_doc_event(2, true, 5_000);
    assert_eq!(
        outcome,
        RecoveryOutcome { record_docs_activity: true, mark_synced: true, restart_replica_sync: false }
    );
    assert_eq!(recovery.probe_due_at_ms(), 8_000);
}

#[test]
fn empty_doc_event_restarts_with_backoff() {
    let mut recovery = SubscriptionRecovery::start(false, 0);
    assert!(recovery.doc_event_needs_full_hydration(0));
    assert!(!recovery.doc_event_needs_full_hydration(1));
    let first = recovery.on_doc_event(0, false, 100);
    assert!(first.restart_replica_sync);
    let second = recovery.on_doc_event(0, false, 200);
    assert!(!second.restart_replica_sync);
    assert_eq!(recovery.backoff_state().next_retry_at_ms(), 3_100);
    let public = SubscriptionRecovery::start(true, 0);
    assert!(!public.doc_event_needs_full_hydration(0));
}

#[test]
fn hint_miss_postpones_the_probe_and_success_resets_backoff() {
    let mut recovery = SubscriptionRecovery::start(true, 0);
    assert!(recovery.hint_needs_full_hydration(0));
    let miss = recovery.on_hint(0, true, 1_000);
    assert!(miss.restart_replica_sync);
    assert_eq!(recovery.probe_due_at_ms(), 4_000);
    let hit = recovery.on_hint(1, false, 2_000);
    assert_eq!(
        hit,
        RecoveryOutcome { record_docs_activity: false, mark_synced: true, restart_replica_sync: false }
    );
    assert_eq!(recovery.backoff_state().next_retry_at_ms(), 0);
    assert_eq!(recovery.probe_due_at_ms(), 4_000);
}

#[test]
fn probe_runs_only_with_docs_assist_or_configured_peers() {
    assert!(!probe_should_hydrate(true, true, 0));
    assert!(!probe_should_hydrate(false, false, 0));
    assert!(probe_should_hydrate(false, true, 0));
    assert!(probe_should_hydrate(true, false, 2));
    let mut recovery = SubscriptionRecovery::start(true, 0);
    let found = recovery.on_probe(3, 1, 5_000);
    assert!(found.record_docs_activity && found.mark_synced);
    assert_eq!(recovery.probe_due_at_ms(), 8_000);
    let none = recovery.on_probe(0, 0, 9_000);
    assert!(none.restart_replica_sync && !none.mark_synced);
    assert_eq!(recovery.probe_due_at_ms(), 12_000);
}
