//! The worker's decisions and its health.

use password_profile::auth_event::{
    AuthEventRing, ClaimToken, EventFlags, EventKind, QueueState, SharedAuthEvent,
    EVENT_KIND_FAILURE, EVENT_KIND_GRACE_CONSUMED,
};
use password_profile::bypass_cache;
use password_profile::bypass_cache::{BypassCache, BypassCacheState};
use password_profile::expiry_cache;
use password_profile::expiry_cache::{ExpiryCache, ExpiryCacheState};
use password_profile::lock_cache;
use password_profile::lock_cache::{CacheState, LockCache};
use password_profile::pending_cache_op::PendingState;
use password_profile::username::encode_username;
use password_profile::worker::{
    abandon_bypass, abandon_expiry, abandon_lock, bypass_refresh_due, bypass_refresh_failed, clear_durable_degradation_if_quiet, event_effects,
    event_failure_backoff, finish_event, handle_journal_io_failure, hydration_step,
    hydration_suffices, journal_still_failing, next_retry_delay, plan_event, requirements,
    worker_left, AffectedCaches, Backoff, Consumer, DegradedByRetry, EventEffects, Gate,
    HydrationReport, HydrationStep, NextStep, RecordReply, RehydrateCause, RemovalReply,
    Requirements, RotationReply, RoundFacts, SuspendStep, Suspension, Work,
};
use password_profile::worker_health::{
    claim_warning_slot, clear_durable_degraded, durable_degraded_since, is_running,
    mark_durable_failure, mark_running, mark_stopped, shared_memory_bytes, stats, PausedReason,
    WorkerHealth, DURABLE_QUIET_PERIOD_US, NO_WARN_REASON, STOP_CONTAINED, STOP_NEVER,
    STOP_SHUTDOWN, WARN_INTERVAL_US,
};

fn caches() -> (Box<LockCache>, Box<ExpiryCache>) {
    let mut lock = Box::new(LockCache::new());
    let mut expiry = Box::new(ExpiryCache::new());
    lock_cache::set_state(&mut lock, CacheState::Ready);
    expiry_cache::set_state(&mut expiry, ExpiryCacheState::Ready);
    (lock, expiry)
}

fn healthy_round() -> RoundFacts {
    RoundFacts {
        shutdown: false,
        queue: QueueState::Healthy,
        needed: requirements(true, true),
        lock: CacheState::Ready,
        expiry: ExpiryCacheState::Ready,
        degraded_since: None,
        now: 100,
    }
}

fn event(kind: u8, flags: u8) -> SharedAuthEvent {
    let mut e = SharedAuthEvent::empty();
    e.event_id = [3; 16];
    e.username = encode_username("alice");
    e.kind = kind;
    e.flags = flags;
    e
}

#[test]
fn backoff_doubles_up_to_its_ceiling() {
    let expected = [500, 500, 1000, 2000, 4000, 8000, 16000, 30000, 30000];
    for (failures, ms) in expected.iter().enumerate() {
        assert_eq!(event_failure_backoff(failures as u32), *ms);
    }
    assert_eq!(event_failure_backoff(u32::MAX), 30000);
    assert_eq!(next_retry_delay(500), 1000);
    assert_eq!(next_retry_delay(16000), 30000);
    assert_eq!(next_retry_delay(u64::MAX), 30000);
}

#[test]
fn events_affect_only_what_they_write() {
    let none = EventFlags::none();
    let clears = EventFlags::clearing_login_attempts();
    assert_eq!(
        AffectedCaches::for_event(EventKind::Failure, none),
        AffectedCaches { lock: true, expiry: false }
    );
    assert_eq!(
        AffectedCaches::for_event(EventKind::Success, none),
        AffectedCaches { lock: true, expiry: false }
    );
    assert_eq!(
        AffectedCaches::for_event(EventKind::GraceConsumed, none),
        AffectedCaches { lock: false, expiry: true }
    );
    assert_eq!(
        AffectedCaches::for_event(EventKind::GraceConsumed, clears),
        AffectedCaches { lock: true, expiry: true }
    );
}

#[test]
fn retries_restore_exactly_what_they_took_down() {
    let (mut lock, mut expiry) = caches();
    expiry_cache::set_state(&mut expiry, ExpiryCacheState::Overflow);
    let mut d = DegradedByRetry::none();
    let both = AffectedCaches { lock: true, expiry: true };
    d.mark(both, &mut lock, &mut expiry);
    assert_eq!(d, DegradedByRetry { lock: true, expiry: false });
    assert_eq!(lock_cache::state(Some(&lock)), CacheState::WorkerFailed);
    assert_eq!(
        expiry_cache::state(Some(&expiry)),
        ExpiryCacheState::Overflow
    );
    assert!(!d.restore(&mut lock, &mut expiry));
    assert_eq!(lock_cache::state(Some(&lock)), CacheState::Ready);
    assert_eq!(
        expiry_cache::state(Some(&expiry)),
        ExpiryCacheState::Overflow
    );
    assert_eq!(d, DegradedByRetry::none());

    // What became incomplete meanwhile is reported, not repaired.
    d.mark(both, &mut lock, &mut expiry);
    lock_cache::set_state(&mut lock, CacheState::Overflow);
    assert!(d.restore(&mut lock, &mut expiry));
    assert_eq!(lock_cache::state(Some(&lock)), CacheState::Overflow);
}

#[test]
fn hydration_failures_are_counted_and_warned_about_sparingly() {
    let mut failures = 0;
    assert_eq!(
        hydration_step(HydrationReport::Complete, &mut failures),
        HydrationStep { usable: true, mark_not_ready: false, warn: false }
    );
    assert_eq!(failures, 0);
    assert_eq!(
        hydration_step(HydrationReport::Failed, &mut failures),
        HydrationStep { usable: false, mark_not_ready: true, warn: true }
    );
    assert_eq!(
        hydration_step(HydrationReport::Overflowed, &mut failures),
        HydrationStep { usable: true, mark_not_ready: false, warn: false }
    );
    assert_eq!(failures, 2);
    failures = 9;
    assert!(hydration_step(HydrationReport::Overflowed, &mut failures).warn);
    failures = u32::MAX;
    hydration_step(HydrationReport::Failed, &mut failures);
    assert_eq!(failures, u32::MAX);
}

#[test]
fn only_needed_caches_hold_the_worker_up() {
    assert_eq!(
        requirements(false, true),
        Requirements { lock: false, expiry: true }
    );
    let none = requirements(false, false);
    assert!(hydration_suffices(none, false, false));
    let lock_only = requirements(true, false);
    assert!(hydration_suffices(lock_only, true, false));
    assert!(!hydration_suffices(lock_only, false, true));
    let expiry_only = requirements(false, true);
    assert!(hydration_suffices(expiry_only, false, true));
    assert!(!hydration_suffices(expiry_only, true, false));
    let both = requirements(true, true);
    assert!(hydration_suffices(both, true, true));
    assert!(!hydration_suffices(both, true, false));
    assert!(!hydration_suffices(both, false, true));
}

#[test]
fn degradation_ends_only_after_a_quiet_period() {
    let mut health = WorkerHealth::new();
    mark_durable_failure(&mut health, 1000);
    assert!(!clear_durable_degradation_if_quiet(
        &mut health,
        Some(1000),
        1000 + DURABLE_QUIET_PERIOD_US - 1
    ));
    // A failure recorded during the hydration is not erased by it.
    mark_durable_failure(&mut health, 2000);
    assert!(!clear_durable_degradation_if_quiet(
        &mut health,
        Some(1000),
        1000 + DURABLE_QUIET_PERIOD_US
    ));
    assert_eq!(durable_degraded_since(Some(&health)), Some(2000));
    assert!(!clear_durable_degradation_if_quiet(&mut health, None, i64::MAX));
    assert!(clear_durable_degradation_if_quiet(
        &mut health,
        Some(2000),
        2000 + DURABLE_QUIET_PERIOD_US
    ));
    assert_eq!(durable_degraded_since(Some(&health)), None);
}

#[test]
fn journal_failures_pause_enforcement_and_back_off() {
    let mut health = WorkerHealth::new();
    let mut failures = 0;
    assert_eq!(
        handle_journal_io_failure(&mut health, &mut failures, 700),
        Backoff { delay_ms: 500, warn: true }
    );
    assert_eq!(durable_degraded_since(Some(&health)), Some(700));
    assert_eq!(
        handle_journal_io_failure(&mut health, &mut failures, 800),
        Backoff { delay_ms: 1000, warn: false }
    );
    journal_still_failing(&mut health, 900);
    assert_eq!(durable_degraded_since(Some(&health)), Some(900));
}

#[test]
fn rounds_are_gated() {
    let c = Consumer::new();
    assert_eq!(c.check_round(&healthy_round()), Gate::Proceed);

    let mut f = healthy_round();
    f.shutdown = true;
    f.queue = QueueState::Corrupt;
    assert_eq!(c.check_round(&f), Gate::Shutdown);
    f.shutdown = false;
    assert_eq!(c.check_round(&f), Gate::QueueUnhealthy);

    let mut f = healthy_round();
    f.queue = QueueState::Overflowed;
    f.lock = CacheState::Overflow;
    assert_eq!(c.check_round(&f), Gate::Proceed);
    f.lock = CacheState::WorkerFailed;
    assert_eq!(
        c.check_round(&f),
        Gate::Rehydrate(RehydrateCause::LockCache)
    );
    let mut retrying = Consumer::new();
    retrying.degraded.lock = true;
    assert_eq!(retrying.check_round(&f), Gate::Proceed);
    f.lock = CacheState::NotReady;
    assert_eq!(
        retrying.check_round(&f),
        Gate::Rehydrate(RehydrateCause::LockCache)
    );
    f.needed = requirements(false, false);
    assert_eq!(c.check_round(&f), Gate::Proceed);

    let mut f = healthy_round();
    f.expiry = ExpiryCacheState::NotReady;
    assert_eq!(
        c.check_round(&f),
        Gate::Rehydrate(RehydrateCause::ExpiryCache)
    );
    let mut f = healthy_round();
    f.degraded_since = Some(f.now - DURABLE_QUIET_PERIOD_US + 1);
    assert_eq!(c.check_round(&f), Gate::Proceed);
    f.now += 1;
    assert_eq!(
        c.check_round(&f),
        Gate::Rehydrate(RehydrateCause::DurableRecording)
    );
}

#[test]
fn one_file_is_replayed_record_by_record() {
    let (mut lock, mut expiry) = caches();
    let mut c = Consumer::new();
    assert_eq!(c.next_work(), Work::Rotate);
    assert_eq!(
        c.on_rotation(RotationReply::NothingToReplay),
        NextStep::Idle(25)
    );
    assert_eq!(c.on_rotation(RotationReply::Corrupt), NextStep::Suspend);
    assert_eq!(c.on_rotation(RotationReply::IoFailure), NextStep::BackOff);
    c.journal_io_failures = 4;
    assert_eq!(c.on_rotation(RotationReply::Opened), NextStep::GoOn);
    assert_eq!(c.journal_io_failures, 0);
    assert_eq!(c.next_work(), Work::ReadRecord);

    let e = event(EVENT_KIND_FAILURE, 0);
    assert_eq!(c.on_record(RecordReply::Event(e)), NextStep::GoOn);
    assert_eq!(c.next_work(), Work::Process(e));

    // A rollback keeps the same event pending.
    let affects = AffectedCaches { lock: true, expiry: false };
    c.degraded.mark_lock(affects, &mut lock);
    c.degraded.mark_expiry(affects, &mut expiry);
    let backoff = c.suspend_and_backoff();
    assert_eq!(backoff, Backoff { delay_ms: 500, warn: true });
    assert_eq!(c.next_work(), Work::Process(e));
    assert_eq!(lock_cache::state(Some(&lock)), CacheState::WorkerFailed);
    assert_eq!(c.degraded, DegradedByRetry { lock: true, expiry: false });
    let mut to_restore = c.on_committed();
    assert_eq!(to_restore, DegradedByRetry { lock: true, expiry: false });
    assert!(!to_restore.restore_lock(&mut lock));
    assert!(!to_restore.restore_expiry(&mut expiry));
    assert_eq!(lock_cache::state(Some(&lock)), CacheState::Ready);
    assert_eq!(c.degraded, DegradedByRetry::none());
    assert_eq!(c.event_failures, 0);
    assert_eq!(c.next_work(), Work::ReadRecord);

    assert_eq!(c.on_record(RecordReply::Corrupt), NextStep::Suspend);
    assert_eq!(c.on_record(RecordReply::IoFailure), NextStep::BackOff);
    assert_eq!(c.on_record(RecordReply::EndOfFile), NextStep::RemoveFile);
    assert_eq!(c.next_work(), Work::Rotate);
    assert_eq!(
        c.on_removal(RemovalReply::Removed),
        NextStep::CleanReceipts
    );
    assert_eq!(c.on_removal(RemovalReply::IoFailure), NextStep::BackOff);
    assert_eq!(
        c.on_removal(RemovalReply::OtherFailure),
        NextStep::Idle(500)
    );
}

#[test]
fn interrupted_replay_applies_each_event_once_and_in_order() {
    let mut first = event(EVENT_KIND_FAILURE, 0);
    first.event_id = [1; 16];
    let mut second = event(EVENT_KIND_GRACE_CONSUMED, 1);
    second.event_id = [2; 16];
    let file = [first, second];
    let mut receipts: Vec<[u8; 16]> = Vec::new();
    let mut applied: Vec<[u8; 16]> = Vec::new();
    // The first pass is cut short after one commit; the second meets one rollback.
    let mut rollbacks = 1;
    for pass in 0..2 {
        let mut c = Consumer::new();
        let mut read = 0;
        loop {
            match c.next_work() {
                Work::Rotate => {
                    c.on_rotation(RotationReply::Opened);
                }
                Work::ReadRecord if read < file.len() => {
                    c.on_record(RecordReply::Event(file[read]));
                    read += 1;
                }
                Work::ReadRecord => {
                    assert_eq!(c.on_record(RecordReply::EndOfFile), NextStep::RemoveFile);
                    assert_eq!(applied, vec![[1; 16], [2; 16]]);
                    break;
                }
                Work::Process(e) => {
                    assert_eq!(e, file[read - 1]);
                    let plan = plan_event(&e).unwrap();
                    if pass == 1 && read == 2 && rollbacks > 0 {
                        rollbacks -= 1;
                        c.suspend_and_backoff();
                        assert_eq!(c.next_work(), Work::Process(e));
                        continue;
                    }
                    let is_new = !receipts.contains(&e.event_id);
                    let effects = event_effects(is_new, plan.kind, plan.flags);
                    if effects.record_failure || effects.persist_grace {
                        applied.push(e.event_id);
                    }
                    receipts.push(e.event_id);
                    c.on_committed();
                    if pass == 0 {
                        break;
                    }
                }
            }
        }
    }
    assert_eq!(applied, vec![[1; 16], [2; 16]]);
}

#[test]
fn first_commit_without_failures_restores_nothing() {
    let (mut lock, _) = caches();
    lock_cache::set_state(&mut lock, CacheState::WorkerFailed);
    let mut c = Consumer::new();
    let mut to_restore = c.on_committed();
    assert_eq!(to_restore, DegradedByRetry::none());
    assert!(!to_restore.restore_lock(&mut lock));
    assert_eq!(lock_cache::state(Some(&lock)), CacheState::WorkerFailed);
}

#[test]
fn exempt_roles_are_read_every_second() {
    assert!(!bypass_refresh_due(999));
    assert!(bypass_refresh_due(1000));
    let mut cache = Box::new(BypassCache::new());
    bypass_cache::set_state(&mut cache, BypassCacheState::Ready);
    bypass_refresh_failed(&mut cache);
    assert_eq!(
        bypass_cache::state(Some(&cache)),
        BypassCacheState::NotReady
    );
    // The worker goes on without it.
    assert!(hydration_suffices(requirements(true, false), true, false));
    assert_eq!(Consumer::new().check_round(&healthy_round()), Gate::Proceed);
}

#[test]
fn events_are_validated_before_anything_is_done() {
    let plan = plan_event(&event(EVENT_KIND_GRACE_CONSUMED, 1)).unwrap();
    assert_eq!(plan.username, "alice");
    assert_eq!(plan.kind, EventKind::GraceConsumed);
    assert!(plan.flags.clear_login_attempts());
    assert_eq!(plan.affects, AffectedCaches { lock: true, expiry: true });

    assert!(plan_event(&event(9, 0)).is_none());
    assert!(plan_event(&event(EVENT_KIND_FAILURE, 2)).is_none());
    let mut nameless = event(EVENT_KIND_FAILURE, 0);
    nameless.username = [0; 64];
    assert!(plan_event(&nameless).is_none());
    let mut garbled = event(EVENT_KIND_FAILURE, 0);
    garbled.username[0] = 0xff;
    assert!(plan_event(&garbled).is_none());
}

#[test]
fn effects_follow_kind_flags_and_receipt() {
    let nothing = EventEffects {
        record_failure: false,
        persist_grace: false,
        clear_attempts: false,
    };
    let clears = EventFlags::clearing_login_attempts();
    assert_eq!(
        event_effects(true, EventKind::Failure, clears),
        EventEffects { record_failure: true, ..nothing }
    );
    assert_eq!(
        event_effects(true, EventKind::Success, clears),
        EventEffects { clear_attempts: true, ..nothing }
    );
    assert_eq!(
        event_effects(true, EventKind::Success, EventFlags::none()),
        nothing
    );
    assert_eq!(
        event_effects(true, EventKind::GraceConsumed, clears),
        EventEffects { persist_grace: true, clear_attempts: true, ..nothing }
    );
    // A replayed event whose receipt exists has no effect.
    assert_eq!(event_effects(false, EventKind::Failure, clears), nothing);
    assert_eq!(
        event_effects(false, EventKind::GraceConsumed, clears),
        nothing
    );
}

#[test]
fn acknowledgement_is_staged_only_with_the_database_work() {
    let mut ring = Box::new(AuthEventRing::new());
    assert!(ring
        .try_enqueue([3; 16], encode_username("alice"), 1, EVENT_KIND_FAILURE, 0, 0)
        .outcome
        .is_durable());
    let token: ClaimToken = ring.claim().unwrap().0;
    let mut pending = PendingState::new();
    assert!(!finish_event(&mut pending, Some(token), 1, false));
    assert!(pending.is_empty());
    assert!(finish_event(&mut pending, None, 1, true));
    assert!(pending.is_empty());
    assert!(finish_event(&mut pending, Some(token), 1, true));
    assert_eq!(pending.pending_ack().unwrap().token, token);
}

#[test]
fn suspended_worker_reports_and_resumes() {
    let mut s = Suspension::new(QueueState::Corrupt);
    assert_eq!(
        s.observe(false, QueueState::Corrupt),
        SuspendStep::Wait { report: true, ms: 1000 }
    );
    for _ in 2..10 {
        assert_eq!(
            s.observe(false, QueueState::Corrupt),
            SuspendStep::Wait { report: false, ms: 1000 }
        );
    }
    assert_eq!(
        s.observe(false, QueueState::Corrupt),
        SuspendStep::Wait { report: true, ms: 1000 }
    );
    assert_eq!(
        s.observe(true, QueueState::Corrupt),
        SuspendStep::Shutdown
    );
    assert_eq!(
        s.observe(false, QueueState::Healthy),
        SuspendStep::Resume
    );
}

#[test]
fn nothing_stays_ready_when_the_worker_leaves() {
    let (mut lock, mut expiry) = caches();
    let mut bypass = Box::new(BypassCache::new());
    bypass_cache::set_state(&mut bypass, BypassCacheState::Overflow);
    let mut health = WorkerHealth::new();
    mark_running(&mut health);
    worker_left(&mut health, true);
    abandon_lock(&mut lock);
    abandon_expiry(&mut expiry);
    abandon_bypass(&mut bypass);
    assert!(!is_running(Some(&health)));
    assert_eq!(health.stop_reason, STOP_CONTAINED);
    assert_eq!(lock_cache::state(Some(&lock)), CacheState::WorkerFailed);
    assert_eq!(
        expiry_cache::state(Some(&expiry)),
        ExpiryCacheState::WorkerFailed
    );
    assert_eq!(
        bypass_cache::state(Some(&bypass)),
        BypassCacheState::Overflow
    );
}

#[test]
fn a_worker_runs_from_its_start_to_its_stop() {
    let mut health = WorkerHealth::new();
    mark_stopped(&mut health, STOP_SHUTDOWN);
    assert!(!is_running(Some(&health)));
    mark_running(&mut health);
    mark_durable_failure(&mut health, 7);
    assert!(!clear_durable_degraded(&mut health, 8));
    assert!(claim_warning_slot(&mut health, 9, PausedReason::QueueCorrupt));
    assert!(is_running(Some(&health)));
    mark_running(&mut health);
    mark_stopped(&mut health, STOP_CONTAINED);
    assert!(!is_running(Some(&health)));
}

#[test]
fn starts_and_stops_are_counted() {
    let mut health = WorkerHealth::new();
    assert_eq!(health.stop_reason, STOP_NEVER);
    assert_eq!(health.last_warn_reason, NO_WARN_REASON);
    assert!(!is_running(Some(&health)));
    assert!(!is_running(None));
    mark_running(&mut health);
    assert!(is_running(Some(&health)));
    mark_stopped(&mut health, STOP_SHUTDOWN);
    mark_running(&mut health);
    let s = stats(Some(&health)).unwrap();
    assert_eq!((s.running, s.starts, s.stops), (1, 2, 1));
    assert_eq!(s.durable_degraded, 0);
    mark_durable_failure(&mut health, 5);
    assert_eq!(stats(Some(&health)).unwrap().durable_degraded, 1);
    assert_eq!(stats(None), None);
    assert_eq!(shared_memory_bytes(), std::mem::size_of::<WorkerHealth>());
}

#[test]
fn newer_failure_survives_the_clearing_of_an_older_one() {
    let mut health = WorkerHealth::new();
    mark_durable_failure(&mut health, 10);
    mark_durable_failure(&mut health, 20);
    assert!(!clear_durable_degraded(&mut health, 10));
    assert_eq!(durable_degraded_since(Some(&health)), Some(20));
    assert!(clear_durable_degraded(&mut health, 20));
    assert_eq!(durable_degraded_since(Some(&health)), None);
    assert_eq!(durable_degraded_since(None), None);
}

#[test]
fn paused_warnings_are_spaced_unless_the_reason_changes() {
    let mut health = WorkerHealth::new();
    let start = 1_000_000_000;
    assert!(claim_warning_slot(&mut health, start, PausedReason::QueueCorrupt));
    assert!(!claim_warning_slot(&mut health, start + 1, PausedReason::QueueCorrupt));
    assert!(claim_warning_slot(&mut health, start + 2, PausedReason::DurableRecording));
    assert!(!claim_warning_slot(
        &mut health,
        start + 1 + WARN_INTERVAL_US,
        PausedReason::DurableRecording
    ));
    assert!(claim_warning_slot(
        &mut health,
        start + 2 + WARN_INTERVAL_US,
        PausedReason::DurableRecording
    ));
    assert_eq!(PausedReason::WorkerNotRunning.code(), 0);
    assert_eq!(PausedReason::QueueCorrupt.code(), 1);
    assert_eq!(PausedReason::DurableRecording.code(), 2);
}
