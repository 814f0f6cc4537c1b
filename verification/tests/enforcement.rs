//! From failed logins and password changes to the logins that follow.

use password_profile::attempts::{
    clear_login_attempts_internal, record_failed_login, AttemptRow, FailedLogin, FailureFacts,
};
use password_profile::auth_event::{AuthEventRing, EventFlags, QueueState};
use password_profile::auth_journal::{decode, encode};
use password_profile::bypass_cache::BypassDecision;
use password_profile::expiry_cache::{
    lookup, try_consume_grace, ExpiryCache, ExpiryCacheState, ExpiryDecision, GraceOutcome,
};
use password_profile::history::{stage_recorded_expiry, WrittenExpiry};
use password_profile::lock_cache::{remaining_seconds, CacheState, LockCache};
use password_profile::login::{HealthFacts, Login, LoginSettings};
use password_profile::pending_cache_op::{apply_all, PendingState};
use password_profile::worker_health::WorkerHealth;
use password_profile::{expiry_cache, lock_cache};

const TOP: u32 = 1;
const NOW: i64 = 1_700_000_000_000_000;
const SECOND: i64 = 1_000_000;

const SOUND: HealthFacts = HealthFacts {
    worker_running: true,
    queue: QueueState::Healthy,
    durable_degraded: false,
};

struct Shared {
    lock: Box<LockCache>,
    expiry: Box<ExpiryCache>,
    ring: Box<AuthEventRing>,
    health: WorkerHealth,
}

fn shared() -> Shared {
    let mut s = Shared {
        lock: Box::new(LockCache::new()),
        expiry: Box::new(ExpiryCache::new()),
        ring: Box::new(AuthEventRing::new()),
        health: WorkerHealth::new(),
    };
    lock_cache::set_state(&mut s.lock, CacheState::Ready);
    expiry_cache::set_state(&mut s.expiry, ExpiryCacheState::Ready);
    s
}

fn commit(s: &mut Shared, pending: &mut PendingState, now: i64) {
    apply_all(pending, &mut s.lock, &mut s.expiry, &mut s.ring, now);
}

fn begin() -> Login {
    Login::begin(
        LoginSettings {
            in_recovery: false,
            lockout_enforced: true,
            expiry_enforced: true,
        },
        true,
        BypassDecision::NotBypassed,
        true,
        SOUND,
        CacheState::Ready,
        ExpiryCacheState::Ready,
    )
    .unwrap()
}

fn fail(s: &mut Shared, row: Option<AttemptRow>, now: i64) -> Option<AttemptRow> {
    let mut pending = PendingState::new();
    let facts = FailureFacts {
        has_database: true,
        is_superuser: false,
        bypassed: false,
        max_fails: 3,
        lockout_minutes: 2,
        row,
        now,
        clock: now,
    };
    let outcome = record_failed_login(&mut pending, TOP, "alice", &facts).unwrap();
    commit(s, &mut pending, now);
    match outcome {
        FailedLogin::Recorded(row) => Some(row),
        _ => None,
    }
}

fn refused_for(s: &Shared, now: i64) -> Option<i32> {
    begin().lockout_refusal(remaining_seconds(&s.lock, "alice", now), None)
}

#[test]
fn the_failure_that_reaches_the_limit_locks_the_account() {
    let mut s = shared();
    let mut row = None;
    for i in 0..2 {
        row = fail(&mut s, row, NOW + i * SECOND);
        assert_eq!(refused_for(&s, NOW + i * SECOND), None);
    }
    row = fail(&mut s, row, NOW + 2 * SECOND);
    let until = NOW + 2 * SECOND + 120 * SECOND;
    assert_eq!(row.unwrap().lockout_until, Some(until));
    assert_eq!(refused_for(&s, NOW + 2 * SECOND), Some(120));
    assert_eq!(refused_for(&s, until - 1), Some(1));
    assert_eq!(refused_for(&s, until), None);
    assert_eq!(remaining_seconds(&s.lock, "bob", NOW + 2 * SECOND), None);
}

#[test]
fn a_forced_clear_admits_again() {
    let mut s = shared();
    let mut row = None;
    for _ in 0..3 {
        row = fail(&mut s, row, NOW);
    }
    assert_eq!(refused_for(&s, NOW), Some(120));
    let rows = vec![row.unwrap().lockout_until];
    let mut pending = PendingState::new();
    clear_login_attempts_internal(&mut pending, TOP, "alice", &rows, false, NOW, NOW).unwrap();
    commit(&mut s, &mut pending, NOW);
    assert_eq!(refused_for(&s, NOW), Some(120));
    clear_login_attempts_internal(&mut pending, TOP, "alice", &rows, true, NOW, NOW).unwrap();
    commit(&mut s, &mut pending, NOW);
    assert_eq!(refused_for(&s, NOW), None);
}

#[test]
fn a_changed_password_expires_after_its_grace_logins() {
    let mut s = shared();
    let mut pending = PendingState::new();
    let due = NOW + 90 * 86_400 * SECOND;
    let written = WrittenExpiry { last_changed: NOW, must_change_by: due, grace_logins: 2 };
    stage_recorded_expiry(&mut pending, TOP, "alice", 90, Some(written)).unwrap();
    commit(&mut s, &mut pending, NOW);
    assert_eq!(lookup(Some(&s.expiry), "alice", due - 1), ExpiryDecision::NotExpired);
    for i in 0..2 {
        let now = due + i * SECOND;
        let mut l = begin();
        assert!(l.on_expiry(lookup(Some(&s.expiry), "alice", now)));
        let grace = try_consume_grace(
            &mut s.expiry,
            &mut s.ring,
            &mut s.health,
            "alice",
            now,
            EventFlags::none(),
            Some([7; 16]),
            now,
            true,
        );
        assert_eq!(grace.outcome, GraceOutcome::Consumed);
        l.on_grace(grace);
        assert!(!l.exit(SOUND).refuse_expired);
    }
    let mut l = begin();
    assert!(!l.on_expiry(lookup(Some(&s.expiry), "alice", due + 2 * SECOND)));
    assert!(l.exit(SOUND).refuse_expired);
    assert_eq!(s.ring.depth(), 2);
    // Every event that was admitted can be written to the journal and read back.
    let (_, event) = s.ring.claim().unwrap();
    let read = decode(&encode(&event)).unwrap();
    assert_eq!(read.event_id, event.event_id);
    assert_eq!(read.username, event.username);
    assert_eq!(read.timestamp, event.timestamp);
    assert_eq!(read.kind, event.kind);
    assert_eq!(read.generation, NOW);
}
