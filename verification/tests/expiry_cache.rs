//! The expiry cache.

use password_profile::auth_event::{
    AuthEventRing, EnqueueOutcome, EventFlags, EVENT_KIND_GRACE_CONSUMED, USABLE_CAPACITY,
};
use password_profile::expiry_cache::{
    apply_hydrated, classify, clear_entry, grace_event_generation, hydrate_expiry_from_db,
    hydration_ready, lookup, prepare_rows, prepared_entry, set_entry, set_state,
    shared_memory_bytes, state, stats, try_consume_grace, ExpiryCache, ExpiryCacheState,
    ExpiryDecision, ExpiryEntry, ExpiryRow, GraceOutcome, EXPIRY_CACHE_SIZE,
};
use password_profile::lock_cache::CacheOpStatus;
use password_profile::username::{encode_username, LOCK_USERNAME_BYTES};
use password_profile::worker_health::{durable_degraded_since, WorkerHealth};

fn entry(tag: u8, must_change_by: i64, generation: i64, grace: i32) -> ExpiryEntry {
    let mut username = [0u8; LOCK_USERNAME_BYTES];
    username[0] = tag;
    ExpiryEntry {
        username,
        must_change_by,
        generation,
        grace_remaining: grace,
    }
}

const NOW: i64 = 1_000_000;

fn ready_cache() -> Box<ExpiryCache> {
    let mut cache = Box::new(ExpiryCache::new());
    set_state(&mut cache, ExpiryCacheState::Ready);
    cache
}

#[test]
fn classify_covers_every_state() {
    assert_eq!(
        classify(&entry(1, NOW + 1, 1, 0), NOW),
        ExpiryDecision::NotExpired
    );
    assert_eq!(
        classify(&entry(1, NOW - 1, 1, 2), NOW),
        ExpiryDecision::ExpiredWithGrace
    );
    assert_eq!(
        classify(&entry(1, NOW - 1, 1, 0), NOW),
        ExpiryDecision::ExpiredNoGrace
    );
    // Exactly at the boundary counts as expired: `must_change_by > now` is
    // the "still valid" test.
    assert_eq!(
        classify(&entry(1, NOW, 1, 0), NOW),
        ExpiryDecision::ExpiredNoGrace
    );
}

#[test]
fn expiry_cache_unknown_raw_state_maps_to_not_ready() {
    assert_eq!(ExpiryCacheState::from_raw(0), ExpiryCacheState::NotReady);
    assert_eq!(ExpiryCacheState::from_raw(1), ExpiryCacheState::Ready);
    assert_eq!(ExpiryCacheState::from_raw(2), ExpiryCacheState::Overflow);
    assert_eq!(
        ExpiryCacheState::from_raw(3),
        ExpiryCacheState::WorkerFailed
    );
    assert_eq!(ExpiryCacheState::from_raw(-5), ExpiryCacheState::NotReady);
    assert_eq!(ExpiryCacheState::from_raw(77), ExpiryCacheState::NotReady);
}

#[test]
fn negative_grace_is_clamped_in_prepared_entries() {
    let e = prepared_entry("bob", NOW, NOW, -3);
    assert_eq!(e.grace_remaining, 0);
}

#[test]
fn only_a_ready_cache_answers() {
    let mut cache = Box::new(ExpiryCache::new());
    assert_eq!(set_entry(&mut cache, &encode_username("alice"), NOW - 1, 3, 2), CacheOpStatus::Applied);
    assert_eq!(
        lookup(Some(&cache), "alice", NOW),
        ExpiryDecision::CacheUnavailable
    );
    assert_eq!(lookup(None, "alice", NOW), ExpiryDecision::CacheUnavailable);
    set_state(&mut cache, ExpiryCacheState::Ready);
    assert_eq!(
        lookup(Some(&cache), "alice", NOW),
        ExpiryDecision::ExpiredWithGrace
    );
    assert_eq!(lookup(Some(&cache), "bob", NOW), ExpiryDecision::NoRow);
}

#[test]
fn entries_of_other_names_are_spared() {
    let mut cache = ready_cache();
    let alice = encode_username("alice");
    let bob = encode_username("bob");
    assert_eq!(
        set_entry(&mut cache, &alice, NOW + 5, 1, 0),
        CacheOpStatus::Applied
    );
    assert_eq!(set_entry(&mut cache, &bob, NOW - 5, 1, 0), CacheOpStatus::Applied);
    assert_eq!(set_entry(&mut cache, &alice, NOW - 5, 2, 1), CacheOpStatus::Applied);
    assert_eq!(
        lookup(Some(&cache), "alice", NOW),
        ExpiryDecision::ExpiredWithGrace
    );
    assert_eq!(clear_entry(&mut cache, &alice), CacheOpStatus::Applied);
    assert_eq!(lookup(Some(&cache), "alice", NOW), ExpiryDecision::NoRow);
    assert_eq!(
        lookup(Some(&cache), "bob", NOW),
        ExpiryDecision::ExpiredNoGrace
    );
    assert_eq!(stats(Some(&cache)).unwrap().used, 1);
}

#[test]
fn full_expiry_cache_overflows_without_evicting_anybody() {
    let mut cache = ready_cache();
    for i in 0..EXPIRY_CACHE_SIZE {
        let name = encode_username(&format!("user{}", i));
        assert_eq!(
            set_entry(&mut cache, &name, NOW + 1, 1, 0),
            CacheOpStatus::Applied
        );
    }
    assert_eq!(
        set_entry(&mut cache, &encode_username("late"), NOW, 1, 0),
        CacheOpStatus::Overflowed
    );
    assert_eq!(state(Some(&cache)), ExpiryCacheState::Overflow);
    set_state(&mut cache, ExpiryCacheState::Ready);
    assert_eq!(
        lookup(Some(&cache), "user0", NOW),
        ExpiryDecision::NotExpired
    );
    assert_eq!(lookup(Some(&cache), "late", NOW), ExpiryDecision::NoRow);
}

#[test]
fn grace_login_costs_exactly_one_and_is_recorded() {
    let mut cache = ready_cache();
    let mut ring = Box::new(AuthEventRing::new());
    let mut health = WorkerHealth::new();
    assert_eq!(set_entry(&mut cache, &encode_username("alice"), NOW - 1, 424, 1), CacheOpStatus::Applied);
    assert_eq!(set_entry(&mut cache, &encode_username("bob"), NOW - 1, 9, 5), CacheOpStatus::Applied);
    assert_eq!(grace_event_generation(&cache, "alice", NOW), Some(424));

    let r = try_consume_grace(
        &mut cache,
        &mut ring,
        &mut health,
        "alice",
        NOW,
        EventFlags::clearing_login_attempts(),
        Some([4; 16]),
        NOW + 2,
        true,
    );
    assert_eq!(r.outcome, GraceOutcome::Consumed);
    assert!(!r.queue_warn);
    let (_, event) = ring.claim().unwrap();
    assert_eq!(event.kind, EVENT_KIND_GRACE_CONSUMED);
    assert_eq!(event.generation, 424);
    assert_eq!(event.flags, 1);
    assert_eq!(event.timestamp, NOW + 2);
    assert_eq!(
        lookup(Some(&cache), "alice", NOW),
        ExpiryDecision::ExpiredNoGrace
    );
    assert_eq!(
        lookup(Some(&cache), "bob", NOW),
        ExpiryDecision::ExpiredWithGrace
    );

    // The allowance is used up now.
    let again = try_consume_grace(
        &mut cache,
        &mut ring,
        &mut health,
        "alice",
        NOW,
        EventFlags::none(),
        Some([5; 16]),
        NOW,
        true,
    );
    assert_eq!(again.outcome, GraceOutcome::NoGrace);
    assert_eq!(ring.depth(), 1);
}

#[test]
fn unrecorded_grace_login_costs_nothing() {
    let mut cache = ready_cache();
    let mut ring = Box::new(AuthEventRing::new());
    let mut health = WorkerHealth::new();
    assert_eq!(set_entry(&mut cache, &encode_username("alice"), NOW - 1, 424, 1), CacheOpStatus::Applied);
    let r = try_consume_grace(
        &mut cache,
        &mut ring,
        &mut health,
        "alice",
        NOW,
        EventFlags::none(),
        Some([4; 16]),
        NOW,
        false,
    );
    assert_eq!(r.outcome, GraceOutcome::Unavailable);
    assert!(r.queue_warn);
    assert_eq!(
        lookup(Some(&cache), "alice", NOW),
        ExpiryDecision::ExpiredWithGrace
    );
    assert_eq!(durable_degraded_since(Some(&health)), Some(NOW));
}

#[test]
fn grace_login_in_a_full_ring_still_counts_because_it_is_durable() {
    let mut cache = ready_cache();
    let mut ring = Box::new(AuthEventRing::new());
    let mut health = WorkerHealth::new();
    for i in 0..USABLE_CAPACITY {
        let step = ring.try_enqueue([1; 16], encode_username("x"), i as i64, 1, 0, 0);
        assert_eq!(step.outcome, EnqueueOutcome::Enqueued);
    }
    assert_eq!(set_entry(&mut cache, &encode_username("alice"), NOW - 1, 1, 1), CacheOpStatus::Applied);
    let r = try_consume_grace(
        &mut cache,
        &mut ring,
        &mut health,
        "alice",
        NOW,
        EventFlags::none(),
        Some([4; 16]),
        NOW,
        true,
    );
    assert_eq!(r.outcome, GraceOutcome::Consumed);
    assert!(r.queue_warn);
}

#[test]
fn grace_is_not_needed_for_a_valid_password() {
    let mut cache = ready_cache();
    let mut ring = Box::new(AuthEventRing::new());
    let mut health = WorkerHealth::new();
    assert_eq!(set_entry(&mut cache, &encode_username("alice"), NOW + 1, 1, 1), CacheOpStatus::Applied);
    assert_eq!(grace_event_generation(&cache, "alice", NOW), None);
    let valid = try_consume_grace(
        &mut cache,
        &mut ring,
        &mut health,
        "alice",
        NOW,
        EventFlags::none(),
        Some([4; 16]),
        NOW,
        true,
    );
    assert_eq!(valid.outcome, GraceOutcome::NotNeeded);
    let unknown = try_consume_grace(
        &mut cache,
        &mut ring,
        &mut health,
        "bob",
        NOW,
        EventFlags::none(),
        Some([4; 16]),
        NOW,
        true,
    );
    assert_eq!(unknown.outcome, GraceOutcome::NotNeeded);
    assert_eq!(ring.depth(), 0);
    set_state(&mut cache, ExpiryCacheState::NotReady);
    let unready = try_consume_grace(
        &mut cache,
        &mut ring,
        &mut health,
        "alice",
        NOW,
        EventFlags::none(),
        Some([4; 16]),
        NOW,
        true,
    );
    assert_eq!(unready.outcome, GraceOutcome::Unavailable);
}

#[test]
fn expiry_hydration_takes_complete_rows_only() {
    let rows = vec![
        ExpiryRow {
            username: Some("alice".to_string()),
            must_change_by: Some(NOW - 1),
            last_changed: Some(5),
            grace_logins_remaining: Some(2),
        },
        ExpiryRow {
            username: Some("bob".to_string()),
            must_change_by: None,
            last_changed: Some(5),
            grace_logins_remaining: Some(2),
        },
    ];
    let prepared = prepare_rows(&rows);
    assert_eq!(prepared.len(), 1);
    assert_eq!(prepared[0].generation, 5);

    let mut cache = Box::new(ExpiryCache::new());
    assert_eq!(
        hydrate_expiry_from_db(&mut cache, Some((1, rows))),
        Ok((1, 1, 0))
    );
    assert_eq!(state(Some(&cache)), ExpiryCacheState::Ready);
    assert_eq!(
        lookup(Some(&cache), "alice", NOW),
        ExpiryDecision::ExpiredWithGrace
    );
    let s = stats(Some(&cache)).unwrap();
    assert_eq!((s.capacity, s.used, s.free), (2048, 1, 2047));
    assert_eq!((s.hydration_rows, s.hydration_overflow, s.state), (1, 0, 1));
}

#[test]
fn expiry_hydration_that_does_not_fit_is_an_overflow() {
    let mut cache = ready_cache();
    assert_eq!(set_entry(&mut cache, &encode_username("stale"), NOW, 1, 0), CacheOpStatus::Applied);
    let total = EXPIRY_CACHE_SIZE as i64 + 1;
    assert_eq!(
        hydrate_expiry_from_db(&mut cache, Some((total, Vec::new()))),
        Ok((total, 0, total))
    );
    assert_eq!(state(Some(&cache)), ExpiryCacheState::Overflow);
    assert_eq!(stats(Some(&cache)).unwrap().used, 0);
}

#[test]
fn expiry_hydration_needs_database_and_table() {
    assert_eq!(
        hydration_ready(false),
        Err("expiry cache hydration skipped: no database context")
    );
    assert_eq!(hydration_ready(true), Ok(()));
    let mut cache = Box::new(ExpiryCache::new());
    assert_eq!(
        hydrate_expiry_from_db(&mut cache, None),
        Err("expiry cache hydration skipped: password_profile.password_expiry not available")
    );
}

#[test]
fn applying_prepared_entries_counts_them() {
    let mut cache = Box::new(ExpiryCache::new());
    let prepared = vec![prepared_entry("alice", 1, 2, 3), prepared_entry("bob", 4, 5, 6)];
    assert_eq!(
        apply_hydrated(&mut cache, &prepared, 2, 0, ExpiryCacheState::Ready),
        2
    );
    assert_eq!(cache.entries[1].must_change_by, 4);
    assert_eq!(cache.entries[2], ExpiryEntry::empty());
}

#[test]
fn expiry_cache_memory_holds_all_entries() {
    assert_eq!(shared_memory_bytes(), std::mem::size_of::<ExpiryCache>());
    assert_eq!(stats(None), None);
    assert_eq!(state(None), ExpiryCacheState::NotReady);
}
