//! The lock cache.

use password_profile::lock_cache;
use password_profile::lock_cache::{
    apply_hydrated_entries, clear, counts, decision_for, decision_from_db, hydrate_from_db,
    hydration_ready, prepare_rows, remaining_seconds, remaining_seconds_ceil, set_state,
    shared_memory_bytes, state, CacheDecision, CacheOpStatus, CacheState, HydrationStats, LockCache,
    LockEntry, LockRow, LOCK_CACHE_SIZE, MICROS_PER_SEC,
};
use password_profile::username::encode_username;

const NOW: i64 = 1_700_000_000_000_000;

#[test]
fn one_microsecond_remaining_is_still_locked() {
    assert_eq!(remaining_seconds_ceil(NOW + 1, NOW), Some(1));
}

#[test]
fn just_under_one_second_is_still_locked() {
    assert_eq!(remaining_seconds_ceil(NOW + 999_999, NOW), Some(1));
}

#[test]
fn exactly_one_second() {
    assert_eq!(remaining_seconds_ceil(NOW + MICROS_PER_SEC, NOW), Some(1));
}

#[test]
fn just_over_one_second_rounds_up() {
    assert_eq!(
        remaining_seconds_ceil(NOW + MICROS_PER_SEC + 1, NOW),
        Some(2)
    );
}

#[test]
fn expired_and_exactly_now_are_not_locked() {
    assert_eq!(remaining_seconds_ceil(NOW, NOW), None);
    assert_eq!(remaining_seconds_ceil(NOW - 1, NOW), None);
}

#[test]
fn infinity_does_not_overflow() {
    assert!(remaining_seconds_ceil(i64::MAX, NOW).unwrap() > 0);
}

#[test]
fn widest_span_is_counted_exactly() {
    assert_eq!(
        remaining_seconds_ceil(i64::MAX, i64::MIN),
        Some(18_446_744_073_710)
    );
}

#[test]
fn test_lock_cache_decision_populates_cache() {
    let mut cache = Box::new(LockCache::new());
    let now = NOW;
    let lockout_until = now + 2 * 60 * MICROS_PER_SEC;

    let encoded = encode_username("lock_user_stats");
    match decision_from_db(true, Some(lockout_until), now).unwrap() {
        CacheDecision::SetLock(expires_at) => {
            let status = lock_cache::set(&mut cache, &encoded, expires_at, now);
            assert_eq!(status, CacheOpStatus::Applied);
        }
        CacheDecision::ClearLock => {
            panic!("expected an active lockout decision")
        }
    }

    let remaining = remaining_seconds(&cache, "lock_user_stats", now);
    assert!(remaining.unwrap_or(0) > 0);
    assert_eq!(remaining, Some(120));

    assert_eq!(clear(&mut cache, &encoded), CacheOpStatus::Applied);
    assert_eq!(remaining_seconds(&cache, "lock_user_stats", now), None);
}

#[test]
fn decision_follows_the_timestamp() {
    assert_eq!(decision_for(Some(11), 10), CacheDecision::SetLock(11));
    assert_eq!(decision_for(Some(10), 10), CacheDecision::ClearLock);
    assert_eq!(decision_for(None, 10), CacheDecision::ClearLock);
    assert_eq!(
        decision_from_db(false, Some(11), 10),
        Err("lock cache decision skipped: no database context")
    );
}

#[test]
fn setting_one_name_spares_the_others() {
    let mut cache = Box::new(LockCache::new());
    let alice = encode_username("alice");
    let bob = encode_username("bob");
    assert_eq!(lock_cache::set(&mut cache, &alice, NOW + 5 * MICROS_PER_SEC, NOW), CacheOpStatus::Applied);
    assert_eq!(lock_cache::set(&mut cache, &bob, NOW + 7 * MICROS_PER_SEC, NOW), CacheOpStatus::Applied);
    assert_eq!(lock_cache::set(&mut cache, &alice, NOW + 9 * MICROS_PER_SEC, NOW), CacheOpStatus::Applied);
    assert_eq!(remaining_seconds(&cache, "alice", NOW), Some(9));
    assert_eq!(remaining_seconds(&cache, "bob", NOW), Some(7));
    assert_eq!(clear(&mut cache, &alice), CacheOpStatus::Applied);
    assert_eq!(remaining_seconds(&cache, "alice", NOW), None);
    assert_eq!(remaining_seconds(&cache, "bob", NOW), Some(7));
    assert_eq!(counts(Some(&cache), NOW).unwrap().used, 1);
}

#[test]
fn full_cache_overflows_without_evicting_anybody() {
    let mut cache = Box::new(LockCache::new());
    set_state(&mut cache, CacheState::Ready);
    for i in 0..LOCK_CACHE_SIZE {
        let name = encode_username(&format!("user{}", i));
        assert_eq!(
            lock_cache::set(&mut cache, &name, NOW + MICROS_PER_SEC, NOW),
            CacheOpStatus::Applied
        );
    }
    let late = encode_username("late");
    assert_eq!(
        lock_cache::set(&mut cache, &late, NOW + MICROS_PER_SEC, NOW),
        CacheOpStatus::Overflowed
    );
    assert_eq!(state(Some(&cache)), CacheState::Overflow);
    assert_eq!(remaining_seconds(&cache, "late", NOW), None);
    assert_eq!(remaining_seconds(&cache, "user0", NOW), Some(1));
    assert_eq!(remaining_seconds(&cache, "user2047", NOW), Some(1));

    // An expired entry's slot may be taken over.
    let mut cache = Box::new(LockCache::new());
    for i in 0..LOCK_CACHE_SIZE {
        let name = encode_username(&format!("user{}", i));
        let until = if i == 100 { NOW } else { NOW + MICROS_PER_SEC };
        assert_eq!(lock_cache::set(&mut cache, &name, until, NOW - 1), CacheOpStatus::Applied);
    }
    assert_eq!(
        lock_cache::set(&mut cache, &late, NOW + MICROS_PER_SEC, NOW),
        CacheOpStatus::Applied
    );
    assert_eq!(remaining_seconds(&cache, "late", NOW), Some(1));
    assert_eq!(remaining_seconds(&cache, "user100", NOW), None);
    assert_eq!(remaining_seconds(&cache, "user99", NOW), Some(1));
}

#[test]
fn hydration_replaces_what_was_there() {
    let mut cache = Box::new(LockCache::new());
    assert_eq!(lock_cache::set(&mut cache, &encode_username("stale"), NOW + MICROS_PER_SEC, NOW), CacheOpStatus::Applied);
    let rows = vec![
        LockRow {
            username: Some("alice".to_string()),
            lockout_until: Some(NOW + 3 * MICROS_PER_SEC),
        },
        LockRow {
            username: None,
            lockout_until: Some(NOW + MICROS_PER_SEC),
        },
        LockRow {
            username: Some("bob".to_string()),
            lockout_until: None,
        },
    ];
    let stats = hydrate_from_db(&mut cache, Some((1, rows)), NOW).unwrap();
    assert_eq!(
        stats,
        HydrationStats {
            active_total: 1,
            loaded: 1,
            overflow: 0
        }
    );
    assert_eq!(state(Some(&cache)), CacheState::Ready);
    assert_eq!(remaining_seconds(&cache, "alice", NOW), Some(3));
    assert_eq!(remaining_seconds(&cache, "stale", NOW), None);
    assert_eq!(remaining_seconds(&cache, "bob", NOW), None);
}

#[test]
fn hydration_that_does_not_fit_is_an_overflow() {
    let mut cache = Box::new(LockCache::new());
    let total = LOCK_CACHE_SIZE as i64 + 2;
    let stats = hydrate_from_db(&mut cache, Some((total, Vec::new())), NOW).unwrap();
    assert_eq!(stats.overflow, total);
    assert_eq!(state(Some(&cache)), CacheState::Overflow);
    let c = counts(Some(&cache), NOW).unwrap();
    assert_eq!(c.state, 2);
    assert_eq!(c.hydration_overflow, total);
    assert_eq!(c.hydration_active_total, total);
}

#[test]
fn hydration_needs_database_cache_and_table() {
    assert_eq!(
        hydration_ready(false, true),
        Err("lock cache hydration skipped: no database context")
    );
    assert_eq!(
        hydration_ready(true, false),
        Err("lock cache hydration skipped: shared cache not initialized")
    );
    assert_eq!(hydration_ready(true, true), Ok(()));
    let mut cache = Box::new(LockCache::new());
    assert!(matches!(
        hydrate_from_db(&mut cache, None, NOW),
        Err("lock cache hydration skipped: password_profile.login_attempts not available")
    ));
    assert_eq!(state(Some(&cache)), CacheState::NotReady);
}

#[test]
fn preparing_and_applying_are_the_two_halves_of_hydration() {
    let rows = vec![LockRow {
        username: Some("carol".to_string()),
        lockout_until: Some(NOW + 1),
    }];
    let prepared = prepare_rows(&rows);
    assert_eq!(prepared.len(), 1);
    assert_eq!(prepared[0].username, encode_username("carol"));
    let mut cache = Box::new(LockCache::new());
    let expired = LockEntry {
        username: encode_username("dave"),
        expires_at: NOW,
    };
    let both = vec![prepared[0], expired];
    assert_eq!(
        apply_hydrated_entries(&mut cache, &both, 2, 0, CacheState::Ready, NOW),
        1
    );
    assert_eq!(remaining_seconds(&cache, "carol", NOW), Some(1));
    let c = counts(Some(&cache), NOW).unwrap();
    assert_eq!((c.active, c.used, c.hydration_loaded), (1, 1, 1));
}

#[test]
fn lock_cache_states_are_normalized() {
    assert_eq!(CacheState::from_raw(0), CacheState::NotReady);
    assert_eq!(CacheState::from_raw(1), CacheState::Ready);
    assert_eq!(CacheState::from_raw(2), CacheState::Overflow);
    assert_eq!(CacheState::from_raw(3), CacheState::WorkerFailed);
    assert_eq!(CacheState::from_raw(-7), CacheState::NotReady);
    assert_eq!(CacheState::from_raw(44), CacheState::NotReady);
    assert_eq!(CacheState::WorkerFailed.raw(), 3);
    assert_eq!(state(None), CacheState::NotReady);
    assert_eq!(counts(None, 0), None);
}

#[test]
fn lock_cache_memory_holds_all_entries() {
    assert_eq!(shared_memory_bytes(), std::mem::size_of::<LockCache>());
    assert!(shared_memory_bytes() >= LOCK_CACHE_SIZE * 72);
}
