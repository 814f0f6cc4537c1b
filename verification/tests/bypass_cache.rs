//! The bypass cache.

use password_profile::bypass_cache::{
    apply_refreshed, lookup, prepare_rows, prepared_entry, refresh_bypass_cache, refresh_ready,
    set_state, shared_memory_bytes, state, stats, BypassCache, BypassCacheState, BypassDecision,
    BYPASS_CACHE_SIZE,
};

#[test]
fn bypass_cache_unknown_raw_state_maps_to_not_ready() {
    assert_eq!(BypassCacheState::from_raw(0), BypassCacheState::NotReady);
    assert_eq!(BypassCacheState::from_raw(1), BypassCacheState::Ready);
    assert_eq!(BypassCacheState::from_raw(2), BypassCacheState::Overflow);
    assert_eq!(
        BypassCacheState::from_raw(3),
        BypassCacheState::WorkerFailed
    );
    assert_eq!(BypassCacheState::from_raw(-1), BypassCacheState::NotReady);
    assert_eq!(BypassCacheState::from_raw(99), BypassCacheState::NotReady);
}

#[test]
fn prepared_entries_are_fixed_size_and_nul_padded() {
    let e = prepared_entry("maint");
    assert_eq!(&e[..5], b"maint");
    assert!(e[5..].iter().all(|&b| b == 0));
}

#[test]
fn refresh_decides_who_is_exempt() {
    let mut cache = Box::new(BypassCache::new());
    assert_eq!(lookup(Some(&cache), "maint"), BypassDecision::Unavailable);
    let rows = vec![Some("maint".to_string()), None, Some("backup".to_string())];
    assert_eq!(refresh_bypass_cache(&mut cache, 2, &rows), (2, 2, 0));
    assert_eq!(state(Some(&cache)), BypassCacheState::Ready);
    assert_eq!(lookup(Some(&cache), "maint"), BypassDecision::Bypassed);
    assert_eq!(lookup(Some(&cache), "backup"), BypassDecision::Bypassed);
    assert_eq!(lookup(Some(&cache), "alice"), BypassDecision::NotBypassed);

    // A refresh replaces the whole set.
    assert_eq!(refresh_bypass_cache(&mut cache, 0, &Vec::new()), (0, 0, 0));
    assert_eq!(lookup(Some(&cache), "maint"), BypassDecision::NotBypassed);
}

#[test]
fn only_a_ready_cache_exempts() {
    let mut cache = Box::new(BypassCache::new());
    refresh_bypass_cache(&mut cache, 1, &vec![Some("maint".to_string())]);
    set_state(&mut cache, BypassCacheState::WorkerFailed);
    assert_eq!(lookup(Some(&cache), "maint"), BypassDecision::Unavailable);
    assert_eq!(lookup(None, "maint"), BypassDecision::Unavailable);
}

#[test]
fn refresh_that_does_not_fit_is_an_overflow() {
    let mut cache = Box::new(BypassCache::new());
    let total = BYPASS_CACHE_SIZE as i64 + 3;
    let rows = vec![Some("maint".to_string())];
    assert_eq!(refresh_bypass_cache(&mut cache, total, &rows), (total, 1, total - 1));
    assert_eq!(state(Some(&cache)), BypassCacheState::Overflow);
    assert_eq!(lookup(Some(&cache), "maint"), BypassDecision::Unavailable);
    let s = stats(Some(&cache)).unwrap();
    assert_eq!((s.capacity, s.used, s.rows, s.overflow, s.state), (1024, 1, total, total - 1, 2));
    assert_eq!(stats(None), None);
}

#[test]
fn refresh_needs_a_database() {
    assert_eq!(
        refresh_ready(false),
        Err("bypass cache refresh skipped: no database context")
    );
    assert_eq!(refresh_ready(true), Ok(()));
}

#[test]
fn preparing_skips_missing_names() {
    let prepared = prepare_rows(&vec![None, Some("maint".to_string())]);
    assert_eq!(prepared, vec![prepared_entry("maint")]);
    let mut cache = Box::new(BypassCache::new());
    assert_eq!(
        apply_refreshed(&mut cache, &prepared, 1, 0, BypassCacheState::Ready),
        1
    );
    assert_eq!(lookup(Some(&cache), "maint"), BypassDecision::Bypassed);
    assert_eq!(shared_memory_bytes(), std::mem::size_of::<BypassCache>());
}
