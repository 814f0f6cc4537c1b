//! Names, texts, numbers and the statistics surface.

use password_profile::arith::{
    counter_to_i64, flag_to_i64, saturating_add_i64, saturating_sub_i64,
};
use password_profile::auth_event;
use password_profile::auth_event::AuthEventRing;
use password_profile::auth_journal;
use password_profile::bypass_cache;
use password_profile::bypass_cache::BypassCache;
use password_profile::expiry_cache;
use password_profile::expiry_cache::ExpiryCache;
use password_profile::lock_cache;
use password_profile::lock_cache::{LockCache, MICROS_PER_SEC};
use password_profile::stats::collect_stats;
use password_profile::text::{
    all_hex_from, append_count, append_decimal, chars_contain, chars_occur_at, chars_of,
    is_ascii_digit, is_ascii_hexdigit, same_text, starts_with, trim, without_nul,
};
use password_profile::username::{
    encode_username, is_name, name_length, same_name, username_from_bytes,
};
use password_profile::worker_health;
use password_profile::worker_health::WorkerHealth;

#[test]
fn stored_names_read_back() {
    let encoded = encode_username("zoë");
    assert_eq!(&encoded[..5], "zoë\0".as_bytes());
    assert_eq!(username_from_bytes(&encoded), Some("zoë".to_string()));
    assert_eq!(name_length(&encoded), 4);
    assert!(is_name(&encoded));
    assert!(!is_name(&encode_username("")));
    assert_eq!(username_from_bytes(&[0; 64]), None);
    assert_eq!(username_from_bytes(&[0xff, 0]), None);
    assert_eq!(username_from_bytes(b"abc"), Some("abc".to_string()));
    assert!(same_name(&encoded, &encode_username("zoë")));
    assert!(!same_name(&encoded, &encode_username("zoe")));
}

#[test]
fn long_names_are_cut_and_still_terminated() {
    let long = "x".repeat(80);
    let encoded = encode_username(&long);
    assert_eq!(encoded[62], b'x');
    assert_eq!(encoded[63], 0);
    assert_eq!(username_from_bytes(&encoded).unwrap().len(), 63);
}

#[test]
fn numbers_are_written_in_decimal() {
    let mut s = String::from("n=");
    append_decimal(&mut s, i64::MIN);
    append_decimal(&mut s, 0);
    append_count(&mut s, u64::MAX);
    assert_eq!(s, "n=-9223372036854775808018446744073709551615");
}

#[test]
fn texts_are_searched_by_character() {
    let hay = chars_of("grüße");
    assert!(chars_contain(&hay, &chars_of("üß")));
    assert!(chars_contain(&hay, &chars_of("")));
    assert!(!chars_contain(&hay, &chars_of("ss")));
    assert!(chars_occur_at(&hay, &chars_of("ße"), 3));
    assert!(!chars_occur_at(&hay, &chars_of("ße"), 2));
    assert!(starts_with(&hay, "gr"));
    assert!(!starts_with(&hay, "grüßen"));
    assert!(same_text("a", "a") && !same_text("a", "A"));
    assert!(all_hex_from(&chars_of("xx09afAF"), 2));
    assert!(!all_hex_from(&chars_of("xx09g"), 2));
    assert!(is_ascii_digit('9') && !is_ascii_digit('a'));
    assert!(is_ascii_hexdigit('F') && !is_ascii_hexdigit('g'));
    assert_eq!(trim(" \u{a0}a b\n"), "a b");
    assert_eq!(trim(" \n"), "");
    assert_eq!(without_nul("a\0b\0"), "ab");
}

#[test]
fn arithmetic_saturates() {
    assert_eq!(saturating_sub_i64(i64::MIN, 1), i64::MIN);
    assert_eq!(saturating_add_i64(i64::MAX, 1), i64::MAX);
    assert_eq!(saturating_sub_i64(5, 7), -2);
    assert_eq!(counter_to_i64(u64::MAX), i64::MAX);
    assert_eq!(counter_to_i64(3), 3);
    assert_eq!((flag_to_i64(true), flag_to_i64(false)), (1, 0));
}

fn value(rows: &Vec<(String, i64, String)>, metric: &str) -> i64 {
    let mut found = Vec::new();
    for row in rows {
        if row.0 == metric {
            found.push(row.1);
        }
    }
    assert_eq!(found.len(), 1, "{}", metric);
    found[0]
}

#[test]
fn statistics_cover_every_part() {
    let now = 1_000_000;
    let mut lock = Box::new(LockCache::new());
    for i in 0..41 {
        let name = encode_username(&format!("u{}", i));
        let status = lock_cache::set(&mut lock, &name, now + MICROS_PER_SEC, now);
        assert_eq!(status, lock_cache::CacheOpStatus::Applied);
    }
    let expiry = Box::new(ExpiryCache::new());
    let bypass = Box::new(BypassCache::new());
    let ring = Box::new(AuthEventRing::new());
    let mut health = WorkerHealth::new();
    worker_health::mark_running(&mut health);
    let rows = collect_stats(
        lock_cache::counts(Some(&lock), now),
        worker_health::stats(Some(&health)),
        Some(6),
        Some(4),
        expiry_cache::stats(Some(&expiry)),
        Some((
            auth_event::stats(Some(&ring)).unwrap(),
            auth_journal::stats(Some(224), None),
        )),
        bypass_cache::stats(Some(&bypass)),
    );
    assert_eq!(rows[0].0, "lock_cache_total_size");
    assert_eq!(value(&rows, "lock_cache_total_size"), 2048);
    assert_eq!(value(&rows, "lock_cache_active_lockouts"), 41);
    assert_eq!(value(&rows, "lock_cache_used_slots"), 41);
    assert_eq!(value(&rows, "lock_cache_free_slots"), 2007);
    assert_eq!(value(&rows, "lock_cache_utilization_pct"), 2);
    assert_eq!(value(&rows, "lock_cache_state"), 0);
    assert_eq!(value(&rows, "worker_running"), 1);
    assert_eq!(value(&rows, "db_users_with_failures"), 6);
    assert_eq!(value(&rows, "db_active_lockouts"), 4);
    assert_eq!(value(&rows, "expiry_cache_capacity"), 2048);
    assert_eq!(value(&rows, "auth_event_queue_capacity"), 1023);
    assert_eq!(value(&rows, "auth_event_queue_next_seq"), 1);
    assert_eq!(value(&rows, "auth_event_journal_pending_records"), 2);
    assert_eq!(value(&rows, "auth_event_journal_pending_bytes"), 224);
    assert_eq!(value(&rows, "bypass_cache_capacity"), 1024);
}

#[test]
fn statistics_without_shared_memory_say_so() {
    let rows = collect_stats(None, None, None, None, None, None, None);
    assert_eq!(value(&rows, "lock_cache_status"), 0);
    assert_eq!(value(&rows, "lock_cache_state"), 0);
    assert_eq!(value(&rows, "expiry_cache_state"), 0);
    assert_eq!(value(&rows, "auth_event_queue_state"), 2);
    assert_eq!(value(&rows, "bypass_cache_state"), 0);
    for row in &rows {
        assert_ne!(row.0, "db_active_lockouts");
    }
}
