//! Failed attempts, lockouts, history, roles and administration.

use password_profile::admin::{
    blacklist_entry, blacklist_entry_of_trimmed, blacklist_path, blacklist_reason,
    check_blacklist_permission, check_queue_recovery, init_login_attempts_table,
    load_blacklist_reply, queue_recovery_reply,
};
use password_profile::attempts::{
    check_clear_permission, check_lockout_from_db, check_user_access, clear_deletes,
    clear_login_attempts_internal, clear_outcome, failure_row, is_user_locked, judge_failure,
    record_failed_login, resolve_clear, stage_failure, AttemptRow, ClearOutcome, FailedLogin, FailureFacts, MICROS_PER_MINUTE,
};
use password_profile::auth_journal::{JournalError, JournalFault};
use password_profile::history::{
    bcrypt_cost, check_password_expiry, digest_to_store, expect_one_row, expiry_decision_from_db,
    get_password_stats, history_digest, next_generation, password_history_recording_enabled,
    persist_grace_consumption, plan_expiry_row, record_password_change_reply,
    stage_recorded_expiry,
    GracePersistence, GraceRow, WrittenExpiry,
};
use password_profile::lock_cache::CacheDecision;
use password_profile::pending_cache_op::{ExpiryDecision, PendingState};
use password_profile::policy::stored_hash_matches;
use password_profile::roles::{
    advisory_key_from_digest, check_removal, check_rename, check_rename_target, check_role_renamed,
    lock_role_state_names, remove_role_state, rename_role_state, username_advisory_key, RenameGate,
};
use password_profile::username::encode_username;
use std::hash::Hasher;

const TOP: u32 = 1;
const NOW: i64 = 1_700_000_000_000_000;

fn facts(max_fails: i32, row: Option<AttemptRow>) -> FailureFacts {
    FailureFacts {
        has_database: true,
        is_superuser: false,
        bypassed: false,
        max_fails,
        lockout_minutes: 1,
        row,
        now: NOW,
        clock: NOW,
    }
}

#[test]
fn test_record_failed_login_basic() {
    let mut pending = PendingState::new();
    let outcome =
        record_failed_login(&mut pending, TOP, "test_fail_user", &facts(3, None)).unwrap();
    let count = match outcome {
        FailedLogin::Recorded(row) => Some(row.fail_count),
        _ => None,
    };
    assert!(count.unwrap_or(0) > 0);
    assert_eq!(outcome.message(), "Failed login recorded");
    assert_eq!(
        pending.resolved(&encode_username("test_fail_user")),
        Some(Some(CacheDecision::ClearLock))
    );
}

#[test]
fn test_clear_login_attempts() {
    let mut pending = PendingState::new();
    // One row of five failures, not locked.
    let rows = vec![None];
    check_clear_permission(Some("postgres"), true, "test_clear_user").unwrap();
    clear_login_attempts_internal(&mut pending, TOP, "test_clear_user", &rows, true, NOW, NOW)
        .unwrap();
    let count = rows.len() - clear_outcome(&rows, NOW).deleted;
    assert_eq!(count, 0);
    assert_eq!(
        pending.resolved(&encode_username("test_clear_user")),
        Some(Some(CacheDecision::ClearLock))
    );
}

#[test]
fn test_record_failed_login_triggers_lockout() {
    let mut pending = PendingState::new();
    let mut row = None;
    for _ in 0..2 {
        match record_failed_login(&mut pending, TOP, "test_lockout_user", &facts(2, row)).unwrap() {
            FailedLogin::Recorded(new_row) => row = Some(new_row),
            _ => panic!("expected the failure to be recorded"),
        }
    }

    let locked = row.unwrap().lockout_until.map(|until| until > NOW);
    assert!(locked.unwrap_or(false));
    assert!(is_user_locked(row, NOW));
    assert_eq!(
        pending.resolved(&encode_username("test_lockout_user")),
        Some(Some(CacheDecision::SetLock(NOW + 60_000_000)))
    );
}

#[test]
fn limit_of_one_locks_at_the_first_failure() {
    let row = failure_row(None, NOW, 1, 15).unwrap();
    assert_eq!(row.fail_count, 1);
    assert_eq!(row.lockout_until, Some(NOW + 15 * MICROS_PER_MINUTE));
}

#[test]
fn served_lockout_counts_anew_and_a_running_one_goes_on() {
    let served = AttemptRow {
        fail_count: 7,
        last_fail: NOW - 9,
        lockout_until: Some(NOW),
    };
    let row = failure_row(Some(served), NOW, 3, 1).unwrap();
    assert_eq!((row.fail_count, row.lockout_until), (1, None));
    let running = AttemptRow {
        lockout_until: Some(NOW + 1),
        ..served
    };
    let row = failure_row(Some(running), NOW, 3, 1).unwrap();
    assert_eq!(row.fail_count, 8);
    assert_eq!(row.lockout_until, Some(NOW + 60_000_000));
    let endless = AttemptRow {
        fail_count: i32::MAX,
        lockout_until: None,
        ..served
    };
    assert_eq!(failure_row(Some(endless), NOW, 3, 1), None);
}

#[test]
fn superusers_and_exempt_roles_are_not_counted() {
    let mut pending = PendingState::new();
    let mut f = facts(1, None);
    f.bypassed = true;
    let r = record_failed_login(&mut pending, TOP, "u", &f).unwrap();
    assert_eq!(r.message(), "Bypassed failed login tracking");
    f.is_superuser = true;
    let r = record_failed_login(&mut pending, TOP, "u", &f).unwrap();
    assert_eq!(r.message(), "Superuser bypassed");
    f.has_database = false;
    let r = record_failed_login(&mut pending, TOP, "u", &f).unwrap();
    assert_eq!(r.message(), "Skipped - no database context");
    assert!(pending.is_empty());

    let row = AttemptRow {
        fail_count: i32::MAX,
        last_fail: 0,
        lockout_until: None,
    };
    assert_eq!(
        record_failed_login(&mut pending, TOP, "u", &facts(1, Some(row))),
        Err("integer out of range".to_string())
    );
}

#[test]
fn automatic_clear_keeps_a_lockout_that_holds() {
    let mut pending = PendingState::new();
    let rows = vec![Some(NOW + 5)];
    clear_login_attempts_internal(&mut pending, TOP, "u", &rows, false, NOW, NOW).unwrap();
    assert_eq!(
        pending.resolved(&encode_username("u")),
        Some(Some(CacheDecision::SetLock(NOW + 5)))
    );
    clear_login_attempts_internal(&mut pending, TOP, "u", &vec![Some(NOW)], false, NOW, NOW)
        .unwrap();
    assert_eq!(
        pending.resolved(&encode_username("u")),
        Some(Some(CacheDecision::ClearLock))
    );
    assert_eq!(
        clear_login_attempts_internal(&mut pending, TOP, "u", &vec![None, None], false, NOW, NOW),
        Err("password_profile: inconsistent login_attempts state for one username (deleted=2, \
             active=0); refusing to update the lock cache"
            .to_string())
    );
    assert_eq!(
        clear_login_attempts_internal(&mut pending, TOP, "u", &vec![None, None], true, NOW, NOW),
        Err("password_profile: forced clear affected 2 login_attempts rows for one username; \
             refusing to update the lock cache"
            .to_string())
    );
}

#[test]
fn clear_outcomes_are_read_or_refused() {
    let o = |deleted, active, active_until| ClearOutcome { deleted, active, active_until };
    assert_eq!(resolve_clear(o(0, 0, None)), Ok(None));
    assert_eq!(resolve_clear(o(1, 0, None)), Ok(None));
    assert_eq!(resolve_clear(o(0, 1, Some(9))), Ok(Some(9)));
    assert!(resolve_clear(o(0, 2, Some(9))).is_err());
    assert!(resolve_clear(o(1, 1, Some(9))).is_err());
    assert_eq!(
        clear_outcome(&vec![Some(NOW + 1), Some(NOW + 2)], NOW),
        o(0, 2, Some(NOW + 2))
    );
}

#[test]
fn attempts_are_cleared_by_their_owner_or_a_superuser() {
    assert!(check_clear_permission(Some("alice"), false, "alice").is_ok());
    assert!(check_clear_permission(Some("root"), true, "alice").is_ok());
    assert_eq!(
        check_clear_permission(Some("bob"), false, "alice"),
        Err(
            "Permission denied: Only superuser or user 'alice' can clear their login attempts"
                .to_string()
        )
    );
    assert_eq!(
        check_clear_permission(None, true, "alice"),
        Err("Failed to get current user".to_string())
    );
}

#[test]
fn lockouts_are_read_from_the_table() {
    let row = AttemptRow {
        fail_count: 3,
        last_fail: NOW,
        lockout_until: Some(NOW + 1_500_000),
    };
    assert_eq!(check_lockout_from_db(true, Some(row), 3, NOW, NOW), Some(2));
    assert_eq!(check_lockout_from_db(true, Some(row), 4, NOW, NOW), None);
    assert_eq!(check_lockout_from_db(false, Some(row), 3, NOW, NOW), None);
    assert_eq!(check_lockout_from_db(true, None, 3, NOW, NOW), None);
    assert!(!is_user_locked(None, NOW));
    assert!(!is_user_locked(Some(row), NOW + 1_500_000));
}

#[test]
fn access_is_reported_in_words() {
    assert_eq!(
        check_user_access(false, Some(9), None),
        Ok("Access check skipped - no database context".to_string())
    );
    assert_eq!(
        check_user_access(true, Some(125), Some(3)),
        Err("Account locked! Please wait 2 minute(s) and 5 second(s). Too many failed login \
             attempts."
            .to_string())
    );
    assert_eq!(
        check_user_access(true, None, Some(60)),
        Err("Account locked! Please wait 1 minute(s) and 0 second(s). Too many failed login \
             attempts."
            .to_string())
    );
    assert_eq!(
        check_user_access(true, Some(0), None),
        Ok("Access granted".to_string())
    );
}

#[test]
fn a_clear_deletes_what_it_may() {
    let locked = Some(NOW + 1);
    let served = Some(NOW);
    for lockout_until in [locked, served, None] {
        assert!(clear_deletes(true, lockout_until, NOW));
    }
    assert!(!clear_deletes(false, locked, NOW));
    assert!(clear_deletes(false, served, NOW));
    assert!(clear_deletes(false, None, NOW));
}

#[test]
fn failures_are_judged_before_they_are_staged() {
    let mut pending = PendingState::new();
    let mut f = facts(1, None);
    let outcome = judge_failure(&f).unwrap();
    assert!(pending.is_empty());
    stage_failure(&mut pending, TOP, "alice", outcome, f.clock).unwrap();
    assert_eq!(
        pending.resolved(&encode_username("alice")),
        Some(Some(CacheDecision::SetLock(NOW + MICROS_PER_MINUTE)))
    );
    f.is_superuser = true;
    let outcome = judge_failure(&f).unwrap();
    assert_eq!(outcome, FailedLogin::Superuser);
    stage_failure(&mut pending, TOP, "bob", outcome, f.clock).unwrap();
    assert_eq!(pending.live(), 1);
    f.is_superuser = false;
    f.row = Some(AttemptRow { fail_count: i32::MAX, last_fail: NOW, lockout_until: None });
    assert_eq!(judge_failure(&f), Err("integer out of range".to_string()));
}

#[test]
fn recorded_digest_represents_the_password_and_is_not_recorded_twice() {
    let digest = history_digest(5, 0, 4, "S3cret!", None).unwrap().unwrap();
    assert!(digest.starts_with("$2b$04$"));
    assert_eq!(digest.len(), 60);
    assert!(stored_hash_matches("S3cret!", &digest));
    assert!(!stored_hash_matches("s3cret!", &digest));
    assert_eq!(
        history_digest(5, 0, 4, "S3cret!", Some(digest.as_str())),
        Ok(None)
    );
    assert!(history_digest(0, 7, 4, "other", Some(digest.as_str()))
        .unwrap()
        .is_some());
    assert_eq!(history_digest(0, 0, 4, "S3cret!", None), Ok(None));
    assert!(password_history_recording_enabled(0, 1));
    assert!(!password_history_recording_enabled(0, 0));
}

#[test]
fn second_recording_only_refreshes_the_expiry() {
    let mut digests: Vec<String> = Vec::new();
    let mut generation = None;
    let mut pending = PendingState::new();
    for _ in 0..2 {
        let latest = digests.last().map(|d| d.as_str());
        if let Some(digest) = history_digest(5, 0, 4, "S3cret!", latest).unwrap() {
            digests.push(digest);
        }
        // Both changes fall into one microsecond.
        let row = plan_expiry_row(1000, generation, 90, 3).unwrap();
        assert_eq!(row.valid_days, 90);
        generation = Some(row.last_changed);
        let written = WrittenExpiry {
            last_changed: row.last_changed,
            must_change_by: row.last_changed + 90,
            grace_logins: row.grace_logins,
        };
        stage_recorded_expiry(&mut pending, TOP, "alice", 90, Some(written)).unwrap();
    }
    assert_eq!(plan_expiry_row(1000, generation, 0, 3), None);
    assert_eq!(digests.len(), 1);
    assert_eq!(generation, Some(1001));
    assert_eq!(pending.live(), 1);
    assert_eq!(pending.entry(0).decision, None);
    assert_eq!(
        pending.entry(0).expiry,
        ExpiryDecision::SetEntry {
            must_change_by: 1091,
            generation: 1001,
            grace_remaining: 3
        }
    );
}

#[test]
fn costs_are_brought_into_range() {
    assert_eq!(bcrypt_cost(0), 4);
    assert_eq!(bcrypt_cost(10), 10);
    assert_eq!(bcrypt_cost(99), 31);
    let refused = bcrypt::hash("x", 3);
    assert_eq!(
        digest_to_store(refused),
        Err("Failed to hash password: Cost needs to be between 4 and 31, got 3".to_string())
    );
    assert_eq!(digest_to_store(Ok("d".to_string())), Ok("d".to_string()));
}

#[test]
fn generations_never_repeat() {
    assert_eq!(next_generation(100, None), 100);
    assert_eq!(next_generation(100, Some(50)), 100);
    assert_eq!(next_generation(100, Some(100)), 101);
    assert_eq!(next_generation(100, Some(500)), 501);
    assert_eq!(next_generation(100, Some(i64::MAX)), i64::MAX);
}

#[test]
fn recorded_expiry_is_staged() {
    let mut pending = PendingState::new();
    let written = WrittenExpiry {
        last_changed: 7,
        must_change_by: 9,
        grace_logins: 3,
    };
    stage_recorded_expiry(&mut pending, TOP, "alice", 90, Some(written)).unwrap();
    assert_eq!(
        pending.entry(0).expiry,
        ExpiryDecision::SetEntry {
            must_change_by: 9,
            generation: 7,
            grace_remaining: 3
        }
    );
    assert_eq!(pending.entry(0).decision, None);
    stage_recorded_expiry(&mut pending, TOP, "alice", 0, None).unwrap();
    assert_eq!(pending.entry(0).expiry, ExpiryDecision::Clear);
    assert_eq!(
        stage_recorded_expiry(&mut pending, TOP, "alice", 90, None),
        Err(
            "password_profile: password expiry row was not written; refusing the change"
                .to_string()
        )
    );
    assert_eq!(record_password_change_reply(true), "Password change recorded");
    assert_eq!(
        record_password_change_reply(false),
        "Password already recorded; expiry metadata refreshed"
    );
}

#[test]
fn grace_of_an_old_password_is_stale() {
    let row = |last_changed, grace_logins| Some(GraceRow { last_changed, grace_logins });
    assert_eq!(
        persist_grace_consumption(row(Some(7), Some(2)), 7),
        Ok(GracePersistence::Decrement)
    );
    assert_eq!(
        persist_grace_consumption(row(Some(8), Some(2)), 7),
        Ok(GracePersistence::Stale)
    );
    assert_eq!(persist_grace_consumption(None, 7), Ok(GracePersistence::Stale));
    assert_eq!(
        persist_grace_consumption(row(Some(7), None), 7),
        Ok(GracePersistence::Stale)
    );
    assert!(persist_grace_consumption(row(Some(7), Some(-1)), 7).is_err());
    assert_eq!(
        persist_grace_consumption(row(Some(8), Some(-1)), 7),
        Ok(GracePersistence::Stale)
    );
    assert_eq!(
        persist_grace_consumption(row(Some(7), Some(0)), 7),
        Err(
            "password_profile: grace login was admitted but the authoritative row has none left; \
             refusing to acknowledge the event"
        )
    );
    assert_eq!(expect_one_row(1), Ok(()));
    assert_eq!(
        expect_one_row(0),
        Err(
            "password_profile: grace decrement affected 0 rows for one username; refusing to \
             acknowledge the event"
                .to_string()
        )
    );
}

#[test]
fn expiry_rows_become_decisions_and_words() {
    assert_eq!(
        expiry_decision_from_db(Some(1), Some(2), Some(3)),
        ExpiryDecision::SetEntry {
            must_change_by: 1,
            generation: 2,
            grace_remaining: 3
        }
    );
    assert_eq!(
        expiry_decision_from_db(Some(1), None, Some(3)),
        ExpiryDecision::Clear
    );
    assert_eq!(
        check_password_expiry(0, Some(true), None),
        Ok("Password expiry disabled".to_string())
    );
    assert_eq!(
        check_password_expiry(90, None, None),
        Ok("No password expiry record".to_string())
    );
    assert_eq!(
        check_password_expiry(90, Some(false), None),
        Ok("Password valid".to_string())
    );
    assert_eq!(
        check_password_expiry(90, Some(true), Some(2)),
        Err("Password expired! 2 grace login(s) remaining.".to_string())
    );
    assert_eq!(
        check_password_expiry(90, Some(true), Some(0)),
        Err("Password expired! No grace logins remaining.".to_string())
    );
    assert_eq!(
        get_password_stats(Some(4), Some(-12), None),
        "Password History: 4 changes | Days until expiry: -12 | Failed attempts: 0"
    );
    assert_eq!(
        get_password_stats(None, None, Some(3)),
        "Password History: 0 changes | Days until expiry: N/A | Failed attempts: 3"
    );
}

#[test]
fn advisory_keys_come_from_the_digest() {
    let mut hasher =
        siphasher::sip::SipHasher13::new_with_keys(0x7061_7373_776F_7264, 0x5F70_726F_6669_6C65);
    hasher.write(b"alice");
    let digest = hasher.finish();
    assert_eq!(username_advisory_key("alice"), digest as u32 as i32);
    assert_ne!(username_advisory_key("alice"), username_advisory_key("bob"));
    assert_eq!(advisory_key_from_digest(0xffff_ffff_8000_0000), i32::MIN);
    assert_eq!(advisory_key_from_digest(0xffff_ffff_0000_0007), 7);
}

#[test]
fn locks_are_taken_in_an_agreed_order() {
    assert_eq!(lock_role_state_names("b", Some("a")), vec!["a", "b"]);
    assert_eq!(lock_role_state_names("a", Some("b")), vec!["a", "b"]);
    assert_eq!(lock_role_state_names("ab", Some("a")), vec!["a", "ab"]);
    assert_eq!(lock_role_state_names("a", Some("a")), vec!["a"]);
    assert_eq!(lock_role_state_names("a", None), vec!["a"]);
}

#[test]
fn role_state_moves_with_the_role() {
    assert_eq!(
        check_rename(false, "a", "b"),
        Err("permission denied: superuser is required to move role state")
    );
    assert_eq!(check_rename(true, "", "b"), Err("role names must not be empty"));
    assert_eq!(check_rename(true, "a", "a"), Ok(RenameGate::Unchanged));
    assert_eq!(check_rename(true, "a", "b"), Ok(RenameGate::Proceed));
    assert_eq!(check_role_renamed(false, true), Ok(()));
    assert_eq!(
        check_role_renamed(true, true),
        Err("rename the PostgreSQL role first and call rename_role_state in the same transaction")
    );
    assert_eq!(check_rename_target(false), Ok(()));
    assert_eq!(
        check_rename_target(true),
        Err("target role name already has password_profile state; remove it first")
    );
    let mut pending = PendingState::new();
    assert_eq!(
        rename_role_state(
            &mut pending,
            TOP,
            "old",
            "new",
            CacheDecision::SetLock(5),
            ExpiryDecision::Clear
        ),
        Ok("Role state renamed")
    );
    assert_eq!(
        pending.resolved(&encode_username("old")),
        Some(Some(CacheDecision::ClearLock))
    );
    assert_eq!(
        pending.resolved(&encode_username("new")),
        Some(Some(CacheDecision::SetLock(5)))
    );
}

#[test]
fn role_state_is_removed_after_the_role() {
    assert_eq!(
        check_removal(false, "a", false),
        Err("permission denied: superuser is required to remove role state")
    );
    assert_eq!(check_removal(true, "", false), Err("role name must not be empty"));
    assert_eq!(
        check_removal(true, "a", true),
        Err("drop the PostgreSQL role first and call remove_role_state in the same transaction")
    );
    assert_eq!(check_removal(true, "a", false), Ok(()));
    let mut pending = PendingState::new();
    assert_eq!(remove_role_state(&mut pending, TOP, "a"), Ok("Role state removed"));
    assert_eq!(pending.entry(0).expiry, ExpiryDecision::Clear);
    for i in 1..16 {
        remove_role_state(&mut pending, TOP, &format!("r{}", i)).unwrap();
    }
    assert!(remove_role_state(&mut pending, TOP, "one too many").is_err());
}

#[test]
fn queue_recovery_is_guarded_and_reported() {
    assert_eq!(
        check_queue_recovery(false, false, false, false),
        Err("permission denied: superuser is required to recover the auth event queue")
    );
    assert_eq!(
        check_queue_recovery(true, true, false, false),
        Err("auth event queue recovery must be run on the writable primary")
    );
    assert!(check_queue_recovery(true, false, true, false).is_err());
    assert!(check_queue_recovery(true, false, false, true).is_err());
    assert_eq!(check_queue_recovery(true, false, false, false), Ok(()));
    assert_eq!(
        queue_recovery_reply(Ok(false)),
        Ok("Auth event queue is not corrupt; no reset was performed".to_string())
    );
    assert!(queue_recovery_reply(Ok(true))
        .unwrap()
        .starts_with("Auth event queue recovered"));
    assert!(
        queue_recovery_reply(Err(JournalError::Corrupt(JournalFault::UnknownKind)))
            .unwrap_err()
            .contains(JournalFault::UnknownKind.reason())
    );
    assert_eq!(
        queue_recovery_reply(Err(JournalError::Io("no space".to_string()))),
        Err("no space".to_string())
    );
}

#[test]
fn schema_is_checked_not_created() {
    assert_eq!(
        init_login_attempts_table(true),
        Ok("Extension tables are already initialized")
    );
    assert!(init_login_attempts_table(false).is_err());
}

#[test]
fn blacklist_lines_are_trimmed_and_comments_skipped() {
    assert_eq!(blacklist_entry("  hunter2\t"), Some("hunter2"));
    assert_eq!(blacklist_entry("\u{3000}pass word\u{85}"), Some("pass word"));
    assert_eq!(blacklist_entry("   # a comment"), None);
    assert_eq!(blacklist_entry(" \t "), None);
    assert_eq!(blacklist_entry("a#b"), Some("a#b"));
    assert_eq!(blacklist_entry_of_trimmed("#x"), None);
    assert_eq!(
        check_blacklist_permission(false),
        Err("permission denied: superuser is required to load a blacklist file")
    );
    assert_eq!(check_blacklist_permission(true), Ok(()));
    assert_eq!(
        load_blacklist_reply(12, "/tmp/list", 1),
        "Loaded 12 passwords from '/tmp/list' (1 errors)"
    );
    assert_eq!(blacklist_reason(None), "Admin added");
    assert_eq!(blacklist_reason(Some("leaked")), "leaked");
}

#[test]
fn blacklist_is_looked_for_in_the_data_directory() {
    assert_eq!(blacklist_path(Some("/x"), Some("/data")), "/x");
    assert_eq!(
        blacklist_path(None, Some("/data")),
        "/data/password_profile_blacklist.txt"
    );
    assert_eq!(
        blacklist_path(None, None),
        "/var/lib/pgsql/16/data/password_profile_blacklist.txt"
    );
}
