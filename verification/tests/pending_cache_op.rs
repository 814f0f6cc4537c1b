//! Staged cache operations.

use password_profile::auth_event::{
    AuthEventRing, ClaimToken, EnqueueOutcome, EVENT_KIND_FAILURE,
};
use password_profile::expiry_cache::{lookup, ExpiryCache, ExpiryCacheState};
use password_profile::lock_cache::{remaining_seconds, CacheDecision, LockCache};
use password_profile::pending_cache_op::{
    acknowledge_staged, apply_all, apply_expiry_ops, apply_lock_ops, stage, stage_combined,
    stage_expiry, subxact_callback, xact_callback, ExpiryDecision, PendingState,
    StageCapacityExceeded, SubXactEvent, XactAction, XactEvent, MAX_PENDING_OPS,
};
use password_profile::username::{encode_username, LOCK_USERNAME_BYTES};

const TOP: u32 = 1;
const CHILD: u32 = 2;
const GRANDCHILD: u32 = 3;

fn user(tag: u8) -> [u8; LOCK_USERNAME_BYTES] {
    let mut buf = [0u8; LOCK_USERNAME_BYTES];
    buf[0] = tag;
    buf
}

const T1: i64 = 1_000_000;
const T2: i64 = 2_000_000;

#[test]
fn parent_set_child_clear_child_commit_parent_set() {
    // The re-parented child's ClearLock must not stay later in the
    // array and win over what the parent stages afterwards.
    let mut st = PendingState::new();
    let a = user(b'a');

    st.stage_entry(
        a,
        Some(CacheDecision::SetLock(T1)),
        ExpiryDecision::Unchanged,
        TOP,
    )
    .unwrap();
    st.stage_entry(
        a,
        Some(CacheDecision::ClearLock),
        ExpiryDecision::Unchanged,
        CHILD,
    )
    .unwrap();
    st.on_sub_commit(CHILD, TOP);
    st.stage_entry(
        a,
        Some(CacheDecision::SetLock(T2)),
        ExpiryDecision::Unchanged,
        TOP,
    )
    .unwrap();

    assert_eq!(st.resolved(&a), Some(Some(CacheDecision::SetLock(T2))));
}

#[test]
fn parent_set_child_clear_child_abort() {
    let mut st = PendingState::new();
    let a = user(b'a');

    st.stage_entry(
        a,
        Some(CacheDecision::SetLock(T1)),
        ExpiryDecision::Unchanged,
        TOP,
    )
    .unwrap();
    st.stage_entry(
        a,
        Some(CacheDecision::ClearLock),
        ExpiryDecision::Unchanged,
        CHILD,
    )
    .unwrap();
    st.on_sub_abort(CHILD);

    assert_eq!(st.resolved(&a), Some(Some(CacheDecision::SetLock(T1))));
}

#[test]
fn parent_set_child_clear_child_commit() {
    let mut st = PendingState::new();
    let a = user(b'a');

    st.stage_entry(
        a,
        Some(CacheDecision::SetLock(T1)),
        ExpiryDecision::Unchanged,
        TOP,
    )
    .unwrap();
    st.stage_entry(
        a,
        Some(CacheDecision::ClearLock),
        ExpiryDecision::Unchanged,
        CHILD,
    )
    .unwrap();
    st.on_sub_commit(CHILD, TOP);

    assert_eq!(st.resolved(&a), Some(Some(CacheDecision::ClearLock)));
    // The duplicate was collapsed, freeing capacity.
    assert_eq!(st.live(), 1);
}

#[test]
fn nested_commits_then_parent_clear() {
    let mut st = PendingState::new();
    let a = user(b'a');

    st.stage_entry(
        a,
        Some(CacheDecision::SetLock(T1)),
        ExpiryDecision::Unchanged,
        TOP,
    )
    .unwrap();
    st.stage_entry(
        a,
        Some(CacheDecision::SetLock(T2)),
        ExpiryDecision::Unchanged,
        CHILD,
    )
    .unwrap();
    st.stage_entry(
        a,
        Some(CacheDecision::ClearLock),
        ExpiryDecision::Unchanged,
        GRANDCHILD,
    )
    .unwrap();
    st.on_sub_commit(GRANDCHILD, CHILD);
    st.on_sub_commit(CHILD, TOP);
    st.stage_entry(a, Some(CacheDecision::ClearLock), ExpiryDecision::Unchanged, TOP)
        .unwrap();

    assert_eq!(st.resolved(&a), Some(Some(CacheDecision::ClearLock)));
    assert_eq!(st.live(), 1);
}

#[test]
fn nested_grandchild_abort_restores_child_decision() {
    let mut st = PendingState::new();
    let a = user(b'a');

    st.stage_entry(
        a,
        Some(CacheDecision::SetLock(T1)),
        ExpiryDecision::Unchanged,
        TOP,
    )
    .unwrap();
    st.stage_entry(
        a,
        Some(CacheDecision::SetLock(T2)),
        ExpiryDecision::Unchanged,
        CHILD,
    )
    .unwrap();
    st.stage_entry(
        a,
        Some(CacheDecision::ClearLock),
        ExpiryDecision::Unchanged,
        GRANDCHILD,
    )
    .unwrap();
    st.on_sub_abort(GRANDCHILD);
    st.on_sub_commit(CHILD, TOP);

    assert_eq!(st.resolved(&a), Some(Some(CacheDecision::SetLock(T2))));
}

#[test]
fn usernames_are_independent() {
    let mut st = PendingState::new();
    let a = user(b'a');
    let b = user(b'b');

    st.stage_entry(
        a,
        Some(CacheDecision::SetLock(T1)),
        ExpiryDecision::Unchanged,
        TOP,
    )
    .unwrap();
    st.stage_entry(b, Some(CacheDecision::ClearLock), ExpiryDecision::Unchanged, TOP)
        .unwrap();
    st.stage_entry(
        a,
        Some(CacheDecision::ClearLock),
        ExpiryDecision::Unchanged,
        CHILD,
    )
    .unwrap();
    st.on_sub_abort(CHILD);

    assert_eq!(st.resolved(&a), Some(Some(CacheDecision::SetLock(T1))));
    assert_eq!(st.resolved(&b), Some(Some(CacheDecision::ClearLock)));
}

#[test]
fn same_level_restage_overwrites_in_place() {
    let mut st = PendingState::new();
    let a = user(b'a');

    st.stage_entry(
        a,
        Some(CacheDecision::SetLock(T1)),
        ExpiryDecision::Unchanged,
        TOP,
    )
    .unwrap();
    st.stage_entry(a, Some(CacheDecision::ClearLock), ExpiryDecision::Unchanged, TOP)
        .unwrap();
    st.stage_entry(
        a,
        Some(CacheDecision::SetLock(T2)),
        ExpiryDecision::Unchanged,
        TOP,
    )
    .unwrap();

    assert_eq!(st.live(), 1);
    assert_eq!(st.resolved(&a), Some(Some(CacheDecision::SetLock(T2))));
}

#[test]
fn capacity_is_bounded_and_refuses_rather_than_dropping() {
    let mut st = PendingState::new();
    for i in 0..MAX_PENDING_OPS {
        st.stage_entry(
            user(i as u8 + 1),
            Some(CacheDecision::ClearLock),
            ExpiryDecision::Unchanged,
            TOP,
        )
        .unwrap();
    }
    assert_eq!(st.live(), MAX_PENDING_OPS);
    assert_eq!(
        st.stage_entry(
            user(0xff),
            Some(CacheDecision::ClearLock),
            ExpiryDecision::Unchanged,
            TOP
        ),
        Err(StageCapacityExceeded)
    );
    // The refused operation was not stored, and nothing already staged was
    // evicted to make room.
    assert_eq!(st.live(), MAX_PENDING_OPS);
    assert_eq!(st.resolved(&user(0xff)), None);
}

#[test]
fn reset_clears_everything() {
    let mut st = PendingState::new();
    let a = user(b'a');
    st.stage_entry(
        a,
        Some(CacheDecision::SetLock(T1)),
        ExpiryDecision::Unchanged,
        TOP,
    )
    .unwrap();
    st.reset();
    assert!(st.is_empty());
    assert_eq!(st.resolved(&a), None);
}

#[test]
fn commit_applies_the_latest_decision_about_each_name() {
    let mut st = PendingState::new();
    let mut lock = Box::new(LockCache::new());
    let mut expiry = Box::new(ExpiryCache::new());
    let mut ring = Box::new(AuthEventRing::new());
    expiry.state = ExpiryCacheState::Ready.raw();
    let alice = encode_username("alice");
    let bob = encode_username("bob");
    let now = 1_000_000;

    assert!(stage(&mut st, alice, CacheDecision::SetLock(now + 5_000_000), TOP).is_ok());
    assert!(stage(&mut st, bob, CacheDecision::SetLock(now + 9_000_000), TOP).is_ok());
    assert!(stage(&mut st, alice, CacheDecision::ClearLock, CHILD).is_ok());
    let grace = ExpiryDecision::SetEntry {
        must_change_by: now - 1,
        generation: 3,
        grace_remaining: -4,
    };
    assert!(stage_combined(&mut st, bob, CacheDecision::SetLock(now + 7_000_000), grace, CHILD).is_ok());
    assert_eq!(
        ring.try_enqueue([1; 16], bob, now, EVENT_KIND_FAILURE, 0, 0).outcome,
        EnqueueOutcome::Enqueued
    );
    let token = ring.claim().unwrap().0;
    st.stage_ack(token, CHILD);
    subxact_callback(SubXactEvent::CommitSub, &mut st, CHILD, TOP);
    assert_eq!(st.live(), 2);

    assert_eq!(xact_callback(XactEvent::Commit, &st), Ok(XactAction::Apply));
    apply_all(&mut st, &mut lock, &mut expiry, &mut ring, now);
    assert!(st.is_empty());
    assert_eq!(ring.depth(), 0);
    assert_eq!(remaining_seconds(&lock, "alice", now), None);
    assert_eq!(remaining_seconds(&lock, "bob", now), Some(7));
    assert_eq!(
        lookup(Some(&expiry), "bob", now),
        password_profile::expiry_cache::ExpiryDecision::ExpiredNoGrace
    );
}

#[test]
fn commit_can_be_applied_cache_by_cache() {
    let mut st = PendingState::new();
    let mut lock = Box::new(LockCache::new());
    let mut expiry = Box::new(ExpiryCache::new());
    let mut ring = Box::new(AuthEventRing::new());
    expiry.state = ExpiryCacheState::Ready.raw();
    let alice = encode_username("alice");
    assert!(stage(&mut st, alice, CacheDecision::SetLock(2_000_000), TOP).is_ok());
    apply_lock_ops(&st, &mut lock, 1_000_000);
    apply_expiry_ops(&st, &mut expiry);
    acknowledge_staged(&st, &mut ring);
    assert_eq!(remaining_seconds(&lock, "alice", 1_000_000), Some(1));
    assert_eq!(
        lookup(Some(&expiry), "alice", 0),
        password_profile::expiry_cache::ExpiryDecision::NoRow
    );
    assert_eq!(st.live(), 1);
}

#[test]
fn expiry_staging_leaves_the_lock_cache_alone() {
    let mut st = PendingState::new();
    let mut lock = Box::new(LockCache::new());
    let alice = encode_username("alice");
    let now = 1_000_000;
    assert!(stage(&mut st, alice, CacheDecision::SetLock(now + 1), TOP).is_ok());
    apply_lock_ops(&st, &mut lock, now);
    st.reset();
    assert!(stage_expiry(&mut st, alice, ExpiryDecision::Clear, TOP).is_ok());
    assert_eq!(st.resolved(&alice), Some(None));
    apply_lock_ops(&st, &mut lock, now);
    assert_eq!(remaining_seconds(&lock, "alice", now), Some(1));
}

#[test]
fn staging_too_much_is_refused_in_words() {
    let mut st = PendingState::new();
    for i in 0..MAX_PENDING_OPS {
        assert!(stage(&mut st, user(i as u8 + 1), CacheDecision::ClearLock, TOP).is_ok());
    }
    assert_eq!(
        stage(&mut st, user(99), CacheDecision::ClearLock, TOP),
        Err("password_profile: more than 16 pending lock cache operations in one transaction; \
             aborting the transaction rather than dropping a lockout update"
            .to_string())
    );
}

#[test]
fn aborted_savepoint_takes_its_acknowledgement_along() {
    let mut st = PendingState::new();
    st.stage_ack(ClaimToken { slot: 1, seq: 2 }, CHILD);
    assert!(!st.is_empty());
    subxact_callback(SubXactEvent::AbortSub, &mut st, CHILD, TOP);
    assert!(st.is_empty());

    st.stage_ack(ClaimToken { slot: 1, seq: 2 }, CHILD);
    subxact_callback(SubXactEvent::Other, &mut st, CHILD, TOP);
    subxact_callback(SubXactEvent::CommitSub, &mut st, CHILD, TOP);
    assert_eq!(st.pending_ack().unwrap().subid, TOP);
}

#[test]
fn prepare_is_refused_while_anything_is_staged() {
    let mut st = PendingState::new();
    assert_eq!(xact_callback(XactEvent::PrePrepare, &st), Ok(XactAction::Keep));
    st.stage_ack(ClaimToken { slot: 1, seq: 2 }, TOP);
    assert_eq!(
        xact_callback(XactEvent::PrePrepare, &st),
        Err("password_profile: PREPARE TRANSACTION is not supported while lock cache updates are \
             pending; commit or roll back this transaction instead")
    );
    assert_eq!(xact_callback(XactEvent::Abort, &st), Ok(XactAction::Discard));
    assert_eq!(xact_callback(XactEvent::Prepare, &st), Ok(XactAction::Discard));
    assert_eq!(xact_callback(XactEvent::Other, &st), Ok(XactAction::Keep));
}
