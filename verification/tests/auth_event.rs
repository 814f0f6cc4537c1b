//! The authentication-event ring.

use password_profile::auth_event::{
    ack_claim, enqueue, enqueue_encoded_silent, mark_corrupt, matching_claim, recover_corrupt_ring,
    shared_memory_bytes, state, stats, AckOutcome, AuthEventRing, ClaimToken, EnqueueOutcome,
    EventFlags, EventKind, QueueState, QueueWarning, EVENT_FLAG_CLEAR_LOGIN_ATTEMPTS,
    EVENT_KIND_FAILURE, EVENT_KIND_GRACE_CONSUMED, EVENT_KIND_SUCCESS, QUEUE_WARN_INTERVAL_US,
    RING_SLOTS, USABLE_CAPACITY,
};
use password_profile::auth_journal::{encode, JournalError, JournalFault};
use password_profile::username::LOCK_USERNAME_BYTES;
use password_profile::worker_health::{durable_degraded_since, WorkerHealth};

fn ring() -> Box<AuthEventRing> {
    Box::new(AuthEventRing::new())
}

fn event_id(tag: u8) -> [u8; 16] {
    [tag; 16]
}

fn user(tag: u8) -> [u8; LOCK_USERNAME_BYTES] {
    let mut buf = [0u8; LOCK_USERNAME_BYTES];
    buf[0] = tag;
    buf
}

fn try_push(r: &mut AuthEventRing, tag: u8, is_failure: bool) -> EnqueueOutcome {
    let kind = if is_failure {
        EVENT_KIND_FAILURE
    } else {
        EVENT_KIND_SUCCESS
    };
    r.try_enqueue(event_id(tag), user(tag), 0, kind, 0, 0)
        .outcome
}

/// Enqueue that must succeed; keeps the ordering tests readable.
fn push(r: &mut AuthEventRing, tag: u8, is_failure: bool) {
    assert_eq!(try_push(r, tag, is_failure), EnqueueOutcome::Enqueued);
}

#[test]
fn claim_does_not_advance_tail() {
    let mut r = ring();
    assert_eq!(try_push(&mut r, 1, true), EnqueueOutcome::Enqueued);

    let tail_before = r.tail;
    let (t1, e1) = r.claim().unwrap();
    assert_eq!(r.tail, tail_before);
    assert_eq!(r.depth(), 1);

    // Claiming again before acknowledgement yields the identical token.
    let (t2, e2) = r.claim().unwrap();
    assert_eq!(t1, t2);
    assert_eq!(e1, e2);
    assert_eq!(r.tail, tail_before);
}

#[test]
fn abort_leaves_the_same_event_claimable() {
    let mut r = ring();
    push(&mut r, 1, true);
    let (token, event) = r.claim().unwrap();

    // A transaction abort simply never calls ack.
    let (token_again, event_again) = r.claim().unwrap();
    assert_eq!(token, token_again);
    assert_eq!(event, event_again);
    assert_eq!(r.depth(), 1);
}

#[test]
fn the_books_balance_over_several_laps() {
    let mut r = ring();
    for _ in 0..700 {
        for tag in 1..4 {
            push(&mut r, tag, true);
        }
        for _ in 0..2 {
            let (token, event) = r.claim().unwrap();
            assert_eq!(event.seq, r.acknowledged + 1);
            assert_eq!(r.ack(token), AckOutcome::Acknowledged);
        }
        assert_eq!(r.depth() as u64, r.accepted - r.acknowledged);
        assert_eq!(r.next_seq, r.accepted + 1);
    }
    assert_eq!(r.depth(), 700);
}

#[test]
fn commit_ack_advances_tail_once_and_duplicate_ack_does_not() {
    let mut r = ring();
    push(&mut r, 1, true);
    let (token, _) = r.claim().unwrap();

    assert_eq!(r.ack(token), AckOutcome::Acknowledged);
    assert_eq!(r.depth(), 0);
    assert_eq!(r.acknowledged, 1);
    let tail_after = r.tail;

    // Acknowledging the same token again must not advance twice.
    assert_eq!(r.ack(token), AckOutcome::Stale);
    assert_eq!(r.tail, tail_after);
    assert_eq!(r.acknowledged, 1);
}

#[test]
fn wrong_slot_token_is_rejected() {
    let mut r = ring();
    push(&mut r, 1, true);
    push(&mut r, 2, true);
    let (token, _) = r.claim().unwrap();

    let bogus = ClaimToken {
        slot: token.slot + 1,
        seq: token.seq,
    };
    assert_eq!(r.ack(bogus), AckOutcome::Stale);
    assert_eq!(r.depth(), 2);
}

#[test]
fn wrong_sequence_token_is_rejected() {
    let mut r = ring();
    push(&mut r, 1, true);
    let (token, _) = r.claim().unwrap();

    let bogus = ClaimToken {
        slot: token.slot,
        seq: token.seq.wrapping_add(7),
    };
    assert_eq!(r.ack(bogus), AckOutcome::Stale);
    assert_eq!(r.depth(), 1);
    // The real token still works.
    assert_eq!(r.ack(token), AckOutcome::Acknowledged);
}

#[test]
fn stale_token_after_wraparound_is_rejected() {
    // ABA: reuse the same slot a full lap later and confirm the old token
    // no longer acknowledges it.
    let mut r = ring();
    push(&mut r, 1, true);
    let (old_token, _) = r.claim().unwrap();
    assert_eq!(r.ack(old_token), AckOutcome::Acknowledged);

    for lap in 0..RING_SLOTS {
        assert_eq!(
            try_push(&mut r, (lap % 251) as u8 + 1, false),
            EnqueueOutcome::Enqueued
        );
        let (t, _) = r.claim().unwrap();
        assert_eq!(r.ack(t), AckOutcome::Acknowledged);
    }

    // Slot 0 is in use again with a different sequence number.
    push(&mut r, 9, true);
    let (fresh, _) = r.claim().unwrap();
    assert_eq!(fresh.slot, old_token.slot);
    assert_ne!(fresh.seq, old_token.seq);
    assert_eq!(r.ack(old_token), AckOutcome::Stale);
    assert_eq!(r.ack(fresh), AckOutcome::Acknowledged);
}

#[test]
fn fifo_order_survives_wraparound() {
    let mut r = ring();
    let mut expected: u64 = 1;
    for round in 0..(RING_SLOTS * 2 + 5) {
        let tag = (round % 251) as u8 + 1;
        assert_eq!(
            try_push(&mut r, tag, round % 2 == 0),
            EnqueueOutcome::Enqueued
        );
        let (token, event) = r.claim().unwrap();
        assert_eq!(event.username, user(tag));
        assert_eq!(event.seq, expected);
        assert_eq!(r.ack(token), AckOutcome::Acknowledged);
        expected += 1;
    }
}

#[test]
fn success_and_failure_events_keep_their_order() {
    let mut r = ring();
    push(&mut r, b'a', false);
    push(&mut r, b'b', true);

    let (t1, e1) = r.claim().unwrap();
    assert_eq!(e1.username, user(b'a'));
    assert_eq!(EventKind::from_raw(e1.kind), Some(EventKind::Success));
    assert_eq!(r.ack(t1), AckOutcome::Acknowledged);

    let (t2, e2) = r.claim().unwrap();
    assert_eq!(e2.username, user(b'b'));
    assert_eq!(EventKind::from_raw(e2.kind), Some(EventKind::Failure));
    assert_eq!(r.ack(t2), AckOutcome::Acknowledged);
}

#[test]
fn producer_cannot_overwrite_an_unacknowledged_tail_event() {
    let mut r = ring();
    for i in 0..USABLE_CAPACITY {
        assert_eq!(
            try_push(&mut r, (i % 251) as u8 + 1, true),
            EnqueueOutcome::Enqueued
        );
    }
    let (token, claimed) = r.claim().unwrap();
    let tail_before = r.tail;

    // The ring is full: further offers are refused, not absorbed by
    // overwriting the oldest (claimed) entry.
    assert_eq!(try_push(&mut r, 200, true), EnqueueOutcome::DurableOnly);
    assert_eq!(r.tail, tail_before);

    let (token_again, claimed_again) = r.claim().unwrap();
    assert_eq!(token, token_again);
    assert_eq!(claimed, claimed_again);
}

#[test]
fn full_queue_returns_full_counts_and_degrades() {
    let mut r = ring();
    for i in 0..USABLE_CAPACITY {
        push(&mut r, (i % 251) as u8 + 1, true);
    }
    assert_eq!(r.state(), QueueState::Healthy);
    assert_eq!(r.rejected, 0);

    // Non-zero timestamps: `should_warn_now` treats `last_warned_at == 0`
    // as "never warned", so the rate limit is only observable once a real
    // clock value has been stamped.
    let t0: i64 = 1_000_000_000;
    let step = r.try_enqueue(event_id(9), user(9), t0, EVENT_KIND_FAILURE, 0, 0);
    assert_eq!(step.outcome, EnqueueOutcome::DurableOnly);
    assert!(step.should_warn);
    assert_eq!(r.rejected, 1);
    assert_eq!(r.state(), QueueState::Overflowed);

    // A second rejection one second later counts but does not warn again.
    let step2 = r.try_enqueue(
        event_id(10),
        user(10),
        t0 + 1_000_000,
        EVENT_KIND_FAILURE,
        0,
        0,
    );
    assert_eq!(step2.outcome, EnqueueOutcome::DurableOnly);
    assert!(!step2.should_warn);
    assert_eq!(r.rejected, 2);

    // Once the interval has elapsed, exactly one more warning is allowed.
    let step3 = r.try_enqueue(
        event_id(11),
        user(11),
        t0 + QUEUE_WARN_INTERVAL_US,
        EVENT_KIND_FAILURE,
        0,
        0,
    );
    assert_eq!(step3.outcome, EnqueueOutcome::DurableOnly);
    assert!(step3.should_warn);
    let step4 = r.try_enqueue(
        event_id(12),
        user(12),
        t0 + QUEUE_WARN_INTERVAL_US + 1,
        EVENT_KIND_FAILURE,
        0,
        0,
    );
    assert!(!step4.should_warn);
    assert_eq!(r.rejected, 4);
}

#[test]
fn unknown_event_flag_bits_are_rejected() {
    assert_eq!(EventFlags::from_raw(0), Some(EventFlags::none()));
    assert_eq!(
        EventFlags::from_raw(EVENT_FLAG_CLEAR_LOGIN_ATTEMPTS),
        Some(EventFlags::clearing_login_attempts())
    );
    assert_eq!(EventFlags::from_raw(0x02), None);
    assert_eq!(EventFlags::from_raw(0xFF), None);
    assert_eq!(
        EventFlags::from_raw(EVENT_FLAG_CLEAR_LOGIN_ATTEMPTS | 0x80),
        None
    );
}

#[test]
fn admission_flags_capture_the_lockout_switch() {
    assert!(EventFlags::for_admission(true).clear_login_attempts());
    assert!(!EventFlags::for_admission(false).clear_login_attempts());
}

#[test]
fn event_flags_round_trip_through_the_ring() {
    let mut r = ring();
    assert_eq!(
        r.try_enqueue(
            event_id(b'f'),
            user(b'f'),
            0,
            EVENT_KIND_GRACE_CONSUMED,
            EVENT_FLAG_CLEAR_LOGIN_ATTEMPTS,
            7
        )
        .outcome,
        EnqueueOutcome::Enqueued
    );
    let (_, ev) = r.claim().unwrap();
    assert_eq!(ev.flags, EVENT_FLAG_CLEAR_LOGIN_ATTEMPTS);
    assert!(EventFlags::from_raw(ev.flags)
        .unwrap()
        .clear_login_attempts());
}

#[test]
fn draining_an_overflowed_queue_recovers_health() {
    let mut r = ring();
    for i in 0..USABLE_CAPACITY {
        push(&mut r, (i % 251) as u8 + 1, true);
    }
    assert_eq!(
        r.try_enqueue(event_id(9), user(9), 0, EVENT_KIND_FAILURE, 0, 0)
            .outcome,
        EnqueueOutcome::DurableOnly
    );
    assert_eq!(r.state(), QueueState::Overflowed);

    while let Some((token, _)) = r.claim() {
        assert_eq!(r.ack(token), AckOutcome::Acknowledged);
    }
    assert_eq!(r.depth(), 0);
    assert_eq!(r.state(), QueueState::Healthy);
}

#[test]
fn corrupt_queue_rejects_new_events_without_full_warning() {
    let mut r = ring();
    r.degrade_to(QueueState::Corrupt);

    let step = r.try_enqueue(event_id(1), user(1), 10, EVENT_KIND_FAILURE, 0, 0);
    assert_eq!(step.outcome, EnqueueOutcome::Unavailable);
    assert!(!step.should_warn);
    assert_eq!(r.depth(), 0);
    assert_eq!(r.state(), QueueState::Corrupt);
}

#[test]
fn failed_transaction_retry_receives_the_same_event_then_acks_it() {
    let mut r = ring();
    push(&mut r, b'x', true);
    push(&mut r, b'y', false);

    // Attempt 1: claim, transaction fails, no ack.
    let (t1, e1) = r.claim().unwrap();
    // Attempt 2: same claim comes back.
    let (t2, e2) = r.claim().unwrap();
    assert_eq!(t1, t2);
    assert_eq!(e1, e2);
    // Attempt 3 succeeds and acknowledges exactly that token.
    assert_eq!(r.ack(t2), AckOutcome::Acknowledged);
    assert_eq!(r.acknowledged, 1);

    // The next event is a different one, in order.
    let (t3, e3) = r.claim().unwrap();
    assert_ne!(t3, t2);
    assert_eq!(e3.username, user(b'y'));
    assert_eq!(r.ack(t3), AckOutcome::Acknowledged);
    assert!(r.claim().is_none());
}

#[test]
fn corrupt_indices_are_handled_without_panicking() {
    let mut r = ring();
    push(&mut r, 1, true);
    let (token, _) = r.claim().unwrap();

    r.head = u32::MAX;
    assert!(!r.indices_valid());
    assert_eq!(r.depth(), 0);
    assert!(r.claim().is_none());
    assert_eq!(r.state(), QueueState::Corrupt);
    assert_eq!(r.ack(token), AckOutcome::Corrupt);
    assert_eq!(
        r.try_enqueue(event_id(2), user(2), 0, EVENT_KIND_FAILURE, 0, 0)
            .outcome,
        EnqueueOutcome::Unavailable
    );

    let mut r2 = ring();
    r2.tail = RING_SLOTS as u32 + 99;
    assert!(r2.claim().is_none());
    assert_eq!(r2.state(), QueueState::Corrupt);
}

#[test]
fn sequence_exhaustion_fails_closed_instead_of_reusing() {
    let mut r = ring();
    r.next_seq = u64::MAX;

    let step = r.try_enqueue(event_id(1), user(1), 0, EVENT_KIND_FAILURE, 0, 0);
    assert_eq!(step.outcome, EnqueueOutcome::Unavailable);
    assert!(step.should_warn);
    assert_eq!(r.state(), QueueState::Corrupt);
    assert_eq!(r.rejected, 1);
    // Nothing was written and no sequence number was handed out twice.
    assert_eq!(r.depth(), 0);
    assert_eq!(r.next_seq, u64::MAX);
}

#[test]
fn sequence_numbers_are_never_reused() {
    let mut r = ring();
    r.next_seq = u64::MAX - 2;

    push(&mut r, 1, true);
    let first = r.claim().unwrap().0;
    assert_eq!(r.ack(first), AckOutcome::Acknowledged);
    push(&mut r, 2, true);
    let second = r.claim().unwrap().0;
    assert_ne!(first.seq, second.seq);
    assert_eq!(r.ack(second), AckOutcome::Acknowledged);

    // The last usable sequence number is consumed, then the ring refuses
    // further writes rather than wrapping and reusing sequence numbers.
    assert_eq!(r.next_seq, u64::MAX);
    assert_eq!(
        r.try_enqueue(event_id(3), user(3), 0, EVENT_KIND_FAILURE, 0, 0)
            .outcome,
        EnqueueOutcome::Unavailable
    );
}

#[test]
fn event_kind_validation_rejects_unknown_discriminants() {
    assert_eq!(
        EventKind::from_raw(EVENT_KIND_FAILURE),
        Some(EventKind::Failure)
    );
    assert_eq!(
        EventKind::from_raw(EVENT_KIND_SUCCESS),
        Some(EventKind::Success)
    );
    assert_eq!(
        EventKind::from_raw(EVENT_KIND_GRACE_CONSUMED),
        Some(EventKind::GraceConsumed)
    );
    assert_eq!(EventKind::from_raw(0), None);
    assert_eq!(EventKind::from_raw(4), None);
    assert_eq!(EventKind::from_raw(255), None);
}

#[test]
fn grace_event_carries_its_generation() {
    let mut r = ring();
    let u = user(b'g');
    assert_eq!(
        r.try_enqueue(event_id(b'g'), u, 0, EVENT_KIND_GRACE_CONSUMED, 0, 424242)
            .outcome,
        EnqueueOutcome::Enqueued
    );
    let (_, ev) = r.claim().unwrap();
    assert_eq!(ev.kind, EVENT_KIND_GRACE_CONSUMED);
    assert_eq!(ev.generation, 424242);
}

#[test]
fn unknown_raw_state_maps_to_corrupt() {
    assert_eq!(QueueState::from_raw(0), QueueState::Healthy);
    assert_eq!(QueueState::from_raw(1), QueueState::Overflowed);
    assert_eq!(QueueState::from_raw(2), QueueState::Corrupt);
    assert_eq!(QueueState::from_raw(-7), QueueState::Corrupt);
    assert_eq!(QueueState::from_raw(9999), QueueState::Corrupt);
}

#[test]
fn corrupt_outranks_overflowed_and_is_not_downgraded() {
    let mut r = ring();
    r.degrade_to(QueueState::Overflowed);
    assert_eq!(r.state(), QueueState::Overflowed);
    r.degrade_to(QueueState::Corrupt);
    assert_eq!(r.state(), QueueState::Corrupt);
    r.degrade_to(QueueState::Overflowed);
    assert_eq!(r.state(), QueueState::Corrupt);
}

#[test]
fn recording_appends_to_the_ring_and_counts_the_journal() {
    let mut r = ring();
    let mut health = WorkerHealth::new();
    let (outcome, warning) = enqueue(
        &mut r,
        &mut health,
        "alice",
        EVENT_KIND_FAILURE,
        EventFlags::none(),
        Some(event_id(5)),
        77,
        true,
    );
    assert_eq!(outcome, EnqueueOutcome::Enqueued);
    assert_eq!(warning, None);
    assert_eq!(r.journaled, 1);
    assert_eq!(durable_degraded_since(Some(&health)), None);
    let (_, event) = r.claim().unwrap();
    assert_eq!(&event.username[..6], b"alice\0");
    assert_eq!(event.timestamp, 77);
    assert_eq!(event.generation, 0);
    assert_eq!(event.seq, 1);
}

#[test]
fn failed_append_is_not_durable_and_pauses_enforcement() {
    let mut r = ring();
    let mut health = WorkerHealth::new();
    let (outcome, warning) = enqueue(
        &mut r,
        &mut health,
        "alice",
        EVENT_KIND_SUCCESS,
        EventFlags::none(),
        Some(event_id(5)),
        1_000,
        false,
    );
    assert_eq!(outcome, EnqueueOutcome::Unavailable);
    assert!(!outcome.is_durable());
    assert_eq!(warning, Some(QueueWarning::JournalFailure));
    assert_eq!(r.depth(), 0);
    assert_eq!(r.rejected, 1);
    assert_eq!(r.journal_failures, 1);
    assert_eq!(r.state(), QueueState::Healthy);
    assert_eq!(durable_degraded_since(Some(&health)), Some(1_000));

    // A second failure within the interval stays silent.
    let (_, again) = enqueue(
        &mut r,
        &mut health,
        "alice",
        EVENT_KIND_SUCCESS,
        EventFlags::none(),
        Some(event_id(6)),
        2_000,
        false,
    );
    assert_eq!(again, None);
}

#[test]
fn event_without_identity_touches_neither_ring_nor_counters() {
    let mut r = ring();
    let mut health = WorkerHealth::new();
    let step = enqueue_encoded_silent(
        &mut r,
        &mut health,
        &user(1),
        EVENT_KIND_SUCCESS,
        EventFlags::none(),
        0,
        None,
        0,
        true,
    );
    assert_eq!(step.outcome, EnqueueOutcome::Unavailable);
    assert!(!step.should_warn);
    assert_eq!(r.rejected, 0);
    assert_eq!(r.journaled, 0);
    // Time 0 stands for "healthy", so 1 is recorded in its place.
    assert_eq!(durable_degraded_since(Some(&health)), Some(1));
}

#[test]
fn journaled_event_is_durable_even_when_the_ring_is_corrupt() {
    let mut r = ring();
    let mut health = WorkerHealth::new();
    mark_corrupt(&mut r);
    let (outcome, warning) = enqueue(
        &mut r,
        &mut health,
        "bob",
        EVENT_KIND_FAILURE,
        EventFlags::none(),
        Some(event_id(2)),
        9,
        true,
    );
    assert_eq!(outcome, EnqueueOutcome::DurableOnly);
    assert_eq!(warning, None);
    assert_eq!(r.durable_only, 1);
    assert_eq!(r.depth(), 0);
}

#[test]
fn full_ring_asks_for_the_queue_full_warning() {
    let mut r = ring();
    let mut health = WorkerHealth::new();
    for i in 0..USABLE_CAPACITY {
        push(&mut r, (i % 251) as u8 + 1, true);
    }
    let (outcome, warning) = enqueue(
        &mut r,
        &mut health,
        "bob",
        EVENT_KIND_FAILURE,
        EventFlags::none(),
        Some(event_id(2)),
        9,
        true,
    );
    assert_eq!(outcome, EnqueueOutcome::DurableOnly);
    assert_eq!(warning, Some(QueueWarning::QueueFull));
    assert_eq!(r.depth(), USABLE_CAPACITY);
}

#[test]
fn claim_is_matched_by_event_identity() {
    let mut r = ring();
    push(&mut r, 7, true);
    let token = matching_claim(&mut r, &event_id(7)).unwrap();
    assert_eq!(token, ClaimToken { slot: 0, seq: 1 });
    assert_eq!(matching_claim(&mut r, &event_id(8)), None);
    assert_eq!(r.depth(), 1);
}

#[test]
fn failed_commit_acknowledgement_marks_the_queue_corrupt() {
    let mut r = ring();
    push(&mut r, 7, true);
    let token = r.claim().unwrap().0;
    assert_eq!(ack_claim(&mut r, token), AckOutcome::Acknowledged);
    assert_eq!(state(Some(&r)), QueueState::Healthy);
    assert_eq!(ack_claim(&mut r, token), AckOutcome::Stale);
    assert_eq!(state(Some(&r)), QueueState::Corrupt);
    assert_eq!(state(None), QueueState::Corrupt);
}

#[test]
fn recovery_resets_only_a_corrupt_ring_with_sound_journals() {
    let mut r = ring();
    push(&mut r, 7, true);
    assert!(matches!(recover_corrupt_ring(&mut r, None, None), Ok(false)));
    assert_eq!(r.depth(), 1);

    mark_corrupt(&mut r);
    let mut username = [0u8; LOCK_USERNAME_BYTES];
    username[0] = b'a';
    let (_, mut event) = r.claim().unwrap();
    event.username = username;
    let good = encode(&event);
    let mut bad = good;
    bad[0] = b'X';
    assert!(matches!(
        recover_corrupt_ring(&mut r, Some(&good[..]), Some(&bad[..])),
        Err(JournalError::Corrupt(JournalFault::InvalidHeader))
    ));
    assert_eq!(r.state(), QueueState::Corrupt);
    assert_eq!(r.depth(), 1);

    // A torn last record is not held against the journal.
    let mut torn = good.to_vec();
    torn.extend_from_slice(&bad[..40]);
    assert!(matches!(
        recover_corrupt_ring(&mut r, Some(&torn[..]), None),
        Ok(true)
    ));
    assert_eq!(r.state(), QueueState::Healthy);
    assert_eq!(r.depth(), 0);
    assert_eq!(r.next_seq, 1);
}

#[test]
fn queue_statistics_are_normalized() {
    let mut r = ring();
    push(&mut r, 1, true);
    push(&mut r, 2, true);
    r.state = 9999;
    r.accepted = u64::MAX;
    let s = stats(Some(&r)).unwrap();
    assert_eq!(s.usable_capacity, 1023);
    assert_eq!(s.depth, 2);
    assert_eq!(s.has_pending, 1);
    assert_eq!(s.state, 2);
    assert_eq!(s.accepted, i64::MAX);
    assert_eq!(s.next_seq, 3);
    assert!(stats(None).is_none());
}

#[test]
fn ring_memory_holds_all_slots() {
    assert_eq!(shared_memory_bytes(), std::mem::size_of::<AuthEventRing>());
    assert!(shared_memory_bytes() >= RING_SLOTS * 96);
}

#[test]
fn flags_survive_the_trip_through_their_raw_form() {
    let flags = EventFlags::for_admission(true);
    assert_eq!(flags.raw(), EVENT_FLAG_CLEAR_LOGIN_ATTEMPTS);
    assert_eq!(EventFlags::from_raw(flags.raw()), Some(flags));
    assert_eq!(EventFlags::for_admission(false).raw(), 0);
}

#[test]
fn indices_wrap_while_something_is_pending() {
    let mut r = ring();
    push(&mut r, 1, true);
    for i in 0..RING_SLOTS {
        push(&mut r, (i % 250) as u8 + 2, true);
        let (token, event) = r.claim().unwrap();
        assert_eq!(token.slot as usize, i);
        assert_eq!(event.seq, i as u64 + 1);
        assert_eq!(r.ack(token), AckOutcome::Acknowledged);
        assert_eq!(r.depth(), 1);
    }
    let (token, _) = r.claim().unwrap();
    assert_eq!(token.slot, 0);
    assert_eq!(r.ack(token), AckOutcome::Acknowledged);
    assert_eq!(r.depth(), 0);
}
