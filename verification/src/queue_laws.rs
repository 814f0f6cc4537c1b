//! Laws of the authentication queue: when an event is taken, what is counted, and when to warn.

use crate::auth_event;
use crate::auth_event::{
    AckOutcome, AuthEventRing, ClaimToken, EnqueueOutcome, EnqueueStep, EventFlags, EventKind,
    QueueState, QueueStats, QueueWarning, RingModel, SharedAuthEvent, EVENT_ID_BYTES,
};
use crate::auth_journal;
use crate::username::LOCK_USERNAME_BYTES;
use crate::worker_health::WorkerHealth;
use vstd::prelude::*;

verus! {

/// Flags are accepted when they are none or the one flag there is, and any other bit is refused; the
/// flag asks for the attempts to be cleared, and a login bears it exactly when lockouts were enforced.
pub proof fn flags_are_validated(raw: u8, r: Option<EventFlags>, enforced: bool)
    requires
        call_ensures(EventFlags::from_raw, (raw,), r),
    ensures
        raw == 0 || raw == 1 ==> r == Some(EventFlags(raw)),
        raw > 1 ==> r is None,
        EventFlags(1u8).clears(),
        !EventFlags(0u8).clears(),
        EventFlags::admission(enforced).clears() <==> enforced,
        EventFlags::admission(enforced).0 <= 1,
{
    assert(1u8 & 1u8 != 0 && 0u8 & 1u8 == 0) by (bit_vector);
}

/// The three kinds of event are told apart, and nothing else is one.
pub proof fn kinds_are_validated(raw: u8)
    ensures
        raw == 1 ==> EventKind::of_raw(raw) == Some(EventKind::Failure),
        raw == 2 ==> EventKind::of_raw(raw) == Some(EventKind::Success),
        raw == 3 ==> EventKind::of_raw(raw) == Some(EventKind::GraceConsumed),
        raw == 0 || raw > 3 ==> EventKind::of_raw(raw) is None,
{
}

/// A health is read back as it was stored, and a number that stands for none is corruption, as is a
/// missing ring.
pub proof fn health_is_read_back(
    state: QueueState,
    raw: i32,
    ring: &AuthEventRing,
    with: QueueState,
    without: QueueState,
)
    requires
        call_ensures(auth_event::state, (Some(ring),), with),
        call_ensures(auth_event::state, (None,), without),
    ensures
        QueueState::of_raw(state.number()) == state,
        raw < 0 || raw > 2 ==> QueueState::of_raw(raw) == QueueState::Corrupt,
        with == QueueState::of_raw(ring@.state),
        without == QueueState::Corrupt,
{
}

/// The ring can take an event: its indices name slots, it is not corrupt, the slot after the newest
/// event is free and a sequence number is left.
pub open spec fn takes(m: RingModel) -> bool {
    &&& 0 <= m.head < 1024
    &&& 0 <= m.tail < 1024
    &&& m.state == 0 || m.state == 1
    &&& (m.head + 1) % 1024 != m.tail
    &&& m.next_seq != u64::MAX
}

/// The ring is intact and every slot it may use is taken.
pub open spec fn crowded(m: RingModel) -> bool {
    &&& 0 <= m.head < 1024
    &&& 0 <= m.tail < 1024
    &&& m.state == 0 || m.state == 1
    &&& (m.head + 1) % 1024 == m.tail
}

/// An offer is accepted exactly when the ring can take the event, is left to the journal exactly when
/// the ring is crowded, and is unavailable otherwise; whether it had overflowed before plays no part.
pub proof fn offer_is_decided_by_the_ring(m: RingModel)
    ensures
        m.offer_outcome() == EnqueueOutcome::Enqueued <==> takes(m),
        m.offer_outcome() == EnqueueOutcome::DurableOnly <==> crowded(m),
        m.offer_outcome() == EnqueueOutcome::Unavailable <==> !takes(m) && !crowded(m),
{
}

/// An accepted event is counted once and numbered, and changes neither health nor the other counters. A
/// refusal of a crowded ring is counted as refused and as left to the journal, and a healthy ring has
/// then overflowed. An offer to a ring that cannot be used leaves it corrupt.
pub proof fn offer_is_counted(m: RingModel, event: SharedAuthEvent)
    requires
        0 <= m.next_seq <= u64::MAX,
        0 <= m.accepted < u64::MAX,
        0 <= m.rejected < u64::MAX,
        0 <= m.durable_only < u64::MAX,
    ensures
        ({
            let after = m.offered(event);
            &&& takes(m) ==> {
                &&& after.accepted == m.accepted + 1
                &&& after.next_seq == m.next_seq + 1
                &&& after.head == (m.head + 1) % 1024
                &&& after.rejected == m.rejected
                &&& after.durable_only == m.durable_only
                &&& after.state == m.state
                &&& after.last_warned_at == m.last_warned_at
                &&& m.head < m.events.len() ==> {
                    let stored = after.events[m.head];
                    &&& stored.event_id == event.event_id
                    &&& stored.username == event.username
                    &&& stored.timestamp == event.timestamp
                    &&& stored.seq == m.next_seq
                    &&& stored.kind == event.kind
                    &&& stored.generation == event.generation
                    &&& stored.flags == event.flags
                }
            }
            &&& crowded(m) ==> {
                &&& after.accepted == m.accepted
                &&& after.rejected == m.rejected + 1
                &&& after.durable_only == m.durable_only + 1
                &&& after.state == 1
            }
            &&& !takes(m) && !crowded(m) ==> {
                &&& QueueState::of_raw(after.state) == QueueState::Corrupt
                &&& after.accepted == m.accepted
                &&& after.durable_only == m.durable_only
            }
            &&& !takes(m) ==> after.events == m.events && after.head == m.head && after.next_seq
                == m.next_seq
            &&& after.tail == m.tail
            &&& after.acknowledged == m.acknowledged
            &&& after.journaled == m.journaled
            &&& after.journal_failures == m.journal_failures
        }),
{
}

/// A warning is due when a healthy queue turns unhealthy, when none was given yet, and otherwise only a
/// minute after the last; an accepted event never warns, and a corrupt ring does not warn again.
pub proof fn warnings_are_due(m: RingModel, was_healthy: bool, now: i64)
    ensures
        was_healthy ==> m.warning_due(was_healthy, now),
        m.last_warned_at == 0 ==> m.warning_due(was_healthy, now),
        !was_healthy && m.last_warned_at != 0 ==> (m.warning_due(was_healthy, now) <==> now
            - m.last_warned_at >= 60_000_000),
        m.warning_due(was_healthy, now) ==> m.warned(was_healthy, now).last_warned_at == now,
        !m.warning_due(was_healthy, now) ==> m.warned(was_healthy, now) == m,
        m.warned(was_healthy, now).state == m.state,
        m.warned(was_healthy, now).events == m.events,
        takes(m) ==> !m.offer_warns(now),
        crowded(m) ==> (m.offer_warns(now) <==> m.state == 0 || m.last_warned_at == 0 || now
            - m.last_warned_at >= 60_000_000),
        !takes(m) && !crowded(m) ==> (m.offer_warns(now) <==> m.state == 0),
{
}

/// A warning that is given is remembered, and then only time or recovery makes another one due.
pub proof fn refusals_warn_once(m: RingModel, event: SharedAuthEvent, next: SharedAuthEvent)
    requires
        crowded(m),
        event.timestamp != 0,
        0 <= next.timestamp - event.timestamp < 60_000_000,
        m.offer_warns(event.timestamp),
    ensures
        m.offered(event).last_warned_at == event.timestamp,
        !m.offered(event).offer_warns(next.timestamp),
{
}

/// A degradation never heals: corruption is always noted, an overflow only of a healthy queue.
pub proof fn degradation_never_heals(m: RingModel)
    ensures
        m.degraded(QueueState::Corrupt).health() == QueueState::Corrupt,
        m.degraded(QueueState::Healthy) == m,
        m.degraded(QueueState::Overflowed).health() == if m.health() == QueueState::Healthy {
            QueueState::Overflowed
        } else {
            m.health()
        },
        m.degraded(QueueState::Corrupt).events == m.events,
        m.degraded(QueueState::Overflowed).events == m.events,
{
}

/// A record whose append failed is counted as refused and as a journal failure and reaches no slot; one
/// that was appended is counted as journaled, and as left to the journal exactly when the ring did not
/// accept it.
pub proof fn record_is_counted(m: RingModel, event: SharedAuthEvent)
    requires
        0 <= m.rejected < u64::MAX,
        0 <= m.journaled < u64::MAX,
        0 <= m.durable_only < u64::MAX,
        0 <= m.journal_failures < u64::MAX,
        0 <= m.accepted < u64::MAX,
        0 <= m.next_seq <= u64::MAX,
    ensures
        ({
            let failed = m.recorded(event, false);
            let after = m.recorded(event, true);
            &&& failed.rejected == m.rejected + 1
            &&& failed.journal_failures == m.journal_failures + 1
            &&& failed.journaled == m.journaled
            &&& failed.accepted == m.accepted
            &&& failed.durable_only == m.durable_only
            &&& failed.events == m.events
            &&& failed.head == m.head
            &&& failed.tail == m.tail
            &&& failed.state == m.state
            &&& after.journaled == m.journaled + 1
            &&& after.journal_failures == m.journal_failures
            &&& after.accepted == m.accepted + if takes(m) {
                1int
            } else {
                0
            }
            &&& after.durable_only == m.durable_only + if takes(m) {
                0int
            } else {
                1
            }
            &&& after.tail == m.tail
        }),
{
}

/// What recording comes to: unavailable exactly when the append failed, enqueued exactly when it
/// succeeded and the ring took the event. A failed append warns unless one was given within the last
/// minute.
pub proof fn record_is_decided(m: RingModel, now: i64)
    ensures
        m.record_outcome(false) == EnqueueOutcome::Unavailable,
        m.record_outcome(true) == EnqueueOutcome::Enqueued <==> takes(m),
        m.record_outcome(true) == EnqueueOutcome::DurableOnly <==> !takes(m),
        m.record_warns(now, true) == m.offer_warns(now),
        m.record_warns(now, false) <==> m.last_warned_at == 0 || now - m.last_warned_at
            >= 60_000_000,
{
}

/// What survives a crash is what is not unavailable, and what does not is a durable failure.
pub proof fn durability_is_told(outcome: EnqueueOutcome, health: WorkerHealth, now: i64)
    ensures
        outcome.durable() <==> outcome != EnqueueOutcome::Unavailable,
        auth_event::health_after(health, now, true) == health,
        auth_event::health_after(health, now, false) == health.with_durable_failure(now),
{
}

/// A step warns only when it should: of the journal when nothing was recorded, of the queue otherwise.
pub proof fn warning_names_the_trouble(step: EnqueueStep)
    ensures
        auth_event::step_warning(step) is Some <==> step.should_warn,
        auth_event::step_warning(step) == Some(QueueWarning::JournalFailure) <==> step.should_warn
            && step.outcome == EnqueueOutcome::Unavailable,
{
}

/// An event to record says what it is made of.
pub proof fn admission_event_is_complete(
    name: &[u8; LOCK_USERNAME_BYTES],
    kind: u8,
    flags: EventFlags,
    generation: i64,
    id: [u8; EVENT_ID_BYTES],
    now: i64,
    event: SharedAuthEvent,
)
    requires
        call_ensures(
            auth_event::admission_event,
            (name, kind, flags, generation, id, now),
            event,
        ),
    ensures
        event.event_id == id,
        event.username == *name,
        event.timestamp == now,
        event.kind == kind,
        event.generation == generation,
        event.flags == flags.0,
{
}

/// A claim belongs to an event exactly when the oldest pending event has its identity; the token then
/// names the oldest slot and that event's number.
pub proof fn claim_belongs_to_the_oldest(m: RingModel, id: [u8; EVENT_ID_BYTES])
    ensures
        m.claim_for(id) is Some <==> m.pending().len() > 0 && m.pending()[0].event_id == id,
        m.claim_for(id) matches Some(token) ==> token.seq == m.pending()[0].seq && token.slot
            == m.tail,
        m.indices_valid() ==> m.claimed() == m,
        !m.indices_valid() ==> m.claimed().health() == QueueState::Corrupt,
{
}

/// An acknowledgement succeeds exactly for the token of the oldest pending event, is stale for any
/// other, and fails on unusable indices alone.
pub proof fn acknowledgement_is_exact(m: RingModel, token: ClaimToken)
    ensures
        ({
            let usable = 0 <= m.head < 1024 && 0 <= m.tail < 1024;
            let oldest = usable && m.pending().len() > 0 && token.slot == m.tail && token.seq
                == m.pending()[0].seq;
            &&& m.ack_outcome(token) == AckOutcome::Acknowledged <==> oldest
            &&& m.ack_outcome(token) == AckOutcome::Corrupt <==> !usable
            &&& m.ack_outcome(token) == AckOutcome::Stale <==> usable && !oldest
        }),
{
}

/// A successful acknowledgement is counted; it heals an overflow exactly when it empties the ring, and
/// never corruption. After a commit anything but success is corruption.
pub proof fn acknowledgement_is_counted(m: RingModel, token: ClaimToken)
    requires
        0 <= m.acknowledged < u64::MAX,
    ensures
        ({
            let done = m.ack_outcome(token) == AckOutcome::Acknowledged;
            let after = m.acked(token);
            &&& done ==> after.acknowledged == m.acknowledged + 1
            &&& done ==> after.state == if m.state == 1 && m.pending().len() == 1 {
                0
            } else {
                m.state
            }
            &&& !done ==> after.acknowledged == m.acknowledged
            &&& m.ack_outcome(token) == AckOutcome::Stale ==> after == m
            &&& after.accepted == m.accepted
            &&& after.rejected == m.rejected
            &&& after.next_seq == m.next_seq
            &&& done ==> m.commit_acked(token) == after
            &&& !done ==> m.commit_acked(token).health() == QueueState::Corrupt
            &&& !done ==> m.commit_acked(token).events == m.events
        }),
{
}

/// A ring is reset only when it is corrupt and both journal files verify, where a missing file has
/// nothing to verify; what is left is empty and healthy.
pub proof fn only_corruption_is_reset(
    m: RingModel,
    processing: Option<Seq<u8>>,
    active: Option<Seq<u8>>,
)
    ensures
        auth_event::resettable(m, processing, active) <==> {
            &&& m.state != 0 && m.state != 1
            &&& auth_journal::file_fault(processing) is None
            &&& auth_journal::file_fault(active) is None
        },
        RingModel::fresh().pending().len() == 0,
        RingModel::fresh().health() == QueueState::Healthy,
        RingModel::fresh().next_seq == 1,
{
}

/// The numbers a ring reports are its own: at most 1023 events wait, and something waits exactly when
/// an acknowledgement is owed.
pub proof fn reported_numbers_are_the_rings(m: RingModel, s: QueueStats)
    requires
        auth_event::reported(m, s),
        0 <= m.accepted <= i64::MAX,
        0 <= m.acknowledged <= i64::MAX,
        0 <= m.rejected <= i64::MAX,
        0 <= m.journaled <= i64::MAX,
        0 <= m.durable_only <= i64::MAX,
        0 <= m.journal_failures <= i64::MAX,
        0 <= m.next_seq <= i64::MAX,
    ensures
        s.usable_capacity == 1023,
        s.depth == m.pending().len(),
        0 <= s.depth <= 1023,
        s.has_pending == 1 <==> m.pending().len() > 0,
        s.has_pending == 0 <==> m.pending().len() == 0,
        s.accepted == m.accepted,
        s.acknowledged == m.acknowledged,
        s.rejected == m.rejected,
        s.journaled == m.journaled,
        s.durable_only == m.durable_only,
        s.journal_failures == m.journal_failures,
        s.next_seq == m.next_seq,
        m.state == 0 ==> s.state == 0,
        m.state == 1 ==> s.state == 1,
        m.state != 0 && m.state != 1 ==> s.state == 2,
{
}

/// A ring that was never used holds nothing in any slot.
pub proof fn fresh_slots_hold_nothing(i: int)
    requires
        0 <= i < 1024,
    ensures
        ({
            let e = RingModel::fresh().events[i];
            &&& RingModel::fresh().events.len() == 1024
            &&& e.timestamp == 0
            &&& e.seq == 0
            &&& e.generation == 0
            &&& e.flags == 0
            &&& e.event_id@[0] == 0
            &&& e.username@[0] == 0
        }),
{
}

} // verus!
