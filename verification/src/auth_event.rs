//! Authentication-event ring with claim and acknowledge.
//!
//! A consumer claims the oldest event, which copies it out and moves nothing, applies it in a
//! database transaction, and acknowledges the claim when that transaction commits. Only an
//! acknowledgement advances `tail`, so an aborted transaction leaves the same event to be claimed
//! again. A full ring refuses a new event instead of overwriting an old one.
//!
//! The ring is a bounded accelerator in memory. The durable journal is authoritative: an event is
//! appended there before it is offered here.

use crate::arith;
use crate::auth_journal;
use crate::auth_journal::JournalError;
use crate::username::{encode_username, LOCK_USERNAME_BYTES};
use crate::worker_health::{mark_durable_failure, WorkerHealth};
use vstd::prelude::*;

verus! {

/// Slots of the ring. One is always left empty to tell full from empty.
pub const RING_SLOTS: usize = 1024;

/// Events the ring can hold.
pub const USABLE_CAPACITY: u32 = 1023;

/// Bytes of an event's identity.
pub const EVENT_ID_BYTES: usize = 16;

/// One authentication event. Kind and flags are raw bytes: shared memory can hold anything, so
/// they are validated by [`EventKind::from_raw`] and [`EventFlags::from_raw`] where they are read.
#[derive(Clone, Copy, PartialEq, Eq, Debug)]
pub struct SharedAuthEvent {
    /// Identity shared by the durable journal and the ring.
    pub event_id: [u8; EVENT_ID_BYTES],
    pub username: [u8; LOCK_USERNAME_BYTES],
    pub timestamp: i64,
    /// Assigned by the ring and never handed out twice.
    pub seq: u64,
    pub kind: u8,
    /// Password generation a grace login was taken from; 0 for the other kinds.
    pub generation: i64,
    /// What the authentication hook decided when it admitted the login.
    pub flags: u8,
}

/// Native authentication failed.
pub const EVENT_KIND_FAILURE: u8 = 1;

/// Native authentication succeeded.
pub const EVENT_KIND_SUCCESS: u8 = 2;

/// Native authentication succeeded and used up one grace login.
pub const EVENT_KIND_GRACE_CONSUMED: u8 = 3;

/// Failed-attempt state is to be cleared in the transaction that persists the event.
pub const EVENT_FLAG_CLEAR_LOGIN_ATTEMPTS: u8 = 0x01;

/// Every flag bit that has a meaning.
pub const EVENT_FLAGS_KNOWN: u8 = EVENT_FLAG_CLEAR_LOGIN_ATTEMPTS;

/// Minimum spacing of two queue warnings after the first, in microseconds.
pub const QUEUE_WARN_INTERVAL_US: i64 = 60_000_000;

/// Every bit of `raw` has a meaning.
pub open spec fn flags_known(raw: u8) -> bool {
    raw == 0 || raw == EVENT_FLAG_CLEAR_LOGIN_ATTEMPTS
}

/// Validated event flags.
#[derive(Clone, Copy, PartialEq, Eq, Debug, Structural)]
pub struct EventFlags(pub u8);

impl EventFlags {
    /// No flag.
    pub fn none() -> (r: EventFlags)
        ensures
            r == EventFlags(0),
    {
        EventFlags(0)
    }

    /// The flag that asks for failed-attempt state to be cleared.
    pub fn clearing_login_attempts() -> (r: EventFlags)
        ensures
            r == EventFlags(EVENT_FLAG_CLEAR_LOGIN_ATTEMPTS),
    {
        EventFlags(EVENT_FLAG_CLEAR_LOGIN_ATTEMPTS)
    }

    /// Validates raw bits; an unknown bit means corruption and is never masked away.
    pub fn from_raw(raw: u8) -> (r: Option<EventFlags>)
        ensures
            r == if flags_known(raw) {
                Some(EventFlags(raw))
            } else {
                None
            },
    {
        assert((raw & !1u8 == 0) == (raw == 0 || raw == 1)) by (bit_vector);
        if raw & !EVENT_FLAGS_KNOWN != 0 {
            return None;
        }
        Some(EventFlags(raw))
    }

    /// The raw bits.
    pub fn raw(self) -> (r: u8)
        ensures
            r == self.0,
    {
        self.0
    }

    /// The event asks for failed-attempt state to be cleared.
    pub open spec fn clears(self) -> bool {
        self.0 & EVENT_FLAG_CLEAR_LOGIN_ATTEMPTS != 0
    }

    /// Whether the event asks for failed-attempt state to be cleared.
    pub fn clear_login_attempts(self) -> (r: bool)
        ensures
            r == self.clears(),
    {
        self.0 & EVENT_FLAG_CLEAR_LOGIN_ATTEMPTS != 0
    }

    /// The flags of a login admitted while lockout enforcement was on or off.
    pub open spec fn admission(lockout_active: bool) -> EventFlags {
        if lockout_active {
            EventFlags(EVENT_FLAG_CLEAR_LOGIN_ATTEMPTS)
        } else {
            EventFlags(0)
        }
    }

    /// Chooses the flags for a successful login from the enforcement state at admission.
    pub fn for_admission(lockout_active: bool) -> (r: EventFlags)
        ensures
            r == EventFlags::admission(lockout_active),
            flags_known(r.0),
            r.clears() == lockout_active,
    {
        assert(1u8 & 1u8 != 0 && 0u8 & 1u8 == 0) by (bit_vector);
        if lockout_active {
            EventFlags::clearing_login_attempts()
        } else {
            EventFlags::none()
        }
    }
}

/// Validated event kind.
#[derive(Clone, Copy, PartialEq, Eq, Debug, Structural)]
pub enum EventKind {
    Failure,
    Success,
    GraceConsumed,
}

impl EventKind {
    /// The kind a raw byte stands for.
    pub open spec fn of_raw(raw: u8) -> Option<EventKind> {
        if raw == EVENT_KIND_FAILURE {
            Some(EventKind::Failure)
        } else if raw == EVENT_KIND_SUCCESS {
            Some(EventKind::Success)
        } else if raw == EVENT_KIND_GRACE_CONSUMED {
            Some(EventKind::GraceConsumed)
        } else {
            None
        }
    }

    /// Validates a raw byte; `None` means corruption.
    pub fn from_raw(raw: u8) -> (r: Option<EventKind>)
        ensures
            r == EventKind::of_raw(raw),
    {
        if raw == EVENT_KIND_FAILURE {
            Some(EventKind::Failure)
        } else if raw == EVENT_KIND_SUCCESS {
            Some(EventKind::Success)
        } else if raw == EVENT_KIND_GRACE_CONSUMED {
            Some(EventKind::GraceConsumed)
        } else {
            None
        }
    }
}

impl SharedAuthEvent {
    /// The event that fills an unused slot.
    pub open spec fn blank() -> SharedAuthEvent {
        SharedAuthEvent {
            event_id: [0u8; EVENT_ID_BYTES],
            username: [0u8; LOCK_USERNAME_BYTES],
            timestamp: 0,
            seq: 0,
            kind: EVENT_KIND_SUCCESS,
            generation: 0,
            flags: 0,
        }
    }

    /// The event that fills an unused slot.
    pub fn empty() -> (e: SharedAuthEvent)
        ensures
            e == SharedAuthEvent::blank(),
    {
        SharedAuthEvent {
            event_id: [0u8; EVENT_ID_BYTES],
            username: [0u8; LOCK_USERNAME_BYTES],
            timestamp: 0,
            seq: 0,
            kind: EVENT_KIND_SUCCESS,
            generation: 0,
            flags: 0,
        }
    }
}

/// Proof of which ring entry a consumer is processing.
#[derive(Clone, Copy, PartialEq, Eq, Debug, Structural)]
pub struct ClaimToken {
    pub slot: u32,
    pub seq: u64,
}

/// Health of the queue.
#[derive(Clone, Copy, PartialEq, Eq, Debug, Structural)]
pub enum QueueState {
    /// Accepting and delivering events.
    Healthy,
    /// A durable event did not fit; draining the ring recovers.
    Overflowed,
    /// A structural invariant failed; only explicit recovery helps.
    Corrupt,
}

impl QueueState {
    /// The state a raw number stands for; an unknown number is `Corrupt`.
    pub open spec fn of_raw(raw: i32) -> QueueState {
        if raw == 0 {
            QueueState::Healthy
        } else if raw == 1 {
            QueueState::Overflowed
        } else {
            QueueState::Corrupt
        }
    }

    /// The number a state is stored under.
    pub open spec fn number(self) -> i32 {
        match self {
            QueueState::Healthy => 0,
            QueueState::Overflowed => 1,
            QueueState::Corrupt => 2,
        }
    }

    /// Reads a raw number; an unknown one is `Corrupt`.
    pub fn from_raw(raw: i32) -> (r: QueueState)
        ensures
            r == QueueState::of_raw(raw),
    {
        match raw {
            0 => QueueState::Healthy,
            1 => QueueState::Overflowed,
            _ => QueueState::Corrupt,
        }
    }

    /// The number the state is stored under.
    pub fn raw(self) -> (r: i32)
        ensures
            r == self.number(),
    {
        match self {
            QueueState::Healthy => 0,
            QueueState::Overflowed => 1,
            QueueState::Corrupt => 2,
        }
    }
}

/// Result of offering an event.
#[derive(Clone, Copy, PartialEq, Eq, Debug, Structural)]
#[must_use]
pub enum EnqueueOutcome {
    /// Accepted and visible to the consumer.
    Enqueued,
    /// Durable, but the ring was full or unavailable; the worker reads it from the journal.
    DurableOnly,
    /// Not recorded durably.
    Unavailable,
}

impl EnqueueOutcome {
    /// The event survives a crash.
    pub open spec fn durable(self) -> bool {
        self is Enqueued || self is DurableOnly
    }

    /// Whether the event survives a crash.
    pub fn is_durable(self) -> (r: bool)
        ensures
            r == self.durable(),
    {
        match self {
            EnqueueOutcome::Enqueued => true,
            EnqueueOutcome::DurableOnly => true,
            EnqueueOutcome::Unavailable => false,
        }
    }
}

/// Result of acknowledging a claim.
#[derive(Clone, Copy, PartialEq, Eq, Debug, Structural)]
#[must_use]
pub enum AckOutcome {
    /// The token matched the tail entry, and `tail` advanced past it.
    Acknowledged,
    /// The token does not stand for the tail entry; nothing moved.
    Stale,
    /// The indices are unusable.
    Corrupt,
}

/// Outcome of one offer, with the decision whether to warn about it.
///
/// The warning is due when the offer turns a healthy queue unhealthy, and after that at most once
/// per [`QUEUE_WARN_INTERVAL_US`].
#[derive(Clone, Copy, PartialEq, Eq, Debug, Structural)]
#[must_use]
pub struct EnqueueStep {
    pub outcome: EnqueueOutcome,
    pub should_warn: bool,
}

/// The ring as it lies in shared memory. Every field may hold anything, so every operation checks
/// the indices before it uses them.
#[derive(Clone, Copy)]
pub struct AuthEventRing {
    /// Next slot a producer writes; `head == tail` means empty.
    pub head: u32,
    /// Oldest unacknowledged slot, advanced only by [`AuthEventRing::ack`].
    pub tail: u32,
    /// Next sequence number to assign.
    pub next_seq: u64,
    pub accepted: u64,
    pub acknowledged: u64,
    pub rejected: u64,
    pub journaled: u64,
    pub durable_only: u64,
    pub journal_failures: u64,
    /// Raw [`QueueState`].
    pub state: i32,
    /// Time of the last warning any backend was cleared to emit; 0 for none.
    pub last_warned_at: i64,
    pub events: [SharedAuthEvent; RING_SLOTS],
}

/// Mathematical model of the ring.
#[verifier::ext_equal]
pub struct RingModel {
    pub head: int,
    pub tail: int,
    pub next_seq: int,
    pub accepted: int,
    pub acknowledged: int,
    pub rejected: int,
    pub journaled: int,
    pub durable_only: int,
    pub journal_failures: int,
    pub state: i32,
    pub last_warned_at: i64,
    pub events: Seq<SharedAuthEvent>,
}

/// One more, up to the largest `u64`.
pub open spec fn one_more(count: int) -> int {
    if count >= u64::MAX {
        count
    } else {
        count + 1
    }
}

/// The slot after `index`.
pub open spec fn next_slot(index: int) -> int {
    (index + 1) % (RING_SLOTS as int)
}

impl RingModel {
    /// Both indices name a slot.
    pub open spec fn indices_valid(self) -> bool {
        0 <= self.head < RING_SLOTS && 0 <= self.tail < RING_SLOTS
    }

    /// How many events are unacknowledged; 0 when the indices are unusable.
    pub open spec fn depth(self) -> int {
        if self.indices_valid() {
            (self.head - self.tail) % (RING_SLOTS as int)
        } else {
            0
        }
    }

    /// The unacknowledged events, oldest first.
    pub open spec fn pending(self) -> Seq<SharedAuthEvent> {
        Seq::new(
            self.depth() as nat,
            |i: int| self.events[(self.tail + i) % (RING_SLOTS as int)],
        )
    }

    /// The queue's health.
    pub open spec fn health(self) -> QueueState {
        QueueState::of_raw(self.state)
    }

    /// No slot is free.
    pub open spec fn full(self) -> bool {
        next_slot(self.head) == self.tail
    }

    /// The model after a degradation to `to`: `Corrupt` outranks `Overflowed`, and nothing here
    /// makes the queue healthy.
    pub open spec fn degraded(self, to: QueueState) -> RingModel {
        match to {
            QueueState::Healthy => self,
            QueueState::Overflowed => if self.health() is Healthy {
                RingModel { state: QueueState::Overflowed.number(), ..self }
            } else {
                self
            },
            QueueState::Corrupt => RingModel { state: QueueState::Corrupt.number(), ..self },
        }
    }

    /// A warning is due at `now`.
    pub open spec fn warning_due(self, was_healthy: bool, now: i64) -> bool {
        ||| was_healthy
        ||| self.last_warned_at == 0
        ||| arith::clamp_i64(now - self.last_warned_at) >= QUEUE_WARN_INTERVAL_US
    }

    /// The model after a warning was decided on at `now`.
    pub open spec fn warned(self, was_healthy: bool, now: i64) -> RingModel {
        if self.warning_due(was_healthy, now) {
            RingModel { last_warned_at: now, ..self }
        } else {
            self
        }
    }

    /// What an offer comes to.
    pub open spec fn offer_outcome(self) -> EnqueueOutcome {
        if !self.indices_valid() || self.health() is Corrupt {
            EnqueueOutcome::Unavailable
        } else if self.full() {
            EnqueueOutcome::DurableOnly
        } else if self.next_seq == u64::MAX {
            EnqueueOutcome::Unavailable
        } else {
            EnqueueOutcome::Enqueued
        }
    }

    /// Whether an offer at `now` is to be warned about.
    pub open spec fn offer_warns(self, now: i64) -> bool {
        match self.offer_outcome() {
            EnqueueOutcome::Enqueued => false,
            EnqueueOutcome::DurableOnly => self.warning_due(self.health() is Healthy, now),
            EnqueueOutcome::Unavailable => self.health() is Healthy,
        }
    }

    /// The model after `event` was offered. Its `seq` is the ring's to assign.
    pub open spec fn offered(self, event: SharedAuthEvent) -> RingModel {
        let healthy = self.health() is Healthy;
        match self.offer_outcome() {
            EnqueueOutcome::Enqueued => RingModel {
                events: self.events.update(
                    self.head,
                    SharedAuthEvent { seq: self.next_seq as u64, ..event },
                ),
                head: next_slot(self.head),
                next_seq: self.next_seq + 1,
                accepted: one_more(self.accepted),
                ..self
            },
            EnqueueOutcome::DurableOnly => RingModel {
                rejected: one_more(self.rejected),
                durable_only: one_more(self.durable_only),
                ..self.degraded(QueueState::Overflowed).warned(healthy, event.timestamp)
            },
            EnqueueOutcome::Unavailable => if self.indices_valid() && self.health() is Corrupt {
                self
            } else {
                RingModel {
                    rejected: if self.indices_valid() {
                        one_more(self.rejected)
                    } else {
                        self.rejected
                    },
                    last_warned_at: if healthy {
                        event.timestamp
                    } else {
                        self.last_warned_at
                    },
                    ..self.degraded(QueueState::Corrupt)
                }
            },
        }
    }

    /// What a claim hands out.
    pub open spec fn claim_result(self) -> Option<(ClaimToken, SharedAuthEvent)> {
        if self.pending().len() == 0 {
            None
        } else {
            let event = self.pending()[0];
            Some((ClaimToken { slot: self.tail as u32, seq: event.seq }, event))
        }
    }

    /// The model after a claim: unusable indices are noted as corruption, else nothing changes.
    pub open spec fn claimed(self) -> RingModel {
        if self.indices_valid() {
            self
        } else {
            self.degraded(QueueState::Corrupt)
        }
    }

    /// What acknowledging `token` comes to.
    pub open spec fn ack_outcome(self, token: ClaimToken) -> AckOutcome {
        if !self.indices_valid() {
            AckOutcome::Corrupt
        } else if self.claim_result() matches Some((current, _)) && current == token {
            AckOutcome::Acknowledged
        } else {
            AckOutcome::Stale
        }
    }

    /// `tail` is at the newest event, so acknowledging it empties the ring.
    pub open spec fn at_last(self) -> bool {
        next_slot(self.tail) == self.head
    }

    /// The model after `token` was acknowledged. A ring that becomes empty starts over at its first
    /// slot, and an overflowed one is healthy again.
    pub open spec fn acked(self, token: ClaimToken) -> RingModel {
        match self.ack_outcome(token) {
            AckOutcome::Corrupt => self.degraded(QueueState::Corrupt),
            AckOutcome::Stale => self,
            AckOutcome::Acknowledged => RingModel {
                head: if self.at_last() {
                    0
                } else {
                    self.head
                },
                tail: if self.at_last() {
                    0
                } else {
                    next_slot(self.tail)
                },
                acknowledged: one_more(self.acknowledged),
                state: if self.at_last() && self.health() is Overflowed {
                    QueueState::Healthy.number()
                } else {
                    self.state
                },
                ..self
            },
        }
    }

    /// What recording an event comes to, given whether its journal append succeeded: what is in
    /// the journal is durable whatever the ring does.
    pub open spec fn record_outcome(self, appended: bool) -> EnqueueOutcome {
        if !appended {
            EnqueueOutcome::Unavailable
        } else if self.offer_outcome() is Enqueued {
            EnqueueOutcome::Enqueued
        } else {
            EnqueueOutcome::DurableOnly
        }
    }

    /// Whether recording an event at `now` is to be warned about.
    pub open spec fn record_warns(self, now: i64, appended: bool) -> bool {
        if appended {
            self.offer_warns(now)
        } else {
            self.warning_due(false, now)
        }
    }

    /// The model after an event was recorded. A failed append is counted and the ring is left
    /// alone; a successful one is counted and the event is offered.
    pub open spec fn recorded(self, event: SharedAuthEvent, appended: bool) -> RingModel {
        if !appended {
            RingModel {
                rejected: one_more(self.rejected),
                journal_failures: one_more(self.journal_failures),
                ..self.warned(false, event.timestamp)
            }
        } else {
            let after = RingModel {
                journaled: one_more(self.journaled),
                ..self
            }.offered(event);
            RingModel {
                durable_only: if self.offer_outcome() is Unavailable {
                    one_more(after.durable_only)
                } else {
                    after.durable_only
                },
                ..after
            }
        }
    }

    /// The claim that belongs to the event with this identity: that of the oldest event, when it
    /// is that event.
    pub open spec fn claim_for(self, event_id: [u8; EVENT_ID_BYTES]) -> Option<ClaimToken> {
        match self.claim_result() {
            Some((token, event)) => if event.event_id == event_id {
                Some(token)
            } else {
                None
            },
            None => None,
        }
    }

    /// The model after a committed transaction acknowledged `token`: anything but success is
    /// noted as corruption.
    pub open spec fn commit_acked(self, token: ClaimToken) -> RingModel {
        if self.ack_outcome(token) is Acknowledged {
            self.acked(token)
        } else {
            self.acked(token).degraded(QueueState::Corrupt)
        }
    }

    /// The model of a ring that was never used.
    pub open spec fn fresh() -> RingModel {
        RingModel {
            head: 0,
            tail: 0,
            next_seq: 1,
            accepted: 0,
            acknowledged: 0,
            rejected: 0,
            journaled: 0,
            durable_only: 0,
            journal_failures: 0,
            state: QueueState::Healthy.number(),
            last_warned_at: 0,
            events: Seq::new(RING_SLOTS as nat, |i: int| SharedAuthEvent::blank()),
        }
    }
}

impl View for AuthEventRing {
    type V = RingModel;

    open spec fn view(&self) -> RingModel {
        RingModel {
            head: self.head as int,
            tail: self.tail as int,
            next_seq: self.next_seq as int,
            accepted: self.accepted as int,
            acknowledged: self.acknowledged as int,
            rejected: self.rejected as int,
            journaled: self.journaled as int,
            durable_only: self.durable_only as int,
            journal_failures: self.journal_failures as int,
            state: self.state,
            last_warned_at: self.last_warned_at,
            events: self.events@,
        }
    }
}

impl AuthEventRing {
    /// An empty, healthy ring.
    pub fn new() -> (ring: AuthEventRing)
        ensures
            ring@ == RingModel::fresh(),
    {
        AuthEventRing {
            head: 0,
            tail: 0,
            next_seq: 1,
            accepted: 0,
            acknowledged: 0,
            rejected: 0,
            journaled: 0,
            durable_only: 0,
            journal_failures: 0,
            state: QueueState::Healthy.raw(),
            last_warned_at: 0,
            events: [SharedAuthEvent::empty();RING_SLOTS],
        }
    }

    /// Whether both indices name a slot.
    pub fn indices_valid(&self) -> (r: bool)
        ensures
            r == self@.indices_valid(),
    {
        (self.head as usize) < RING_SLOTS && (self.tail as usize) < RING_SLOTS
    }

    fn advance(index: u32) -> (r: u32)
        requires
            index < RING_SLOTS,
        ensures
            r == next_slot(index as int),
            r < RING_SLOTS,
    {
        (index + 1) % (RING_SLOTS as u32)
    }

    /// How many events are unacknowledged.
    pub fn depth(&self) -> (r: u32)
        ensures
            r == self@.depth(),
            r == self@.pending().len(),
    {
        if !self.indices_valid() {
            return 0;
        }
        (self.head + RING_SLOTS as u32 - self.tail) % (RING_SLOTS as u32)
    }

    /// The queue's health.
    pub fn state(&self) -> (r: QueueState)
        ensures
            r == self@.health(),
    {
        QueueState::from_raw(self.state)
    }

    /// Notes a degradation; never makes the queue healthier.
    pub fn degrade_to(&mut self, new_state: QueueState)
        ensures
            final(self)@ == old(self)@.degraded(new_state),
    {
        if new_state != QueueState::Healthy {
            if new_state == QueueState::Corrupt || self.state() == QueueState::Healthy {
                self.state = new_state.raw();
            }
        }
    }

    /// Decides whether a warning may be emitted at `now`, and remembers when it may.
    pub fn should_warn_now(&mut self, was_healthy: bool, now: i64) -> (due: bool)
        ensures
            due == old(self)@.warning_due(was_healthy, now),
            final(self)@ == old(self)@.warned(was_healthy, now),
    {
        if was_healthy || self.last_warned_at == 0 || arith::saturating_sub_i64(
            now,
            self.last_warned_at,
        ) >= QUEUE_WARN_INTERVAL_US {
            self.last_warned_at = now;
            true
        } else {
            false
        }
    }

    /// Offers an event. It never overwrites an entry and never moves `tail`.
    pub fn try_enqueue(
        &mut self,
        event_id: [u8; EVENT_ID_BYTES],
        username: [u8; LOCK_USERNAME_BYTES],
        timestamp: i64,
        kind: u8,
        flags: u8,
        generation: i64,
    ) -> (step: EnqueueStep)
        ensures
            step.outcome == old(self)@.offer_outcome(),
            step.should_warn == old(self)@.offer_warns(timestamp),
            final(self)@ == old(self)@.offered(
                SharedAuthEvent { event_id, username, timestamp, seq: 0, kind, generation, flags },
            ),
    {
        let was_healthy = self.state() == QueueState::Healthy;
        if !self.indices_valid() {
            self.degrade_to(QueueState::Corrupt);
            if was_healthy {
                self.last_warned_at = timestamp;
            }
            return EnqueueStep {
                outcome: EnqueueOutcome::Unavailable,
                should_warn: was_healthy,
            };
        }
        if self.state() == QueueState::Corrupt {
            return EnqueueStep { outcome: EnqueueOutcome::Unavailable, should_warn: false };
        }
        let next_head: u32 = Self::advance(self.head);
        if next_head == self.tail {
            self.rejected = self.rejected.saturating_add(1);
            self.durable_only = self.durable_only.saturating_add(1);
            self.degrade_to(QueueState::Overflowed);
            let should_warn = self.should_warn_now(was_healthy, timestamp);
            return EnqueueStep { outcome: EnqueueOutcome::DurableOnly, should_warn };
        }
        if self.next_seq == u64::MAX {
            self.rejected = self.rejected.saturating_add(1);
            self.degrade_to(QueueState::Corrupt);
            if was_healthy {
                self.last_warned_at = timestamp;
            }
            return EnqueueStep {
                outcome: EnqueueOutcome::Unavailable,
                should_warn: was_healthy,
            };
        }
        let seq: u64 = self.next_seq;
        self.next_seq = seq + 1;
        self.events[self.head as usize] = SharedAuthEvent {
            event_id,
            username,
            timestamp,
            seq,
            kind,
            generation,
            flags,
        };
        self.head = next_head;
        self.accepted = self.accepted.saturating_add(1);
        EnqueueStep { outcome: EnqueueOutcome::Enqueued, should_warn: false }
    }

    /// Copies out the oldest unacknowledged event without advancing `tail`.
    pub fn claim(&mut self) -> (r: Option<(ClaimToken, SharedAuthEvent)>)
        ensures
            r == old(self)@.claim_result(),
            final(self)@ == old(self)@.claimed(),
    {
        if !self.indices_valid() {
            self.degrade_to(QueueState::Corrupt);
            return None;
        }
        if self.head == self.tail {
            return None;
        }
        let slot: u32 = self.tail;
        let event = self.events[slot as usize];
        Some((ClaimToken { slot, seq: event.seq }, event))
    }

    /// Advances `tail` past the claimed entry, when the token still stands for it. A ring that
    /// becomes empty starts over at its first slot.
    pub fn ack(&mut self, token: ClaimToken) -> (r: AckOutcome)
        ensures
            r == old(self)@.ack_outcome(token),
            final(self)@ == old(self)@.acked(token),
    {
        if !self.indices_valid() {
            self.degrade_to(QueueState::Corrupt);
            return AckOutcome::Corrupt;
        }
        if self.head == self.tail {
            return AckOutcome::Stale;
        }
        if token.slot != self.tail {
            return AckOutcome::Stale;
        }
        if self.events[token.slot as usize].seq != token.seq {
            return AckOutcome::Stale;
        }
        self.tail = Self::advance(self.tail);
        self.acknowledged = self.acknowledged.saturating_add(1);
        if self.head == self.tail {
            self.head = 0;
            self.tail = 0;
            if self.state() == QueueState::Overflowed {
                self.state = QueueState::Healthy.raw();
            }
        }
        AckOutcome::Acknowledged
    }
}

/// Bytes of shared memory the ring occupies.
pub fn shared_memory_bytes() -> (n: usize)
    ensures
        n as nat == vstd::layout::size_of::<AuthEventRing>(),
{
    core::mem::size_of::<AuthEventRing>()
}

/// The queue's health; without shared memory it is `Corrupt`.
pub fn state(ring: Option<&AuthEventRing>) -> (r: QueueState)
    ensures
        r == match ring {
            Some(ring) => ring@.health(),
            None => QueueState::Corrupt,
        },
{
    match ring {
        Some(ring) => ring.state(),
        None => QueueState::Corrupt,
    }
}

/// Notes that the queue can no longer be trusted.
pub fn mark_corrupt(ring: &mut AuthEventRing)
    ensures
        final(ring)@ == old(ring)@.degraded(QueueState::Corrupt),
{
    ring.degrade_to(QueueState::Corrupt);
}

/// The event to journal and to offer, before the ring assigns its sequence number.
pub fn admission_event(
    username_bytes: &[u8; LOCK_USERNAME_BYTES],
    kind: u8,
    flags: EventFlags,
    generation: i64,
    event_id: [u8; EVENT_ID_BYTES],
    now: i64,
) -> (event: SharedAuthEvent)
    ensures
        event == (SharedAuthEvent {
            event_id,
            username: *username_bytes,
            timestamp: now,
            seq: 0,
            kind,
            generation,
            flags: flags.0,
        }),
{
    SharedAuthEvent {
        event_id,
        username: *username_bytes,
        timestamp: now,
        seq: 0,
        kind,
        generation,
        flags: flags.raw(),
    }
}

/// The health record after an event was to be made durable at `now`: what is not is a durable failure.
pub open spec fn health_after(health: WorkerHealth, now: i64, durable: bool) -> WorkerHealth {
    if durable {
        health
    } else {
        health.with_durable_failure(now)
    }
}

/// Records an event whose journal append was tried just before, with the outcome `appended`.
///
/// A failed append pauses enforcement for everyone, by the marker in `health`; the event is then
/// not offered. After a successful append the event is durable whatever the ring answers.
pub fn enqueue_encoded_with_id_silent(
    ring: &mut AuthEventRing,
    health: &mut WorkerHealth,
    event: &SharedAuthEvent,
    appended: bool,
) -> (step: EnqueueStep)
    ensures
        step.outcome == old(ring)@.record_outcome(appended),
        step.should_warn == old(ring)@.record_warns(event.timestamp, appended),
        step.outcome.durable() == appended,
        final(ring)@ == old(ring)@.recorded(*event, appended),
        *final(health) == health_after(*old(health), event.timestamp, appended),
{
    if !appended {
        ring.rejected = ring.rejected.saturating_add(1);
        ring.journal_failures = ring.journal_failures.saturating_add(1);
        mark_durable_failure(health, event.timestamp);
        let should_warn = ring.should_warn_now(false, event.timestamp);
        return EnqueueStep { outcome: EnqueueOutcome::Unavailable, should_warn };
    }
    ring.journaled = ring.journaled.saturating_add(1);
    let step = ring.try_enqueue(
        event.event_id,
        event.username,
        event.timestamp,
        event.kind,
        event.flags,
        event.generation,
    );
    if step.outcome == EnqueueOutcome::Unavailable {
        ring.durable_only = ring.durable_only.saturating_add(1);
        return EnqueueStep {
            outcome: EnqueueOutcome::DurableOnly,
            should_warn: step.should_warn,
        };
    }
    step
}

/// Records an event for an already encoded name. Without an identity nothing can be durable: that
/// is treated as a failed append, and neither the ring nor the journal is touched.
pub fn enqueue_encoded_silent(
    ring: &mut AuthEventRing,
    health: &mut WorkerHealth,
    username_bytes: &[u8; LOCK_USERNAME_BYTES],
    kind: u8,
    flags: EventFlags,
    generation: i64,
    event_id: Option<[u8; EVENT_ID_BYTES]>,
    now: i64,
    appended: bool,
) -> (step: EnqueueStep)
    ensures
        match event_id {
            None => {
                &&& step == (EnqueueStep {
                    outcome: EnqueueOutcome::Unavailable,
                    should_warn: false,
                })
                &&& final(ring)@ == old(ring)@
                &&& *final(health) == old(health).with_durable_failure(now)
            },
            Some(id) => {
                let event = SharedAuthEvent {
                    event_id: id,
                    username: *username_bytes,
                    timestamp: now,
                    seq: 0,
                    kind,
                    generation,
                    flags: flags.0,
                };
                &&& step.outcome == old(ring)@.record_outcome(appended)
                &&& step.should_warn == old(ring)@.record_warns(now, appended)
                &&& final(ring)@ == old(ring)@.recorded(event, appended)
                &&& *final(health) == if appended {
                    *old(health)
                } else {
                    old(health).with_durable_failure(now)
                }
            },
        },
        step.outcome.durable() <==> event_id is Some && appended,
        *final(health) == health_after(*old(health), now, event_id is Some && appended),
{
    match event_id {
        None => {
            mark_durable_failure(health, now);
            EnqueueStep { outcome: EnqueueOutcome::Unavailable, should_warn: false }
        },
        Some(id) => {
            let event = admission_event(username_bytes, kind, flags, generation, id, now);
            enqueue_encoded_with_id_silent(ring, health, &event, appended)
        },
    }
}

/// The warning an offer may call for.
#[derive(Clone, Copy, PartialEq, Eq, Debug, Structural)]
pub enum QueueWarning {
    /// The journal could not be written.
    JournalFailure,
    /// The ring is full; the event is in the journal.
    QueueFull,
}

/// The warning a step calls for.
pub open spec fn step_warning(step: EnqueueStep) -> Option<QueueWarning> {
    if !step.should_warn {
        None
    } else if step.outcome is Unavailable {
        Some(QueueWarning::JournalFailure)
    } else {
        Some(QueueWarning::QueueFull)
    }
}

/// Records an event for a login by name, and says which warning to emit once no lock is held.
pub fn enqueue(
    ring: &mut AuthEventRing,
    health: &mut WorkerHealth,
    username: &str,
    kind: u8,
    flags: EventFlags,
    event_id: Option<[u8; EVENT_ID_BYTES]>,
    now: i64,
    appended: bool,
) -> (r: (EnqueueOutcome, Option<QueueWarning>))
    ensures
        r.0.durable() <==> event_id is Some && appended,
        *final(health) == health_after(*old(health), now, event_id is Some && appended),
        match event_id {
            None => {
                &&& r == (EnqueueOutcome::Unavailable, None::<QueueWarning>)
                &&& final(ring)@ == old(ring)@
                &&& *final(health) == old(health).with_durable_failure(now)
            },
            Some(id) => exists|event: SharedAuthEvent|
                {
                    &&& event.event_id == id
                    &&& event.username@ == crate::username::padded_name(
                        vstd::utf8::encode_utf8(username@),
                    )
                    &&& event.timestamp == now
                    &&& event.kind == kind
                    &&& event.generation == 0
                    &&& event.flags == flags.0
                    &&& r.0 == old(ring)@.record_outcome(appended)
                    &&& r.1 == step_warning(
                        EnqueueStep {
                            outcome: r.0,
                            should_warn: old(ring)@.record_warns(now, appended),
                        },
                    )
                    &&& final(ring)@ == #[trigger] old(ring)@.recorded(event, appended)
                    &&& *final(health) == if appended {
                        *old(health)
                    } else {
                        old(health).with_durable_failure(now)
                    }
                },
        },
{
    let name = encode_username(username);
    let ghost before = ring@;
    let step = enqueue_encoded_silent(
        ring,
        health,
        &name,
        kind,
        flags,
        0,
        event_id,
        now,
        appended,
    );
    proof {
        if let Some(id) = event_id {
            let event = SharedAuthEvent {
                event_id: id,
                username: name,
                timestamp: now,
                seq: 0,
                kind,
                generation: 0,
                flags: flags.0,
            };
            assert(ring@ == before.recorded(event, appended));
        }
    }
    let warning = if step.should_warn {
        if step.outcome == EnqueueOutcome::Unavailable {
            Some(QueueWarning::JournalFailure)
        } else {
            Some(QueueWarning::QueueFull)
        }
    } else {
        None
    };
    (step.outcome, warning)
}

fn same_id(a: &[u8; EVENT_ID_BYTES], b: &[u8; EVENT_ID_BYTES]) -> (r: bool)
    ensures
        r == (*a == *b),
{
    let mut i: usize = 0;
    while i < EVENT_ID_BYTES
        invariant
            i <= EVENT_ID_BYTES,
            forall|j: int| 0 <= j < i ==> a@[j] == b@[j],
        decreases EVENT_ID_BYTES - i,
    {
        if a[i] != b[i] {
            assert(a@[i as int] != b@[i as int]);
            return false;
        }
        i = i + 1;
    }
    assert(*a =~= *b) by {
        assert forall|k: int| 0 <= k < EVENT_ID_BYTES implies a[k] == b[k] by {
            assert(a@[k] == b@[k]);
        }
    }
    true
}

/// Claims the oldest event when it is the ring's copy of this durable event. A record that is
/// only in the journal has no claim.
pub fn matching_claim(ring: &mut AuthEventRing, event_id: &[u8; EVENT_ID_BYTES]) -> (r: Option<
    ClaimToken,
>)
    ensures
        r == old(ring)@.claim_for(*event_id),
        final(ring)@ == old(ring)@.claimed(),
{
    match ring.claim() {
        Some((token, event)) => {
            if same_id(&event.event_id, event_id) {
                Some(token)
            } else {
                None
            }
        },
        None => None,
    }
}

/// A corrupt ring may be reset: both journal files verify.
pub open spec fn resettable(
    ring: RingModel,
    processing: Option<Seq<u8>>,
    active: Option<Seq<u8>>,
) -> bool {
    ring.health() is Corrupt && auth_journal::file_fault(processing) is None
        && auth_journal::file_fault(active) is None
}

/// Resets a corrupt ring, but only when both journal files verify; the events they hold are
/// replayed afterwards. Says whether a reset was made. A ring that is not corrupt is left alone
/// and the files are not looked at.
pub fn recover_corrupt_ring(
    ring: &mut AuthEventRing,
    processing: Option<&[u8]>,
    active: Option<&[u8]>,
) -> (r: Result<bool, JournalError>)
    ensures
        ({
            let reset = resettable(
                old(ring)@,
                match processing {
                    Some(b) => Some(b@),
                    None => None,
                },
                match active {
                    Some(b) => Some(b@),
                    None => None,
                },
            );
            &&& r == Ok::<bool, JournalError>(true) <==> reset
            &&& final(ring)@ == if reset {
                RingModel::fresh()
            } else {
                old(ring)@
            }
        }),
        ({
            let first = auth_journal::file_fault(
                match processing {
                    Some(b) => Some(b@),
                    None => None,
                },
            );
            let second = auth_journal::file_fault(
                match active {
                    Some(b) => Some(b@),
                    None => None,
                },
            );
            match r {
                Ok(false) => !(old(ring)@.health() is Corrupt) && final(ring)@ == old(ring)@,
                Ok(true) => {
                    &&& old(ring)@.health() is Corrupt
                    &&& first is None
                    &&& second is None
                    &&& final(ring)@ == RingModel::fresh()
                },
                Err(JournalError::Corrupt(f)) => {
                    &&& old(ring)@.health() is Corrupt
                    &&& if first is Some {
                        first == Some(f)
                    } else {
                        second == Some(f)
                    }
                    &&& final(ring)@ == old(ring)@
                },
                Err(JournalError::Io(_)) => false,
            }
        }),
{
    if ring.state() != QueueState::Corrupt {
        return Ok(false);
    }
    match auth_journal::verify_pending(processing, active) {
        Ok(()) => {
            *ring = AuthEventRing::new();
            Ok(true)
        },
        Err(e) => Err(e),
    }
}

/// Acknowledges a claim for a committed transaction. The commit cannot be undone, so a claim that
/// does not match is noted as corruption instead of being reported.
pub fn ack_claim(ring: &mut AuthEventRing, token: ClaimToken) -> (r: AckOutcome)
    ensures
        r == old(ring)@.ack_outcome(token),
        final(ring)@ == old(ring)@.commit_acked(token),
{
    let outcome = ring.ack(token);
    if outcome != AckOutcome::Acknowledged {
        ring.degrade_to(QueueState::Corrupt);
    }
    outcome
}

/// Counters for the statistics surface.
#[derive(Clone, Copy, PartialEq, Eq, Debug)]
pub struct QueueStats {
    pub usable_capacity: i64,
    pub depth: i64,
    /// 1 when at least one event is unacknowledged.
    pub has_pending: i64,
    pub accepted: i64,
    pub acknowledged: i64,
    pub rejected: i64,
    pub journaled: i64,
    pub durable_only: i64,
    pub journal_failures: i64,
    /// The state's number; an unknown one counts as `Corrupt`.
    pub state: i64,
    pub next_seq: i64,
}

/// The counters a ring reports.
pub open spec fn reported(ring: RingModel, s: QueueStats) -> bool {
    &&& s.usable_capacity == USABLE_CAPACITY
    &&& s.depth == ring.depth()
    &&& s.has_pending == if ring.depth() > 0 {
        1int
    } else {
        0
    }
    &&& s.accepted == arith::clamp_i64(ring.accepted)
    &&& s.acknowledged == arith::clamp_i64(ring.acknowledged)
    &&& s.rejected == arith::clamp_i64(ring.rejected)
    &&& s.journaled == arith::clamp_i64(ring.journaled)
    &&& s.durable_only == arith::clamp_i64(ring.durable_only)
    &&& s.journal_failures == arith::clamp_i64(ring.journal_failures)
    &&& s.state == ring.health().number()
    &&& s.next_seq == arith::clamp_i64(ring.next_seq)
}

/// The counters; `None` without shared memory.
pub fn stats(ring: Option<&AuthEventRing>) -> (r: Option<QueueStats>)
    ensures
        r is Some <==> ring is Some,
        (ring, r) matches (Some(ring), Some(s)) ==> reported(ring@, s),
{
    match ring {
        None => None,
        Some(ring) => {
            let depth: u32 = ring.depth();
            Some(
                QueueStats {
                    usable_capacity: USABLE_CAPACITY as i64,
                    depth: depth as i64,
                    has_pending: arith::flag_to_i64(depth > 0),
                    accepted: arith::counter_to_i64(ring.accepted),
                    acknowledged: arith::counter_to_i64(ring.acknowledged),
                    rejected: arith::counter_to_i64(ring.rejected),
                    journaled: arith::counter_to_i64(ring.journaled),
                    durable_only: arith::counter_to_i64(ring.durable_only),
                    journal_failures: arith::counter_to_i64(ring.journal_failures),
                    state: ring.state().raw() as i64,
                    next_seq: arith::counter_to_i64(ring.next_seq),
                },
            )
        },
    }
}

} // verus!
