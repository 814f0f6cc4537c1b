//! Laws of the authentication-event ring: what every operation keeps, and what follows from a
//! sequence of them.

use crate::auth_event;
use crate::auth_event::{
    ClaimToken, QueueState, RingModel, SharedAuthEvent, QUEUE_WARN_INTERVAL_US, RING_SLOTS,
    USABLE_CAPACITY,
};
use vstd::prelude::*;

verus! {

/// The ring's slots are all there and its indices name slots.
pub open spec fn usable(m: RingModel) -> bool {
    m.indices_valid() && m.events.len() == RING_SLOTS
}

/// Sequence numbers grow from the oldest event to the newest, and the next one is larger still.
pub open spec fn ordered(m: RingModel) -> bool {
    &&& forall|i: int, j: int|
        0 <= i < j < m.pending().len() ==> (#[trigger] m.pending()[i]).seq < (
        #[trigger] m.pending()[j]).seq
    &&& forall|i: int| 0 <= i < m.pending().len() ==> (#[trigger] m.pending()[i]).seq < m.next_seq
}

/// `token` stands for an event that has left the ring: its number was assigned, and every event
/// that is still there has a larger one.
pub open spec fn retired(m: RingModel, token: ClaimToken) -> bool {
    &&& token.seq < m.next_seq
    &&& forall|i: int| 0 <= i < m.pending().len() ==> token.seq < (#[trigger] m.pending()[i]).seq
}

/// An offer appends the event to the pending ones when it is accepted and leaves them alone when
/// it is not. It never moves `tail`, so a claimed event cannot be overwritten.
pub proof fn offer_appends(m: RingModel, event: SharedAuthEvent)
    requires
        m.events.len() == RING_SLOTS,
    ensures
        m.offered(event).tail == m.tail,
        m.offered(event).pending() == if m.offer_outcome() is Enqueued {
            m.pending().push(SharedAuthEvent { seq: m.next_seq as u64, ..event })
        } else {
            m.pending()
        },
{
    let after = m.offered(event);
    if m.offer_outcome() is Enqueued {
        let n = m.depth();
        assert(after.depth() == n + 1);
        assert((m.tail + n) % 1024 == m.head);
        let expected = m.pending().push(SharedAuthEvent { seq: m.next_seq as u64, ..event });
        assert forall|i: int| 0 <= i < n implies #[trigger] after.pending()[i] == expected[i] by {
            assert((m.tail + i) % 1024 != m.head);
        }
        assert(after.pending() =~= expected);
    } else {
        assert(after.pending() =~= m.pending());
    }
}

/// An intact, uncorrupted ring with a sequence number left accepts an event exactly when fewer
/// than [`USABLE_CAPACITY`] are pending, and it never holds more.
pub proof fn accepts_until_full(m: RingModel)
    requires
        usable(m),
    ensures
        m.pending().len() <= USABLE_CAPACITY,
        m.full() <==> m.pending().len() == USABLE_CAPACITY,
        !(m.health() is Corrupt) && m.next_seq != u64::MAX ==> (m.offer_outcome() is Enqueued
            <==> m.pending().len() < USABLE_CAPACITY),
{
}

/// Claiming moves nothing: the pending events stay, and a second claim gives the same event and
/// the same token.
pub proof fn claim_repeats(m: RingModel)
    ensures
        m.claimed().pending() == m.pending(),
        m.claimed().claim_result() == m.claim_result(),
        m.claimed().claimed() == m.claimed(),
{
    assert(m.claimed().pending() =~= m.pending());
}

/// A claim succeeds exactly when something is pending, and hands out the oldest event.
pub proof fn claim_is_oldest(m: RingModel)
    ensures
        m.claim_result() is Some <==> m.pending().len() > 0,
        m.claim_result() matches Some((token, event)) ==> event == m.pending()[0] && token.seq
            == event.seq && m.ack_outcome(token) is Acknowledged,
{
}

/// Acknowledging removes exactly the oldest event when the token stands for it, and nothing
/// otherwise.
pub proof fn ack_removes_oldest(m: RingModel, token: ClaimToken)
    ensures
        m.acked(token).pending() == if m.ack_outcome(token) is Acknowledged {
            m.pending().drop_first()
        } else {
            m.pending()
        },
{
    let after = m.acked(token);
    if m.ack_outcome(token) is Acknowledged {
        assert(m.pending().len() > 0);
        assert(after.depth() == m.depth() - 1);
        let rest = m.pending().drop_first();
        assert forall|i: int| 0 <= i < after.depth() implies #[trigger] after.pending()[i]
            == rest[i] by {
            assert((after.tail + i) % 1024 == (m.tail + (i + 1)) % 1024);
        }
        assert(after.pending() =~= rest);
    } else {
        assert(after.pending() =~= m.pending());
    }
}

/// A token acknowledges at most once: the second acknowledgement is refused and moves nothing.
pub proof fn ack_is_once(m: RingModel, token: ClaimToken)
    requires
        m.ack_outcome(token) is Acknowledged,
    ensures
        m.acked(token).ack_outcome(token) is Stale,
        m.acked(token).acked(token) == m.acked(token),
{
    assert(auth_event::next_slot(m.tail) != m.tail);
}

/// A fresh ring is usable and ordered, and nothing is pending in it.
pub proof fn fresh_is_ordered()
    ensures
        usable(RingModel::fresh()),
        ordered(RingModel::fresh()),
        RingModel::fresh().pending().len() == 0,
{
}

/// Every operation keeps the ring usable and its sequence numbers ordered.
pub proof fn order_is_kept(m: RingModel, event: SharedAuthEvent, token: ClaimToken, to: QueueState)
    requires
        usable(m),
        ordered(m),
        0 <= m.next_seq <= u64::MAX,
    ensures
        usable(m.offered(event)) && ordered(m.offered(event)),
        usable(m.claimed()) && ordered(m.claimed()),
        usable(m.acked(token)) && ordered(m.acked(token)),
        usable(m.degraded(to)) && ordered(m.degraded(to)),
        0 <= m.offered(event).next_seq <= u64::MAX,
{
    offer_appends(m, event);
    ack_removes_oldest(m, token);
    claim_repeats(m);
    assert(m.degraded(to).pending() =~= m.pending());
    let offered = m.offered(event);
    if m.offer_outcome() is Enqueued {
        assert forall|i: int, j: int| 0 <= i < j < offered.pending().len() implies (
        #[trigger] offered.pending()[i]).seq < (#[trigger] offered.pending()[j]).seq by {
            assert(offered.pending()[i] == m.pending()[i]);
            if j < m.pending().len() {
                assert(offered.pending()[j] == m.pending()[j]);
            }
        }
        assert forall|i: int| 0 <= i < offered.pending().len() implies (
        #[trigger] offered.pending()[i]).seq < offered.next_seq by {
            if i < m.pending().len() {
                assert(offered.pending()[i] == m.pending()[i]);
            }
        }
    }
    let acked = m.acked(token);
    if m.ack_outcome(token) is Acknowledged {
        assert forall|i: int, j: int| 0 <= i < j < acked.pending().len() implies (
        #[trigger] acked.pending()[i]).seq < (#[trigger] acked.pending()[j]).seq by {
            assert(acked.pending()[i] == m.pending()[i + 1]);
            assert(acked.pending()[j] == m.pending()[j + 1]);
        }
        assert forall|i: int| 0 <= i < acked.pending().len() implies (
        #[trigger] acked.pending()[i]).seq < acked.next_seq by {
            assert(acked.pending()[i] == m.pending()[i + 1]);
        }
    }
}

/// An acknowledged token is retired.
pub proof fn ack_retires(m: RingModel, token: ClaimToken)
    requires
        ordered(m),
        m.ack_outcome(token) is Acknowledged,
    ensures
        retired(m.acked(token), token),
{
    ack_removes_oldest(m, token);
    let after = m.acked(token);
    assert(m.pending()[0].seq == token.seq);
    assert forall|i: int| 0 <= i < after.pending().len() implies token.seq < (
    #[trigger] after.pending()[i]).seq by {
        assert(after.pending()[i] == m.pending()[i + 1]);
    }
}

/// A retired token stays retired and is never acknowledged again, however many laps the ring
/// makes over its slot.
pub proof fn retired_for_good(
    m: RingModel,
    token: ClaimToken,
    event: SharedAuthEvent,
    other: ClaimToken,
    to: QueueState,
)
    requires
        usable(m),
        retired(m, token),
        0 <= m.next_seq <= u64::MAX,
    ensures
        !(m.ack_outcome(token) is Acknowledged),
        retired(m.offered(event), token),
        retired(m.claimed(), token),
        retired(m.acked(other), token),
        retired(m.degraded(to), token),
{
    offer_appends(m, event);
    ack_removes_oldest(m, other);
    claim_repeats(m);
    assert(m.degraded(to).pending() =~= m.pending());
    let offered = m.offered(event);
    assert forall|i: int| 0 <= i < offered.pending().len() implies token.seq < (
    #[trigger] offered.pending()[i]).seq by {
        if i < m.pending().len() {
            assert(offered.pending()[i] == m.pending()[i]);
        }
    }
    let acked = m.acked(other);
    assert forall|i: int| 0 <= i < acked.pending().len() implies token.seq < (
    #[trigger] acked.pending()[i]).seq by {
        if m.ack_outcome(other) is Acknowledged {
            assert(acked.pending()[i] == m.pending()[i + 1]);
        } else {
            assert(acked.pending()[i] == m.pending()[i]);
        }
    }
}

/// A sequence number that was assigned is below the next one, and the next one never goes back:
/// no number is assigned twice.
pub proof fn sequence_never_repeats(
    m: RingModel,
    event: SharedAuthEvent,
    token: ClaimToken,
    to: QueueState,
)
    requires
        0 <= m.next_seq <= u64::MAX,
    ensures
        m.offered(event).next_seq == m.next_seq + if m.offer_outcome() is Enqueued {
            1int
        } else {
            0
        },
        m.claimed().next_seq == m.next_seq,
        m.acked(token).next_seq == m.next_seq,
        m.degraded(to).next_seq == m.next_seq,
        m.next_seq == u64::MAX ==> !(m.offer_outcome() is Enqueued),
{
}

/// Corruption is never undone by using the ring.
pub proof fn corruption_stays(
    m: RingModel,
    event: SharedAuthEvent,
    token: ClaimToken,
    to: QueueState,
)
    requires
        m.health() is Corrupt,
    ensures
        m.offered(event).health() is Corrupt,
        m.claimed().health() is Corrupt,
        m.acked(token).health() is Corrupt,
        m.degraded(to).health() is Corrupt,
        m.commit_acked(token).health() is Corrupt,
{
}

/// The ring after every pending event was claimed and acknowledged in turn.
pub open spec fn drained(m: RingModel) -> RingModel
    decreases m.pending().len(),
{
    match m.claim_result() {
        Some((token, _)) => {
            proof {
                ack_removes_oldest(m, token);
            }
            drained(m.acked(token))
        },
        None => m,
    }
}

/// Draining an overflowed ring makes it healthy and empty.
pub proof fn draining_recovers(m: RingModel)
    requires
        usable(m),
        !(m.health() is Corrupt),
        m.pending().len() > 0,
    ensures
        drained(m).pending().len() == 0,
        drained(m).health() is Healthy,
    decreases m.pending().len(),
{
    let (token, _) = m.claim_result().unwrap();
    let after = m.acked(token);
    ack_removes_oldest(m, token);
    if after.pending().len() > 0 {
        draining_recovers(after);
    } else {
        assert(after.claim_result() is None);
        assert(drained(after) == after);
        assert(after.head == after.tail);
    }
}

/// A ring to which `events` were offered in order.
pub open spec fn filled(m: RingModel, events: Seq<SharedAuthEvent>) -> RingModel
    decreases events.len(),
{
    if events.len() == 0 {
        m
    } else {
        filled(m, events.drop_last()).offered(events.last())
    }
}

/// First in, first out: as long as they fit, the pending events of a fresh ring are the offered
/// ones in the order they were offered, numbered from 1.
pub proof fn fifo(events: Seq<SharedAuthEvent>)
    requires
        events.len() <= USABLE_CAPACITY,
    ensures
        usable(filled(RingModel::fresh(), events)),
        filled(RingModel::fresh(), events).health() is Healthy,
        filled(RingModel::fresh(), events).next_seq == events.len() + 1,
        filled(RingModel::fresh(), events).pending() == Seq::new(
            events.len(),
            |i: int| SharedAuthEvent { seq: (i + 1) as u64, ..events[i] },
        ),
    decreases events.len(),
{
    let expected = Seq::new(
        events.len(),
        |i: int| SharedAuthEvent { seq: (i + 1) as u64, ..events[i] },
    );
    if events.len() == 0 {
        assert(RingModel::fresh().pending() =~= expected);
    } else {
        let before = filled(RingModel::fresh(), events.drop_last());
        fifo(events.drop_last());
        accepts_until_full(before);
        offer_appends(before, events.last());
        assert(before.offer_outcome() is Enqueued);
        assert(before.offered(events.last()).pending() =~= expected);
    }
}

/// One use of the ring.
pub enum RingMove {
    Offer(SharedAuthEvent),
    /// An event is recorded, and its journal append succeeded or not.
    Record(SharedAuthEvent, bool),
    Claim,
    Acknowledge(ClaimToken),
    /// A committed transaction acknowledges.
    CommitAcknowledge(ClaimToken),
    Degrade(QueueState),
    /// A warning is asked for.
    Warn(bool, i64),
}

/// The ring after one use.
pub open spec fn after_move(m: RingModel, step: RingMove) -> RingModel {
    match step {
        RingMove::Offer(event) => m.offered(event),
        RingMove::Record(event, appended) => m.recorded(event, appended),
        RingMove::Claim => m.claimed(),
        RingMove::Acknowledge(token) => m.acked(token),
        RingMove::CommitAcknowledge(token) => m.commit_acked(token),
        RingMove::Degrade(to) => m.degraded(to),
        RingMove::Warn(was_healthy, now) => m.warned(was_healthy, now),
    }
}

/// The ring after all of `steps`.
pub open spec fn after_moves(m: RingModel, steps: Seq<RingMove>) -> RingModel
    decreases steps.len(),
{
    if steps.len() == 0 {
        m
    } else {
        after_move(after_moves(m, steps.drop_last()), steps.last())
    }
}

/// The books balance: what is pending is what was accepted and not acknowledged, the next sequence
/// number follows the last accepted event's, and the pending numbers are consecutive up to it.
pub open spec fn balanced(m: RingModel) -> bool {
    &&& usable(m)
    &&& 0 <= m.acknowledged <= m.accepted < u64::MAX
    &&& m.next_seq == m.accepted + 1
    &&& m.depth() == m.accepted - m.acknowledged
    &&& forall|i: int|
        0 <= i < m.pending().len() ==> (#[trigger] m.pending()[i]).seq == m.acknowledged + 1 + i
}

proof fn offer_balances(m: RingModel, event: SharedAuthEvent)
    requires
        balanced(m),
    ensures
        balanced(m.offered(event)),
{
    offer_appends(m, event);
    let after = m.offered(event);
    assert(after.pending().len() == after.depth());
    assert forall|i: int| 0 <= i < after.pending().len() implies (
    #[trigger] after.pending()[i]).seq == after.acknowledged + 1 + i by {
        if i < m.pending().len() {
            assert(after.pending()[i] == m.pending()[i]);
        }
    }
}

proof fn ack_balances(m: RingModel, token: ClaimToken)
    requires
        balanced(m),
    ensures
        balanced(m.acked(token)),
{
    ack_removes_oldest(m, token);
    let after = m.acked(token);
    assert(after.pending().len() == after.depth());
    if m.ack_outcome(token) is Acknowledged {
        assert(m.pending().len() > 0);
        assert forall|i: int| 0 <= i < after.pending().len() implies (
        #[trigger] after.pending()[i]).seq == after.acknowledged + 1 + i by {
            assert(after.pending()[i] == m.pending()[i + 1]);
        }
    }
}

/// A ring that differs only in what the books do not speak of is balanced too.
proof fn same_books(m: RingModel, n: RingModel)
    requires
        balanced(m),
        n.head == m.head,
        n.tail == m.tail,
        n.next_seq == m.next_seq,
        n.accepted == m.accepted,
        n.acknowledged == m.acknowledged,
        n.events == m.events,
    ensures
        balanced(n),
{
    assert(n.pending() =~= m.pending());
}

/// However a fresh ring is used, its books balance.
pub proof fn books_balance(steps: Seq<RingMove>)
    ensures
        balanced(after_moves(RingModel::fresh(), steps)),
    decreases steps.len(),
{
    if steps.len() > 0 {
        let m = after_moves(RingModel::fresh(), steps.drop_last());
        books_balance(steps.drop_last());
        match steps.last() {
            RingMove::Offer(event) => {
                offer_balances(m, event);
            },
            RingMove::Record(event, appended) => {
                if appended {
                    let counted = RingModel {
                        journaled: auth_event::one_more(m.journaled),
                        ..m
                    };
                    same_books(m, counted);
                    offer_balances(counted, event);
                    same_books(counted.offered(event), m.recorded(event, appended));
                } else {
                    same_books(m, m.recorded(event, appended));
                }
            },
            RingMove::Claim => {
                same_books(m, m.claimed());
            },
            RingMove::Acknowledge(token) => {
                ack_balances(m, token);
            },
            RingMove::CommitAcknowledge(token) => {
                ack_balances(m, token);
                same_books(m.acked(token), m.commit_acked(token));
            },
            RingMove::Degrade(to) => {
                same_books(m, m.degraded(to));
            },
            RingMove::Warn(was_healthy, now) => {
                same_books(m, m.warned(was_healthy, now));
            },
        }
    }
}

/// What is durable is exactly what the journal took: the ring's own state never makes a recorded
/// event less than durable, and a failed append is never called durable.
pub proof fn durable_means_journaled(m: RingModel, appended: bool)
    ensures
        m.record_outcome(appended).durable() <==> appended,
{
}

/// Once a warning was decided on at a time other than 0, no further refusal warns until the
/// interval has passed.
pub proof fn queue_warnings_are_spaced(m: RingModel, was_healthy: bool, first: i64, second: i64)
    requires
        m.warning_due(was_healthy, first),
        first != 0,
        second - first < QUEUE_WARN_INTERVAL_US,
    ensures
        !m.warned(was_healthy, first).warning_due(false, second),
{
}

} // verus!
