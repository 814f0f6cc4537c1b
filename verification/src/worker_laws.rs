//! Laws of the worker: what retries restore, what replay repeats, and when consumption may run.

use crate::auth_event::{EventFlags, EventKind, SharedAuthEvent, EVENT_ID_BYTES};
use crate::bypass_cache::BypassModel;
use crate::expiry_cache::ExpiryModel;
use crate::lock_cache::LockModel;
use crate::worker;
use crate::worker::{AffectedCaches, Consumer, DegradedByRetry, RoundFacts};
use vstd::prelude::*;

verus! {

/// A retry sequence that ends well leaves both caches as it found them.
pub proof fn retry_round_trip(affects: AffectedCaches, lock: LockModel, expiry: ExpiryModel)
    ensures
        ({
            let start = DegradedByRetry { lock: false, expiry: false };
            let d = start.marked(affects, lock, expiry);
            &&& d.restored_lock(start.marked_lock(affects, lock)) == lock
            &&& d.restored_expiry(start.marked_expiry(affects, expiry)) == expiry
        }),
{
}

/// A cache the event does not write is never touched by its retries.
pub proof fn retry_spares_other_caches(
    d: DegradedByRetry,
    affects: AffectedCaches,
    lock: LockModel,
    expiry: ExpiryModel,
)
    ensures
        !affects.lock ==> d.marked_lock(affects, lock) == lock && d.marked(
            affects,
            lock,
            expiry,
        ).lock == d.lock,
        !affects.expiry ==> d.marked_expiry(affects, expiry) == expiry && d.marked(
            affects,
            lock,
            expiry,
        ).expiry == d.expiry,
{
}

/// A cache that is incomplete is never announced as ready by a retry sequence: restoring makes
/// ready only what the sequence itself took down, and marking never overwrites an incomplete
/// state.
pub proof fn retry_never_hides_incompleteness(
    d: DegradedByRetry,
    affects: AffectedCaches,
    lock: LockModel,
    expiry: ExpiryModel,
)
    ensures
        lock.readiness() is Overflow || lock.readiness() is NotReady ==> d.restored_lock(lock)
            == lock && d.marked_lock(affects, lock) == lock,
        expiry.readiness() is Overflow || expiry.readiness() is NotReady ==> d.restored_expiry(
            expiry,
        ) == expiry && d.marked_expiry(affects, expiry) == expiry,
        d.restored_lock(lock).readiness() is Ready ==> lock.readiness() is Ready || d.lock,
        d.restored_expiry(expiry).readiness() is Ready ==> expiry.readiness() is Ready || d.expiry,
{
}

/// Consumption runs only while nobody asked for a shutdown, the queue is intact, and every needed
/// cache is either hydrated or was taken down by the running retry sequence itself.
pub proof fn consumption_is_guarded(c: Consumer, f: RoundFacts)
    requires
        c.gate(f) is Proceed,
    ensures
        !f.shutdown,
        !(f.queue is Corrupt),
        f.needed.lock ==> f.lock is Ready || f.lock is Overflow || c.degraded.lock,
        f.needed.expiry ==> f.expiry is Ready || f.expiry is Overflow || c.degraded.expiry,
{
}

/// A cache that no enabled feature needs never stops the worker.
pub proof fn unneeded_caches_do_not_block(c: Consumer, f: RoundFacts)
    requires
        !f.shutdown,
        !(f.queue is Corrupt),
        !f.needed.lock && !f.needed.expiry,
        f.degraded_since is None,
    ensures
        c.gate(f) is Proceed,
{
}

/// Once the worker has left, no cache claims to be ready, and a state that said something else is
/// kept.
pub proof fn nothing_is_ready_without_a_worker(
    lock: LockModel,
    expiry: ExpiryModel,
    bypass: BypassModel,
)
    ensures
        !(worker::abandoned_lock(lock).readiness() is Ready),
        !(worker::abandoned_expiry(expiry).readiness() is Ready),
        !(worker::abandoned_bypass(bypass).readiness() is Ready),
        !(lock.readiness() is Ready) ==> worker::abandoned_lock(lock) == lock,
        !(expiry.readiness() is Ready) ==> worker::abandoned_expiry(expiry) == expiry,
        !(bypass.readiness() is Ready) ==> worker::abandoned_bypass(bypass) == bypass,
{
}

/// A failed login never clears anything, and only a grace login touches the allowance.
pub proof fn effects_fit_the_kind(is_new: bool, kind: EventKind, flags: EventFlags)
    ensures
        kind is Failure ==> !worker::effects(is_new, kind, flags).clear_attempts,
        worker::effects(is_new, kind, flags).persist_grace ==> kind is GraceConsumed,
        worker::effects(is_new, kind, flags).record_failure ==> kind is Failure,
        !flags.clears() ==> !worker::effects(is_new, kind, flags).clear_attempts,
{
}

/// The events of a replay that have an effect, given the receipts that exist: each whose identity
/// has none yet. Every event leaves a receipt in the transaction that applies it.
pub open spec fn effective(
    events: Seq<SharedAuthEvent>,
    receipts: Set<[u8; EVENT_ID_BYTES]>,
) -> Seq<SharedAuthEvent>
    decreases events.len(),
{
    if events.len() == 0 {
        Seq::empty()
    } else {
        let first = events[0];
        let rest = effective(events.drop_first(), receipts.insert(first.event_id));
        if receipts.contains(first.event_id) {
            rest
        } else {
            seq![first] + rest
        }
    }
}

/// The receipts after a replay.
pub open spec fn receipts_after(
    events: Seq<SharedAuthEvent>,
    receipts: Set<[u8; EVENT_ID_BYTES]>,
) -> Set<[u8; EVENT_ID_BYTES]>
    decreases events.len(),
{
    if events.len() == 0 {
        receipts
    } else {
        receipts_after(events.drop_first(), receipts.insert(events[0].event_id))
    }
}

/// Receipts are kept, and every replayed event has one afterwards.
pub proof fn receipts_grow(events: Seq<SharedAuthEvent>, receipts: Set<[u8; EVENT_ID_BYTES]>)
    ensures
        receipts.subset_of(receipts_after(events, receipts)),
        forall|i: int|
            0 <= i < events.len() ==> receipts_after(events, receipts).contains(
                (#[trigger] events[i]).event_id,
            ),
    decreases events.len(),
{
    if events.len() > 0 {
        let rest = events.drop_first();
        let more = receipts.insert(events[0].event_id);
        receipts_grow(rest, more);
        assert forall|i: int| 0 <= i < events.len() implies receipts_after(
            events,
            receipts,
        ).contains((#[trigger] events[i]).event_id) by {
            if i > 0 {
                assert(rest[i - 1] == events[i]);
            } else {
                assert(more.contains(events[0].event_id));
            }
        }
    }
}

proof fn covered_has_no_effect(events: Seq<SharedAuthEvent>, receipts: Set<[u8; EVENT_ID_BYTES]>)
    requires
        forall|i: int|
            0 <= i < events.len() ==> receipts.contains((#[trigger] events[i]).event_id),
    ensures
        effective(events, receipts) == Seq::<SharedAuthEvent>::empty(),
    decreases events.len(),
{
    if events.len() > 0 {
        let rest = events.drop_first();
        let more = receipts.insert(events[0].event_id);
        assert forall|i: int| 0 <= i < rest.len() implies more.contains(
            (#[trigger] rest[i]).event_id,
        ) by {
            assert(rest[i] == events[i + 1]);
        }
        covered_has_no_effect(rest, more);
    }
}

/// Replay is idempotent: replaying a journal again after all of it was applied has no effect.
pub proof fn replay_is_idempotent(
    events: Seq<SharedAuthEvent>,
    receipts: Set<[u8; EVENT_ID_BYTES]>,
)
    ensures
        effective(events, receipts_after(events, receipts)) == Seq::<SharedAuthEvent>::empty(),
{
    receipts_grow(events, receipts);
    covered_has_no_effect(events, receipts_after(events, receipts));
}

/// A crash in the middle costs and repeats nothing: what took effect before it, followed by what
/// takes effect when the whole journal is replayed, is what an undisturbed replay does.
pub proof fn crash_costs_nothing(
    events: Seq<SharedAuthEvent>,
    applied: int,
    receipts: Set<[u8; EVENT_ID_BYTES]>,
)
    requires
        0 <= applied <= events.len(),
    ensures
        effective(events.take(applied), receipts) + effective(
            events,
            receipts_after(events.take(applied), receipts),
        ) == effective(events, receipts),
    decreases events.len(),
{
    let done = events.take(applied);
    let after = receipts_after(done, receipts);
    receipts_grow(done, receipts);
    split_replay(events, applied, after);
    split_replay(events, applied, receipts);
    covered_has_no_effect(done, after);
    covered_leaves_receipts(done, after);
    assert(effective(done, receipts) + effective(events, after) =~= effective(events, receipts));
}

proof fn covered_leaves_receipts(
    events: Seq<SharedAuthEvent>,
    receipts: Set<[u8; EVENT_ID_BYTES]>,
)
    requires
        forall|i: int|
            0 <= i < events.len() ==> receipts.contains((#[trigger] events[i]).event_id),
    ensures
        receipts_after(events, receipts) == receipts,
    decreases events.len(),
{
    if events.len() > 0 {
        let rest = events.drop_first();
        assert(receipts.insert(events[0].event_id) =~= receipts);
        assert forall|i: int| 0 <= i < rest.len() implies receipts.contains(
            (#[trigger] rest[i]).event_id,
        ) by {
            assert(rest[i] == events[i + 1]);
        }
        covered_leaves_receipts(rest, receipts);
    }
}

proof fn split_replay(
    events: Seq<SharedAuthEvent>,
    at: int,
    receipts: Set<[u8; EVENT_ID_BYTES]>,
)
    requires
        0 <= at <= events.len(),
    ensures
        effective(events, receipts) == effective(events.take(at), receipts) + effective(
            events.skip(at),
            receipts_after(events.take(at), receipts),
        ),
    decreases at,
{
    if at == 0 {
        assert(events.take(0) =~= Seq::<SharedAuthEvent>::empty());
        assert(events.skip(0) =~= events);
        assert(effective(events, receipts) =~= Seq::<SharedAuthEvent>::empty() + effective(
            events,
            receipts,
        ));
    } else {
        let rest = events.drop_first();
        let more = receipts.insert(events[0].event_id);
        split_replay(rest, at - 1, more);
        assert(events.take(at).drop_first() =~= rest.take(at - 1));
        assert(events.skip(at) =~= rest.skip(at - 1));
        assert(events.take(at)[0] == events[0]);
        assert(effective(events, receipts) =~= effective(events.take(at), receipts) + effective(
            events.skip(at),
            receipts_after(events.take(at), receipts),
        ));
    }
}

} // verus!
