//! Laws of calls on the caches, the ring and the staged work: what each returns and leaves behind.

use crate::attempts;
use crate::attempts::{FailedLogin, FailureFacts};
use crate::auth_event;
use crate::auth_event::{
    AckOutcome, AuthEventRing, ClaimToken, EnqueueOutcome, EnqueueStep, EventFlags, QueueState,
    QueueWarning, SharedAuthEvent, EVENT_ID_BYTES,
};
use crate::auth_journal;
use crate::auth_journal::JournalError;
use crate::bypass_cache;
use crate::bypass_cache::{BypassCache, BypassDecision};
use crate::bypass_laws;
use crate::expiry_cache;
use crate::expiry_cache::{ExpiryCache, ExpiryRow, GraceOutcome, GraceResult};
use crate::expiry_laws;
use crate::history;
use crate::history::WrittenExpiry;
use crate::lock_cache;
use crate::lock_cache::{CacheDecision, CacheOpStatus, HydrationStats, LockCache, LockRow};
use crate::lock_laws;
use crate::pending_cache_op;
use crate::pending_cache_op::{
    ExpiryDecision, PendingEntry, PendingState, SubXactEvent,
};
use crate::queue_laws;
use crate::ring_laws;
use crate::roles;
use crate::search;
use crate::staging_laws;
use crate::username;
use crate::username::LOCK_USERNAME_BYTES;
use crate::worker_health::WorkerHealth;
use vstd::prelude::*;

verus! {

/// A call that sets a lockout which is ahead makes the name locked until exactly then, unless the cache
/// overflows, which takes every slot with somebody else's lockout; nobody else's lockout changes.
pub proof fn set_call_locks(
    cache: &mut LockCache,
    name: &[u8; LOCK_USERNAME_BYTES],
    expires_at: i64,
    now: i64,
    r: CacheOpStatus,
    other: [u8; LOCK_USERNAME_BYTES],
)
    requires
        call_ensures(lock_cache::set, (cache, name, expires_at, now), r),
        lock_laws::distinct(old(cache)@),
        name@[0] != 0,
        other != *name,
    ensures
        expires_at > now && r == CacheOpStatus::Applied ==> final(cache)@.lockout(*name, now)
            == Some(expires_at),
        expires_at <= now ==> r == CacheOpStatus::Applied && final(cache)@ == old(cache)@,
        r == CacheOpStatus::Overflowed ==> final(cache)@.entries == old(cache)@.entries
            && final(cache)@.state == 2,
        r == CacheOpStatus::Applied ==> final(cache)@.state == old(cache)@.state,
        r == CacheOpStatus::Overflowed <==> expires_at > now && forall|i: int|
            0 <= i < old(cache)@.entries.len() ==> {
                &&& (#[trigger] old(cache)@.entries[i]).username@[0] != 0
                &&& old(cache)@.entries[i].username != *name
                &&& old(cache)@.entries[i].expires_at > now
            },
        final(cache)@.lockout(other, now) == old(cache)@.lockout(other, now),
{
    let m = old(cache)@;
    lock_laws::set_overflows_only_when_full(m, *name, expires_at, now);
    lock_laws::set_spares_others(m, *name, expires_at, now, other, now);
    if expires_at > now && r == CacheOpStatus::Applied {
        lock_laws::set_is_found(m, *name, expires_at, now, now);
    } else if r == CacheOpStatus::Overflowed {
        lock_laws::overflow_evicts_nobody(m, *name, expires_at, now);
    }
}

/// A call that clears a lockout unlocks the name and nobody else.
pub proof fn clear_call_unlocks(
    cache: &mut LockCache,
    name: &[u8; LOCK_USERNAME_BYTES],
    now: i64,
    r: CacheOpStatus,
    other: [u8; LOCK_USERNAME_BYTES],
)
    requires
        call_ensures(lock_cache::clear, (cache, name), r),
        lock_laws::distinct(old(cache)@),
        other != *name,
    ensures
        r == CacheOpStatus::Applied,
        final(cache)@.lockout(*name, now) is None,
        final(cache)@.lockout(other, now) == old(cache)@.lockout(other, now),
        final(cache)@.state == old(cache)@.state,
{
    lock_laws::clear_is_gone(old(cache)@, *name, now);
    lock_laws::clear_spares_others(old(cache)@, *name, other, now);
}

/// A hydration call that finds the table rebuilds the cache from its rows, and is ready exactly when they
/// are all of them; one that does not leaves the cache alone.
pub proof fn lock_hydration_call_rebuilds(
    cache: &mut LockCache,
    total: i64,
    rows: Vec<LockRow>,
    now: i64,
    r: Result<HydrationStats, &'static str>,
    untouched: &mut LockCache,
    none: Result<HydrationStats, &'static str>,
    i: int,
)
    requires
        call_ensures(lock_cache::hydrate_from_db, (cache, Some((total, rows)), now), r),
        call_ensures(lock_cache::hydrate_from_db, (untouched, None, now), none),
        rows@.len() <= 2048,
        0 <= i < rows@.len(),
    ensures
        r is Ok,
        none is Err,
        final(untouched)@ == old(untouched)@,
        final(cache)@.state == 1 <==> total <= search::count_where(
            rows@,
            |row: LockRow| lock_laws::complete(row),
        ),
        lock_laws::complete(rows@[i]) && rows@[i].lockout_until->0 > now && username::encoded_name(
            rows@[i].username->0@,
        )@[0] != 0 ==> final(cache)@.lockout(
            username::encoded_name(rows@[i].username->0@),
            now,
        ) is Some,
        r->Ok_0.active_total == total,
{
    lock_laws::hydration_follows_the_rows(total, rows@, final(cache)@, now);
}

/// The seconds that are reported for a role are those of its active lockout, rounded up.
pub proof fn remaining_call_rounds_up(cache: &LockCache, role: &str, now: i64, r: Option<i64>)
    requires
        call_ensures(lock_cache::remaining_seconds, (cache, role, now), r),
    ensures
        ({
            let until = cache@.lockout(username::encoded_name(role@), now);
            &&& r is Some <==> until is Some
            &&& r is Some ==> (r->0 - 1) * 1_000_000 < until->0 - now <= r->0 * 1_000_000
        }),
{
    let until = cache@.lockout(username::encoded_name(role@), now);
    lock_laws::lockout_is_an_active_entry(cache@, username::encoded_name(role@), now);
    if until is Some {
        crate::attempts_laws::seconds_are_rounded_up(until->0, now);
    }
}

/// A call that sets an expiry entry makes it the name's, unless every slot is somebody else's; nobody
/// else's entry changes.
pub proof fn set_entry_call_stores(
    cache: &mut ExpiryCache,
    name: &[u8; LOCK_USERNAME_BYTES],
    must_change_by: i64,
    generation: i64,
    grace: i32,
    r: CacheOpStatus,
    other: [u8; LOCK_USERNAME_BYTES],
)
    requires
        call_ensures(
            expiry_cache::set_entry,
            (cache, name, must_change_by, generation, grace),
            r,
        ),
        name@[0] != 0,
        other != *name,
        grace >= 0,
    ensures
        r == CacheOpStatus::Applied ==> {
            let e = final(cache)@.entry_of(*name);
            &&& e is Some
            &&& e->0.must_change_by == must_change_by
            &&& e->0.generation == generation
            &&& e->0.grace_remaining == grace
            &&& final(cache)@.state == old(cache)@.state
        },
        r == CacheOpStatus::Overflowed <==> forall|i: int|
            0 <= i < old(cache)@.entries.len() ==> (
            #[trigger] old(cache)@.entries[i]).username@[0] != 0
                && old(cache)@.entries[i].username != *name,
        r == CacheOpStatus::Overflowed ==> final(cache)@.state == 2,
        final(cache)@.entry_of(other) == old(cache)@.entry_of(other),
{
    let m = old(cache)@;
    expiry_laws::set_overflows_only_when_full(m, *name, must_change_by, generation, grace);
    expiry_laws::set_spares_others(m, *name, must_change_by, generation, grace, other);
}

/// A call that clears an expiry entry removes the name's and nobody else's.
pub proof fn clear_entry_call_removes(
    cache: &mut ExpiryCache,
    name: &[u8; LOCK_USERNAME_BYTES],
    r: CacheOpStatus,
    other: [u8; LOCK_USERNAME_BYTES],
)
    requires
        call_ensures(expiry_cache::clear_entry, (cache, name), r),
        expiry_laws::distinct(old(cache)@),
        other != *name,
    ensures
        r == CacheOpStatus::Applied,
        final(cache)@.entry_of(*name) is None,
        final(cache)@.entry_of(other) == old(cache)@.entry_of(other),
        final(cache)@.state == old(cache)@.state,
{
    expiry_laws::clear_is_gone(old(cache)@, *name);
    expiry_laws::clear_spares_others(old(cache)@, *name, other);
}

/// A hydration call that finds the table makes the expiry cache ready exactly when it read every row
/// complete; one that does not leaves it alone.
pub proof fn expiry_hydration_call_rebuilds(
    cache: &mut ExpiryCache,
    total: i64,
    rows: Vec<ExpiryRow>,
    r: Result<(i64, i64, i64), &'static str>,
    untouched: &mut ExpiryCache,
    none: Result<(i64, i64, i64), &'static str>,
)
    requires
        call_ensures(expiry_cache::hydrate_expiry_from_db, (cache, Some((total, rows))), r),
        call_ensures(expiry_cache::hydrate_expiry_from_db, (untouched, None), none),
    ensures
        r is Ok,
        none is Err,
        final(untouched)@ == old(untouched)@,
        final(cache)@.state == 1 <==> total <= search::count_where(
            rows@,
            |row: ExpiryRow|
                row.username is Some && row.username->0@.len() >= 1 && row.must_change_by is Some
                    && row.last_changed is Some,
        ),
        final(cache)@.state == 1 || final(cache)@.state == 2,
        r->Ok_0.0 == total,
{
    expiry_laws::complete_rows_are_prepared(rows@);
}

/// A call that uses up a grace login takes one off exactly when the password is expired, one is left and
/// its event is durable, and then nothing else of the entry changes; otherwise the cache stays as it is.
pub proof fn grace_call_takes_one(
    cache: &mut ExpiryCache,
    ring: &mut AuthEventRing,
    health: &mut WorkerHealth,
    role: &str,
    now: i64,
    flags: EventFlags,
    id: Option<[u8; EVENT_ID_BYTES]>,
    recorded_at: i64,
    appended: bool,
    r: GraceResult,
)
    requires
        call_ensures(
            expiry_cache::try_consume_grace,
            (cache, ring, health, role, now, flags, id, recorded_at, appended),
            r,
        ),
    ensures
        ({
            let name = username::encoded_name(role@);
            let e = old(cache)@.entry_of(name);
            let expired = old(cache)@.state == 1 && e is Some && now >= e->0.must_change_by;
            let due = expired && e->0.grace_remaining >= 1;
            let durable = id is Some && appended;
            &&& r.outcome == GraceOutcome::Consumed <==> due && durable
            &&& r.outcome == GraceOutcome::NoGrace <==> expired && !due
            &&& r.outcome == GraceOutcome::NotNeeded <==> old(cache)@.state == 1 && !expired
            &&& due && durable ==> {
                let after = final(cache)@.entry_of(name);
                &&& after is Some
                &&& after->0.grace_remaining == e->0.grace_remaining - 1
                &&& after->0.must_change_by == e->0.must_change_by
                &&& after->0.generation == e->0.generation
            }
            &&& !(due && durable) ==> final(cache)@ == old(cache)@
            &&& !due || id is None ==> final(ring)@ == old(ring)@ && !r.queue_warn
            &&& due && !durable ==> final(health).durable_degraded_us != 0
            &&& !due || durable ==> *final(health) == *old(health)
            &&& due && id is Some && appended && old(ring)@.journaled < u64::MAX
                ==> final(ring)@.journaled == old(ring)@.journaled + 1
        }),
{
    let name = username::encoded_name(role@);
    let m = old(cache)@;
    expiry_laws::grace_outcome_is_exact(m, name, now, id is Some && appended);
    if m.decision(name, now) is ExpiredWithGrace && id is Some && appended {
        expiry_laws::consumed_grace_costs_one(m, name, now);
    }
}

/// A refresh call lists exactly the roles of its rows when nothing was left out.
pub proof fn refresh_call_lists(
    cache: &mut BypassCache,
    total: i64,
    rows: &Vec<Option<String>>,
    r: (i64, i64, i64),
    name: [u8; LOCK_USERNAME_BYTES],
)
    requires
        call_ensures(bypass_cache::refresh_bypass_cache, (cache, total, rows), r),
        rows@.len() <= 1024,
        name@[0] != 0,
        total <= search::count_where(rows@, |row: Option<String>| bypass_laws::complete(row)),
    ensures
        r.0 == total,
        r.2 == 0,
        final(cache)@.decision(name) == BypassDecision::Bypassed <==> exists|i: int|
            {
                &&& 0 <= i < rows@.len()
                &&& bypass_laws::complete(#[trigger] rows@[i])
                &&& username::encoded_name(rows@[i]->0@) == name
            },
{
    bypass_laws::refresh_follows_the_rows(total, rows@, name);
    bypass_laws::named_rows_are_prepared(rows@);
}

/// An offer is queued behind the pending events exactly when the ring can take it, as it was handed in
/// and under the next number; otherwise the pending events stay as they are.
pub proof fn offer_call_queues(
    ring: &mut AuthEventRing,
    id: [u8; EVENT_ID_BYTES],
    name: [u8; LOCK_USERNAME_BYTES],
    timestamp: i64,
    kind: u8,
    flags: u8,
    generation: i64,
    step: EnqueueStep,
)
    requires
        call_ensures(
            AuthEventRing::try_enqueue,
            (ring, id, name, timestamp, kind, flags, generation),
            step,
        ),
    ensures
        step.outcome == EnqueueOutcome::Enqueued <==> queue_laws::takes(old(ring)@),
        step.outcome == EnqueueOutcome::Enqueued ==> final(ring)@.pending()
            == old(ring)@.pending().push(
            SharedAuthEvent {
                event_id: id,
                username: name,
                timestamp,
                seq: old(ring)@.next_seq as u64,
                kind,
                generation,
                flags,
            },
        ),
        step.outcome != EnqueueOutcome::Enqueued ==> final(ring)@.pending() == old(ring)@.pending(),
        step.outcome == EnqueueOutcome::Enqueued ==> !step.should_warn,
{
    let event = SharedAuthEvent {
        event_id: id,
        username: name,
        timestamp,
        seq: 0,
        kind,
        generation,
        flags,
    };
    queue_laws::offer_is_decided_by_the_ring(old(ring)@);
    ring_laws::offer_appends(old(ring)@, event);
}

/// A claim call hands out the oldest pending event and moves nothing; an acknowledgement with its token
/// removes exactly that event, once.
pub proof fn claim_and_ack_calls_retire(
    ring: &mut AuthEventRing,
    claim: Option<(ClaimToken, SharedAuthEvent)>,
    other: &mut AuthEventRing,
    token: ClaimToken,
    r: AckOutcome,
)
    requires
        call_ensures(AuthEventRing::claim, (ring,), claim),
        call_ensures(AuthEventRing::ack, (other, token), r),
    ensures
        claim is Some <==> old(ring)@.pending().len() > 0,
        claim matches Some((t, event)) ==> event == old(ring)@.pending()[0] && t.seq == event.seq,
        final(ring)@.pending() == old(ring)@.pending(),
        r == AckOutcome::Acknowledged ==> final(other)@.pending()
            == old(other)@.pending().drop_first() && token.seq == old(other)@.pending()[0].seq,
        r != AckOutcome::Acknowledged ==> final(other)@.pending() == old(other)@.pending(),
        r == AckOutcome::Acknowledged ==> old(other)@.pending().len() > 0,
{
    ring_laws::claim_repeats(old(ring)@);
    ring_laws::claim_is_oldest(old(ring)@);
    ring_laws::ack_removes_oldest(old(other)@, token);
    queue_laws::acknowledgement_is_exact(old(other)@, token);
}

/// A committed acknowledgement that does not fit is noted as corruption; a claim is matched by the
/// identity of the oldest event alone.
pub proof fn committed_ack_call_notes_corruption(
    ring: &mut AuthEventRing,
    token: ClaimToken,
    r: AckOutcome,
    other: &mut AuthEventRing,
    id: &[u8; EVENT_ID_BYTES],
    claim: Option<ClaimToken>,
    marked: &mut AuthEventRing,
    unit: (),
)
    requires
        call_ensures(auth_event::ack_claim, (ring, token), r),
        call_ensures(auth_event::matching_claim, (other, id), claim),
        call_ensures(auth_event::mark_corrupt, (marked,), unit),
    ensures
        r != AckOutcome::Acknowledged ==> final(ring)@.health() == QueueState::Corrupt,
        r == AckOutcome::Acknowledged ==> final(ring)@.pending()
            == old(ring)@.pending().drop_first(),
        claim is Some <==> old(other)@.pending().len() > 0 && old(other)@.pending()[0].event_id
            == *id,
        final(other)@.pending() == old(other)@.pending(),
        final(marked)@.health() == QueueState::Corrupt,
{
    ring_laws::ack_removes_oldest(old(ring)@, token);
    ring_laws::claim_repeats(old(other)@);
}

/// A record call says what survives a crash, and a login's event is queued under the role's name, with
/// the time, kind and flags that were handed in.
pub proof fn record_call_tells_durability(
    ring: &mut AuthEventRing,
    health: &mut WorkerHealth,
    role: &str,
    kind: u8,
    flags: EventFlags,
    id: Option<[u8; EVENT_ID_BYTES]>,
    now: i64,
    appended: bool,
    r: (EnqueueOutcome, Option<QueueWarning>),
)
    requires
        call_ensures(
            auth_event::enqueue,
            (ring, health, role, kind, flags, id, now, appended),
            r,
        ),
        queue_laws::takes(old(ring)@),
    ensures
        r.0 == EnqueueOutcome::Unavailable <==> id is None || !appended,
        r.0 == EnqueueOutcome::Enqueued <==> id is Some && appended,
        r.0 == EnqueueOutcome::Unavailable ==> final(health).durable_degraded_us != 0
            && final(ring)@.pending() == old(ring)@.pending(),
        r.0 != EnqueueOutcome::Unavailable ==> *final(health) == *old(health),
        r.0 == EnqueueOutcome::Enqueued ==> {
            let pending = final(ring)@.pending();
            &&& pending.len() == old(ring)@.pending().len() + 1
            &&& pending.drop_last() == old(ring)@.pending()
            &&& Some(pending.last().event_id) == id
            &&& pending.last().timestamp == now
            &&& pending.last().kind == kind
            &&& pending.last().flags == flags.0
            &&& pending.last().username@ == username::padded_name(
                vstd::utf8::encode_utf8(role@),
            )
        },
        r.1 == Some(QueueWarning::QueueFull) ==> r.0 != EnqueueOutcome::Unavailable,
{
    let m = old(ring)@;
    if let Some(id) = id {
        let event = choose|event: SharedAuthEvent|
            {
                &&& event.event_id == id
                &&& event.username@ == username::padded_name(vstd::utf8::encode_utf8(role@))
                &&& event.timestamp == now
                &&& event.kind == kind
                &&& event.generation == 0
                &&& event.flags == flags.0
                &&& r.0 == m.record_outcome(appended)
                &&& final(ring)@ == #[trigger] m.recorded(event, appended)
            };
        if appended {
            let counted = crate::auth_event::RingModel {
                journaled: auth_event::one_more(m.journaled),
                ..m
            };
            ring_laws::offer_appends(counted, event);
            assert(counted.pending() =~= m.pending());
            assert(final(ring)@.pending() =~= counted.offered(event).pending());
            assert(final(ring)@.pending().drop_last() =~= m.pending());
        } else {
            assert(final(ring)@.pending() =~= m.pending());
        }
    }
}

/// A recovery call resets exactly a corrupt ring whose journal files both verify, and leaves any other
/// ring as it is.
pub proof fn recovery_call_resets(
    ring: &mut AuthEventRing,
    processing: Option<&[u8]>,
    active: Option<&[u8]>,
    r: Result<bool, JournalError>,
)
    requires
        call_ensures(auth_event::recover_corrupt_ring, (ring, processing, active), r),
    ensures
        ({
            let first = match processing {
                Some(b) => auth_journal::file_fault(Some(b@)),
                None => None,
            };
            let second = match active {
                Some(b) => auth_journal::file_fault(Some(b@)),
                None => None,
            };
            let corrupt = old(ring)@.state != 0 && old(ring)@.state != 1;
            &&& r == Ok::<bool, JournalError>(true) <==> corrupt && first is None && second is None
            &&& r == Ok::<bool, JournalError>(false) <==> !corrupt
            &&& r is Err <==> corrupt && (first is Some || second is Some)
            &&& r == Ok::<bool, JournalError>(true) ==> final(ring)@.pending().len() == 0
                && final(ring)@.state == 0
            &&& r != Ok::<bool, JournalError>(true) ==> final(ring)@ == old(ring)@
        }),
{
}

/// A staging call keeps what was staged about others, and refuses only a new subject in a full area.
pub proof fn stage_calls_keep_the_rest(
    pending: &mut PendingState,
    name: [u8; LOCK_USERNAME_BYTES],
    decision: CacheDecision,
    expiry: ExpiryDecision,
    subid: u32,
    r: Result<(), String>,
    second: &mut PendingState,
    s: Result<(), String>,
    third: &mut PendingState,
    t: Result<(), String>,
)
    requires
        call_ensures(pending_cache_op::stage, (pending, name, decision, subid), r),
        call_ensures(pending_cache_op::stage_expiry, (second, name, expiry, subid), s),
        call_ensures(
            pending_cache_op::stage_combined,
            (third, name, decision, expiry, subid),
            t,
        ),
    ensures
        r is Ok ==> final(pending)@.ops.contains(
            PendingEntry {
                username: name,
                decision: Some(decision),
                expiry: ExpiryDecision::Unchanged,
                subid,
            },
        ),
        s is Ok ==> final(second)@.ops.contains(
            PendingEntry { username: name, decision: None, expiry, subid },
        ),
        t is Ok ==> final(third)@.ops.contains(
            PendingEntry { username: name, decision: Some(decision), expiry, subid },
        ),
        r is Err ==> final(pending)@ == old(pending)@ && old(pending)@.ops.len() >= 16,
        s is Err ==> final(second)@ == old(second)@ && old(second)@.ops.len() >= 16,
        t is Err ==> final(third)@ == old(third)@ && old(third)@.ops.len() >= 16,
        final(pending)@.ack == old(pending)@.ack,
        final(second)@.ack == old(second)@.ack,
        final(third)@.ack == old(third)@.ack,
{
    staging_laws::staging_is_exact(
        old(pending)@.ops,
        PendingEntry {
            username: name,
            decision: Some(decision),
            expiry: ExpiryDecision::Unchanged,
            subid,
        },
    );
    staging_laws::staging_is_exact(
        old(second)@.ops,
        PendingEntry { username: name, decision: None, expiry, subid },
    );
    staging_laws::staging_is_exact(
        old(third)@.ops,
        PendingEntry { username: name, decision: Some(decision), expiry, subid },
    );
}

/// Applying leaves nothing staged, and a savepoint that rolls back leaves nothing of its own.
pub proof fn apply_call_leaves_nothing(
    pending: &mut PendingState,
    lock: &mut LockCache,
    expiry: &mut ExpiryCache,
    ring: &mut AuthEventRing,
    now: i64,
    unit: (),
    other: &mut PendingState,
    subid: u32,
    parent: u32,
    e: PendingEntry,
)
    requires
        call_ensures(pending_cache_op::apply_all, (pending, lock, expiry, ring, now), unit),
        call_ensures(
            pending_cache_op::subxact_callback,
            (SubXactEvent::AbortSub, other, subid, parent),
            unit,
        ),
    ensures
        final(pending)@.ops.len() == 0,
        final(pending)@.ack is None,
        old(pending)@.ops.len() == 0 ==> final(lock)@ == old(lock)@ && final(expiry)@
            == old(expiry)@,
        old(pending)@.ack is None ==> final(ring)@ == old(ring)@,
        old(pending)@.ack matches Some(ack) ==> final(ring)@ == old(ring)@.commit_acked(ack.token),
        final(other)@.ops.contains(e) <==> old(other)@.ops.contains(e) && e.subid != subid,
{
    staging_laws::rollback_takes_only_its_own(old(other)@, subid, e);
}

/// A recorded failure stages the new row's lockout for its role, and a recorded change the written row;
/// what is refused stages nothing.
pub proof fn recording_calls_stage(
    pending: &mut PendingState,
    subid: u32,
    role: &str,
    facts: &FailureFacts,
    r: Result<FailedLogin, String>,
    second: &mut PendingState,
    days: i32,
    w: WrittenExpiry,
    s: Result<(), String>,
)
    requires
        call_ensures(attempts::record_failed_login, (pending, subid, role, facts), r),
        call_ensures(history::stage_recorded_expiry, (second, subid, role, days, Some(w)), s),
        days >= 1,
    ensures
        ({
            let counts = facts.has_database && !facts.is_superuser && !facts.bypassed;
            &&& !counts ==> r is Ok && final(pending)@ == old(pending)@
            &&& r is Err ==> counts && final(pending)@.ops == old(pending)@.ops
            &&& r matches Ok(FailedLogin::Recorded(row)) ==> {
                &&& counts
                &&& row.lockout_until is Some && row.lockout_until->0 > facts.clock
                    ==> final(pending)@.ops.contains(
                    PendingEntry {
                        username: username::encoded_name(role@),
                        decision: Some(CacheDecision::SetLock(row.lockout_until->0)),
                        expiry: ExpiryDecision::Unchanged,
                        subid,
                    },
                )
            }
            &&& s is Ok ==> final(second)@.ops.contains(
                PendingEntry {
                    username: username::encoded_name(role@),
                    decision: None,
                    expiry: ExpiryDecision::SetEntry {
                        must_change_by: w.must_change_by,
                        generation: w.last_changed,
                        grace_remaining: w.grace_logins,
                    },
                    subid,
                },
            )
            &&& s is Err ==> final(second)@ == old(second)@
        }),
{
    crate::attempts_laws::counted_failure_is_staged(old(pending)@.ops, role@, *facts, subid);
    staging_laws::staging_is_exact(
        old(second)@.ops,
        history::expiry_operation(
            role@,
            ExpiryDecision::SetEntry {
                must_change_by: w.must_change_by,
                generation: w.last_changed,
                grace_remaining: w.grace_logins,
            },
            subid,
        ),
    );
}

/// A clear call stages the truth about a role's one row, and a removal call that both entries go.
pub proof fn clearing_calls_stage(
    pending: &mut PendingState,
    subid: u32,
    role: &str,
    rows: &Vec<Option<i64>>,
    force: bool,
    now: i64,
    clock: i64,
    r: Result<(), String>,
    second: &mut PendingState,
    s: Result<&'static str, String>,
)
    requires
        call_ensures(
            attempts::clear_login_attempts_internal,
            (pending, subid, role, rows, force, now, clock),
            r,
        ),
        call_ensures(roles::remove_role_state, (second, subid, role), s),
        rows@.len() <= 1,
    ensures
        ({
            let holds = rows@.len() == 1 && rows@[0] is Some && rows@[0]->0 > now && rows@[0]->0
                > clock;
            &&& r is Ok ==> final(pending)@.ops.contains(
                PendingEntry {
                    username: username::encoded_name(role@),
                    decision: Some(
                        if !force && holds {
                            CacheDecision::SetLock(rows@[0]->0)
                        } else {
                            CacheDecision::ClearLock
                        },
                    ),
                    expiry: ExpiryDecision::Unchanged,
                    subid,
                },
            )
            &&& r is Err ==> final(pending)@ == old(pending)@ && old(pending)@.ops.len() >= 16
            &&& s is Ok ==> final(second)@.ops.contains(
                PendingEntry {
                    username: username::encoded_name(role@),
                    decision: Some(CacheDecision::ClearLock),
                    expiry: ExpiryDecision::Clear,
                    subid,
                },
            )
            &&& s is Err ==> final(second)@ == old(second)@ && old(second)@.ops.len() >= 16
        }),
{
    let until = if rows@.len() == 1 {
        rows@[0]
    } else {
        None
    };
    crate::attempts_laws::clear_unlocks_what_is_over(until, force, now, clock);
    if rows@.len() == 1 {
        assert(rows@ =~= seq![until]);
    } else {
        assert(rows@ =~= Seq::<Option<i64>>::empty());
    }
    let decision = attempts::clear_decision(rows@, force, now, clock)->0;
    staging_laws::staging_is_exact(
        old(pending)@.ops,
        PendingEntry::for_lock(username::encoded_name(role@), decision, subid),
    );
    staging_laws::staging_is_exact(old(second)@.ops, roles::removal(role@, subid));
}

} // verus!
