//! Laws of the worker's decisions: what an event touches, when consumption pauses, and how failures are
//! counted, waited out and reported.

use crate::auth_event::{ClaimToken, EventFlags, EventKind, QueueState, SharedAuthEvent};
use crate::expiry_cache::{ExpiryCacheState, ExpiryModel};
use crate::lock_cache::{CacheState, LockModel};
use crate::pending_cache_op::{PendingAck, PendingModel};
use crate::username;
use crate::worker;
use crate::worker::{
    AffectedCaches, Consumer, DegradedByRetry, EventPlan, Gate, HydrationReport, NextStep,
    RecordReply, RehydrateCause, RemovalReply, Requirements, RotationReply, RoundFacts, SuspendStep,
    Suspension, Work,
};
use crate::worker_health;
use crate::worker_health::{PausedReason, WorkerHealth, WorkerHealthStats};
use vstd::prelude::*;
use vstd::utf8::*;

verus! {

/// Every event writes the lock cache but a grace login whose flags ask for no cleanup, and grace logins
/// alone write the expiry cache.
pub proof fn events_write_their_caches(kind: EventKind, flags: EventFlags)
    ensures
        ({
            let a = AffectedCaches::of_event(kind, flags);
            &&& a.lock <==> kind == EventKind::Failure || kind == EventKind::Success
                || flags.clears()
            &&& a.expiry <==> kind == EventKind::GraceConsumed
        }),
{
}

/// What an event does to the database is decided by its kind and flags alone, and an event that has a
/// receipt does nothing.
pub proof fn effects_are_exact(kind: EventKind, flags: EventFlags)
    ensures
        ({
            let new = worker::effects(true, kind, flags);
            let known = worker::effects(false, kind, flags);
            &&& new.record_failure <==> kind == EventKind::Failure
            &&& new.persist_grace <==> kind == EventKind::GraceConsumed
            &&& new.clear_attempts <==> (kind == EventKind::Success || kind
                == EventKind::GraceConsumed) && flags.clears()
            &&& !known.record_failure && !known.persist_grace && !known.clear_attempts
        }),
{
}

/// What an event may write, its transaction writes no more than: a failure or a cleanup goes with the
/// lock cache, a persisted grace login with the expiry cache.
pub proof fn effects_stay_within_the_caches(is_new: bool, kind: EventKind, flags: EventFlags)
    ensures
        ({
            let e = worker::effects(is_new, kind, flags);
            let a = AffectedCaches::of_event(kind, flags);
            &&& e.record_failure || e.clear_attempts ==> a.lock
            &&& e.persist_grace ==> a.expiry
        }),
{
}

/// An event is planned exactly when it names a role and its kind and flags are known, whatever else it
/// says; the plan is for that role, kind and flags.
pub proof fn plan_is_the_event(event: &SharedAuthEvent, r: Option<EventPlan>, end: int)
    requires
        call_ensures(worker::plan_event, (event,), r),
        0 <= end <= 64,
        forall|j: int| 0 <= j < end ==> event.username@[j] != 0,
        end < 64 ==> event.username@[end] == 0,
    ensures
        r is Some <==> {
            &&& end > 0
            &&& valid_utf8(event.username@.subrange(0, end))
            &&& 1 <= event.kind <= 3
            &&& event.flags <= 1
        },
        r matches Some(plan) ==> {
            &&& encode_utf8(plan.username@) == event.username@.subrange(0, end)
            &&& event.kind == 1 ==> plan.kind == EventKind::Failure
            &&& event.kind == 2 ==> plan.kind == EventKind::Success
            &&& event.kind == 3 ==> plan.kind == EventKind::GraceConsumed
            &&& plan.flags.0 == event.flags
            &&& plan.affects.expiry <==> event.kind == 3
            &&& plan.affects.lock <==> event.kind <= 2 || event.flags == 1
        },
{
    username::text_end_is_first_nul(event.username@, end);
    assert(1u8 & 1u8 != 0 && 0u8 & 1u8 == 0) by (bit_vector);
}

/// Each feature needs its own cache, and consumption may begin once every needed cache is usable.
pub proof fn features_need_their_caches(
    lockout: bool,
    expiry: bool,
    needed: Requirements,
    lock_usable: bool,
    expiry_usable: bool,
    begins: bool,
)
    requires
        call_ensures(worker::requirements, (lockout, expiry), needed),
        call_ensures(worker::hydration_suffices, (needed, lock_usable, expiry_usable), begins),
    ensures
        needed.lock <==> lockout,
        needed.expiry <==> expiry,
        begins <==> (!lockout || lock_usable) && (!expiry || expiry_usable),
{
}

/// One more failure, as long as the number is not the largest.
pub proof fn failures_are_counted(failures: u32)
    ensures
        failures < u32::MAX ==> worker::one_more_failure(failures) == failures + 1,
        worker::one_more_failure(u32::MAX) == u32::MAX,
        worker::warning_due(failures) <==> failures == 1 || failures % 10 == 0,
{
}

/// Only a failed attempt holds the worker up and takes the cache down; an overflow is counted and warned
/// about as a failure is, and a complete attempt is neither.
pub proof fn attempts_are_judged(failures: u32)
    requires
        failures < u32::MAX,
    ensures
        ({
            let complete = worker::step_after(HydrationReport::Complete, failures);
            let overflowed = worker::step_after(HydrationReport::Overflowed, failures);
            let failed = worker::step_after(HydrationReport::Failed, failures);
            let due = failures == 0 || (failures + 1) % 10 == 0;
            &&& complete.usable && !complete.mark_not_ready && !complete.warn
            &&& overflowed.usable && !overflowed.mark_not_ready && overflowed.warn == due
            &&& !failed.usable && failed.mark_not_ready && failed.warn == due
            &&& worker::failures_after(HydrationReport::Complete, failures) == failures
            &&& worker::failures_after(HydrationReport::Overflowed, failures) == failures + 1
            &&& worker::failures_after(HydrationReport::Failed, failures) == failures + 1
        }),
{
}

/// The wait doubles with every failure from half a second on, and is never longer than half a minute.
pub proof fn waits_double(failures: nat)
    ensures
        worker::backoff(0) == 500,
        worker::backoff(1) == 500,
        failures >= 1 && 2 * worker::backoff(failures) <= 30_000 ==> worker::backoff(failures + 1)
            == 2 * worker::backoff(failures),
        failures >= 1 && 2 * worker::backoff(failures) > 30_000 ==> worker::backoff(failures + 1)
            == 30_000,
{
}

/// The wait after a failure is that of its number, and the first is warned about and then every tenth.
pub proof fn wait_follows_the_number(failures: u32)
    ensures
        worker::wait_after(failures).delay_ms == worker::backoff(failures as nat),
        worker::wait_after(failures).warn <==> failures == 1 || failures % 10 == 0,
        500 <= worker::wait_after(failures).delay_ms <= 30_000,
{
    worker::backoff_grows(failures as nat, failures as nat);
}

/// The delay between two attempts at hydration doubles up to half a minute, and the exempt roles are
/// read again after a second.
pub proof fn delays_double(ms: u64, next: u64, elapsed: u64, due: bool)
    requires
        call_ensures(worker::next_retry_delay, (ms,), next),
        call_ensures(worker::bypass_refresh_due, (elapsed,), due),
    ensures
        2 * ms <= 30_000 ==> next == 2 * ms,
        2 * ms > 30_000 ==> next == 30_000,
        due <==> elapsed >= 1000,
{
}

/// Consumption stops for a shutdown before anything else, then for a corrupt queue, then for a needed
/// cache that is not hydrated, and last for a durable failure that is five seconds old; for nothing else.
/// A cache that this run's own retries took down does not stop it.
pub proof fn consumption_stops_for(c: Consumer, f: RoundFacts)
    ensures
        ({
            let lock = f.needed.lock && (f.lock == CacheState::NotReady || (f.lock
                == CacheState::WorkerFailed && !c.degraded.lock));
            let expiry = f.needed.expiry && (f.expiry == ExpiryCacheState::NotReady || (f.expiry
                == ExpiryCacheState::WorkerFailed && !c.degraded.expiry));
            let settled = f.degraded_since is Some && f.now - f.degraded_since->0 >= 5_000_000;
            let corrupt = f.queue == QueueState::Corrupt;
            &&& c.gate(f) == Gate::Shutdown <==> f.shutdown
            &&& c.gate(f) == Gate::QueueUnhealthy <==> !f.shutdown && corrupt
            &&& c.gate(f) == Gate::Rehydrate(RehydrateCause::LockCache) <==> !f.shutdown && !corrupt
                && lock
            &&& c.gate(f) == Gate::Rehydrate(RehydrateCause::ExpiryCache) <==> !f.shutdown
                && !corrupt && !lock && expiry
            &&& c.gate(f) == Gate::Rehydrate(RehydrateCause::DurableRecording) <==> !f.shutdown
                && !corrupt && !lock && !expiry && settled
            &&& c.gate(f) == Gate::Proceed <==> !f.shutdown && !corrupt && !lock && !expiry
                && !settled
        }),
{
}

/// A degradation ends exactly when the failure that was seen is at least five seconds old and is still
/// the last; nothing else of the record changes.
pub proof fn degradation_ends_when_quiet(health: WorkerHealth, observed: Option<i64>, now: i64)
    ensures
        ({
            let after = worker::settled(health, observed, now);
            let ends = observed is Some && now - observed->0 >= 5_000_000
                && health.durable_degraded_us == observed->0;
            &&& worker::settles(health, observed, now) <==> ends
            &&& ends ==> after.durable_degraded_us == 0
            &&& !ends ==> after == health
            &&& after.running == health.running
            &&& after.starts == health.starts
            &&& after.stops == health.stops
            &&& after.stop_reason == health.stop_reason
        }),
{
}

/// The worker goes on with an event until it has committed: an open file with a pending event is worked
/// on before another record is read, and only an open file is read.
pub proof fn pending_work_comes_first(c: Consumer)
    ensures
        c.work() == Work::Rotate <==> !c.batch_open,
        c.work() == Work::ReadRecord <==> c.batch_open && c.pending_event is None,
        c.pending_event matches Some(event) ==> (c.work() == Work::Process(event)
            <==> c.batch_open),
{
}

/// How each reply changes the run: success ends a series of journal failures, a record becomes the
/// pending event, the end of the file closes it, and a failure of any kind changes nothing.
pub proof fn replies_move_the_run(c: Consumer, event: SharedAuthEvent)
    ensures
        ({
            let opened = c.rotated(RotationReply::Opened);
            &&& opened.batch_open && opened.journal_io_failures == 0
            &&& opened.pending_event == c.pending_event
            &&& opened.event_failures == c.event_failures
            &&& opened.degraded == c.degraded
        }),
        c.rotated(RotationReply::NothingToReplay) == c,
        c.rotated(RotationReply::Corrupt) == c,
        c.rotated(RotationReply::IoFailure) == c,
        ({
            let read = c.read(RecordReply::Event(event));
            &&& read.pending_event == Some(event)
            &&& read.journal_io_failures == 0
            &&& read.batch_open == c.batch_open
            &&& read.event_failures == c.event_failures
            &&& read.degraded == c.degraded
        }),
        ({
            let ended = c.read(RecordReply::EndOfFile);
            &&& !ended.batch_open
            &&& ended.pending_event == c.pending_event
            &&& ended.journal_io_failures == c.journal_io_failures
        }),
        c.read(RecordReply::Corrupt) == c,
        c.read(RecordReply::IoFailure) == c,
        c.cleaned(RemovalReply::Removed).journal_io_failures == 0,
        c.cleaned(RemovalReply::Removed).batch_open == c.batch_open,
        c.cleaned(RemovalReply::Removed).pending_event == c.pending_event,
        c.cleaned(RemovalReply::IoFailure) == c,
        c.cleaned(RemovalReply::OtherFailure) == c,
{
}

/// What follows each reply: corruption always suspends, a failure of the file system always backs off,
/// nothing to replay waits a moment, and receipts go only with their file.
pub proof fn replies_decide_the_next_step(event: SharedAuthEvent)
    ensures
        Consumer::rotation_step(RotationReply::Opened) == NextStep::GoOn,
        Consumer::rotation_step(RotationReply::NothingToReplay) == NextStep::Idle(25),
        Consumer::rotation_step(RotationReply::Corrupt) == NextStep::Suspend,
        Consumer::rotation_step(RotationReply::IoFailure) == NextStep::BackOff,
        Consumer::record_step(RecordReply::Event(event)) == NextStep::GoOn,
        Consumer::record_step(RecordReply::EndOfFile) == NextStep::RemoveFile,
        Consumer::record_step(RecordReply::Corrupt) == NextStep::Suspend,
        Consumer::record_step(RecordReply::IoFailure) == NextStep::BackOff,
        Consumer::removal_step(RemovalReply::Removed) == NextStep::CleanReceipts,
        Consumer::removal_step(RemovalReply::IoFailure) == NextStep::BackOff,
        Consumer::removal_step(RemovalReply::OtherFailure) == NextStep::Idle(500),
{
}

/// A commit ends the event and its failures and hands back what its retries took down; a rollback keeps
/// the event and counts.
pub proof fn the_event_ends_with_its_commit(c: Consumer)
    ensures
        c.committed().pending_event is None,
        c.committed().event_failures == 0,
        c.committed().batch_open == c.batch_open,
        c.committed().journal_io_failures == c.journal_io_failures,
        c.event_failures > 0 ==> c.to_restore() == c.degraded && !c.committed().degraded.lock
            && !c.committed().degraded.expiry,
        c.event_failures == 0 ==> !c.to_restore().lock && !c.to_restore().expiry
            && c.committed().degraded == c.degraded,
        c.rolled_back().pending_event == c.pending_event,
        c.event_failures < u32::MAX ==> c.rolled_back().event_failures == c.event_failures + 1,
        c.rolled_back().degraded == c.degraded,
        c.rolled_back().batch_open == c.batch_open,
        c.rolled_back().journal_io_failures == c.journal_io_failures,
{
}

/// A retry takes a cache down exactly when the event writes it, it is ready and it was not taken down
/// before, and remembers it; it is given back exactly while it is still as it was left.
pub proof fn retries_take_down_and_give_back(
    d: DegradedByRetry,
    affects: AffectedCaches,
    lock: LockModel,
    expiry: ExpiryModel,
)
    ensures
        ({
            let takes_lock = affects.lock && !d.lock && lock.state == 1;
            let takes_expiry = affects.expiry && !d.expiry && expiry.state == 1;
            let marked = d.marked(affects, lock, expiry);
            &&& d.marked_lock(affects, lock).state == if takes_lock {
                3
            } else {
                lock.state
            }
            &&& d.marked_expiry(affects, expiry).state == if takes_expiry {
                3
            } else {
                expiry.state
            }
            &&& d.marked_lock(affects, lock).entries == lock.entries
            &&& d.marked_expiry(affects, expiry).entries == expiry.entries
            &&& marked.lock <==> d.lock || takes_lock
            &&& marked.expiry <==> d.expiry || takes_expiry
            &&& d.restored_lock(lock).state == if d.lock && lock.state == 3 {
                1
            } else {
                lock.state
            }
            &&& d.restored_expiry(expiry).state == if d.expiry && expiry.state == 3 {
                1
            } else {
                expiry.state
            }
            &&& d.restored_lock(lock).entries == lock.entries
            &&& d.restored_expiry(expiry).entries == expiry.entries
            &&& d.incomplete(lock, expiry) <==> {
                ||| d.lock && lock.state != 1 && lock.state != 3
                ||| d.expiry && expiry.state != 1 && expiry.state != 3
            }
        }),
{
}

/// A claim is acknowledged with its event's transaction exactly when that succeeded; the staged
/// operations stay.
pub proof fn success_stages_the_claim(
    pending: PendingModel,
    token: ClaimToken,
    subid: u32,
    succeeded: bool,
)
    ensures
        worker::finished(pending, Some(token), subid, true).ack == Some(
            PendingAck { token, subid },
        ),
        worker::finished(pending, Some(token), subid, true).ops == pending.ops,
        worker::finished(pending, Some(token), subid, false) == pending,
        worker::finished(pending, None, subid, succeeded) == pending,
{
}

/// A suspended worker ends for a shutdown, resumes as soon as the queue is not corrupt, and otherwise
/// waits a second; it reports its first look, every tenth and any change, and counts its looks.
pub proof fn suspension_waits_for_recovery(s: Suspension, current: QueueState)
    requires
        s.reports < u32::MAX,
    ensures
        s.step(true, current) == SuspendStep::Shutdown,
        s.observed(true, current) == s,
        current != QueueState::Corrupt ==> s.step(false, current) == SuspendStep::Resume
            && s.observed(false, current) == s,
        current == QueueState::Corrupt ==> {
            let report = s.reports == 0 || (s.reports + 1) % 10 == 0 || current
                != s.last_reported;
            &&& s.step(false, current) == (SuspendStep::Wait { report, ms: 1000 })
            &&& s.observed(false, current).reports == s.reports + 1
            &&& report ==> s.observed(false, current).last_reported == current
            &&& !report ==> s.observed(false, current).last_reported == s.last_reported
        },
{
}

/// A start makes the worker run and a departure makes it not run, each is counted, and a departure tells
/// a shutdown from a contained failure. Neither touches what is known of durable recording.
pub proof fn start_and_departure_are_recorded(health: WorkerHealth, contained: bool)
    ensures
        ({
            let started = health.started();
            let left = worker::left(health, contained);
            &&& started.runs() && started.running == 1
            &&& health.starts < u64::MAX ==> started.starts == health.starts + 1
            &&& health.starts == u64::MAX ==> started.starts == 0
            &&& started.stops == health.stops
            &&& started.stop_reason == health.stop_reason
            &&& started.durable_degraded_us == health.durable_degraded_us
            &&& !left.runs() && left.running == 0
            &&& health.stops < u64::MAX ==> left.stops == health.stops + 1
            &&& health.stops == u64::MAX ==> left.stops == 0
            &&& left.starts == health.starts
            &&& contained ==> left.stop_reason == 2
            &&& !contained ==> left.stop_reason == 1
            &&& left.durable_degraded_us == health.durable_degraded_us
            &&& left.last_warn_us == health.last_warn_us
        }),
{
}

/// A durable failure is remembered with its time and makes recording untrusted at once, whenever it
/// happened; clearing removes exactly the failure that was observed.
pub proof fn durable_failures_are_remembered(health: WorkerHealth, now: i64, observed: i64)
    ensures
        ({
            let failed = health.with_durable_failure(now);
            let cleared = health.with_failure_cleared(observed);
            &&& failed.degraded_since() is Some
            &&& now != 0 ==> failed.degraded_since() == Some(now)
            &&& now == 0 ==> failed.degraded_since() == Some(1i64)
            &&& failed.running == health.running
            &&& failed.starts == health.starts
            &&& failed.last_warn_us == health.last_warn_us
            &&& failed.last_warn_reason == health.last_warn_reason
            &&& health.durable_degraded_us == observed ==> cleared.degraded_since() is None
            &&& health.durable_degraded_us != observed ==> cleared == health
            &&& cleared.running == health.running
            &&& health.degraded_since() is None <==> health.durable_degraded_us == 0
        }),
{
}

/// A pause is warned about at once for a new reason and otherwise once a minute; a warning that is given
/// is remembered with its time and reason.
pub proof fn pauses_are_warned_about(health: WorkerHealth, now: i64, reason: PausedReason)
    ensures
        ({
            let code = match reason {
                PausedReason::WorkerNotRunning => 0u32,
                PausedReason::QueueCorrupt => 1u32,
                PausedReason::DurableRecording => 2u32,
            };
            let due = health.last_warn_reason != code || health.last_warn_us == 0 || now
                - health.last_warn_us >= 60_000_000;
            let after = health.with_warning_claimed(now, reason);
            &&& health.warning_due(now, reason) <==> due
            &&& due ==> after.last_warn_us == now && after.last_warn_reason == code
            &&& !due ==> after == health
            &&& after.running == health.running
            &&& after.durable_degraded_us == health.durable_degraded_us
        }),
{
}

/// The record is read as it is: a worker runs only with shared memory that says so, and so for the
/// degradation and the numbers.
pub proof fn record_is_read_as_it_is(
    health: &WorkerHealth,
    runs: bool,
    nobody: bool,
    since: Option<i64>,
    nothing: Option<i64>,
    s: Option<WorkerHealthStats>,
)
    requires
        call_ensures(worker_health::is_running, (Some(health),), runs),
        call_ensures(worker_health::is_running, (None,), nobody),
        call_ensures(worker_health::durable_degraded_since, (Some(health),), since),
        call_ensures(worker_health::durable_degraded_since, (None,), nothing),
        call_ensures(worker_health::stats, (Some(health),), s),
    ensures
        runs <==> health.running == 1,
        !nobody,
        since is None <==> health.durable_degraded_us == 0,
        since matches Some(t) ==> t == health.durable_degraded_us,
        nothing is None,
        s is Some,
        s->0.running == health.running,
        s->0.stop_reason == health.stop_reason,
        health.starts <= i64::MAX ==> s->0.starts == health.starts,
        health.stops <= i64::MAX ==> s->0.stops == health.stops,
        health.durable_degraded_us == 0 ==> s->0.durable_degraded == 0,
        health.durable_degraded_us != 0 ==> s->0.durable_degraded == 1,
{
}

} // verus!
