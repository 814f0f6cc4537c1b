//! The auth-event worker's decisions: when to hydrate, when to consume, what to do with one event,
//! and how to back off.
//!
//! The loop itself waits, reads files and runs transactions. It asks here what comes next and
//! reports how it went.

use crate::arith;
use crate::auth_event;
use crate::auth_event::{ClaimToken, EventFlags, EventKind, QueueState, SharedAuthEvent};
use crate::bypass_cache;
use crate::bypass_cache::{BypassCache, BypassCacheState};
use crate::expiry_cache;
use crate::expiry_cache::{ExpiryCache, ExpiryCacheState, ExpiryModel};
use crate::lock_cache;
use crate::lock_cache::{CacheState, LockCache, LockModel};
use crate::pending_cache_op::{PendingAck, PendingModel, PendingState};
use crate::username;
use crate::worker_health;
use crate::worker_health::{WorkerHealth, DURABLE_QUIET_PERIOD_US, STOP_CONTAINED, STOP_SHUTDOWN};
use vstd::prelude::*;

verus! {

/// First backoff step, in milliseconds.
pub const HYDRATION_RETRY_MIN_MS: u64 = 500;

/// Longest backoff, in milliseconds.
pub const HYDRATION_RETRY_MAX_MS: u64 = 30_000;

/// After the first failure every how manieth one is warned about.
pub const HYDRATION_WARN_EVERY: u32 = 10;

/// How often the exempt roles are read again, in milliseconds.
pub const BYPASS_REFRESH_INTERVAL_MS: u64 = 1000;

/// How long an idle worker waits for events, in milliseconds.
pub const IDLE_WAIT_MS: u64 = 25;

/// How long a suspended worker waits between two looks at the queue, in milliseconds.
pub const SUSPENDED_WAIT_MS: u64 = 1000;

/// Which caches an event writes.
#[derive(Clone, Copy, PartialEq, Eq, Debug, Structural)]
pub struct AffectedCaches {
    pub lock: bool,
    pub expiry: bool,
}

impl AffectedCaches {
    /// What an event writes: failures and successes the lock cache, a grace login the expiry cache
    /// and, when its flags ask for cleanup, the lock cache.
    pub open spec fn of_event(kind: EventKind, flags: EventFlags) -> AffectedCaches {
        match kind {
            EventKind::Failure => AffectedCaches { lock: true, expiry: false },
            EventKind::Success => AffectedCaches { lock: true, expiry: false },
            EventKind::GraceConsumed => AffectedCaches { lock: flags.clears(), expiry: true },
        }
    }

    /// What an event writes.
    pub fn for_event(kind: EventKind, flags: EventFlags) -> (r: AffectedCaches)
        ensures
            r == AffectedCaches::of_event(kind, flags),
    {
        match kind {
            EventKind::Failure => AffectedCaches { lock: true, expiry: false },
            EventKind::Success => AffectedCaches { lock: true, expiry: false },
            EventKind::GraceConsumed => AffectedCaches {
                lock: flags.clear_login_attempts(),
                expiry: true,
            },
        }
    }
}

/// Which caches the current retry sequence moved from `Ready` to `WorkerFailed`. Only these may be
/// made `Ready` again by its success.
#[derive(Clone, Copy, PartialEq, Eq, Debug, Structural)]
pub struct DegradedByRetry {
    pub lock: bool,
    pub expiry: bool,
}

impl DegradedByRetry {
    /// No cache.
    pub fn none() -> (r: DegradedByRetry)
        ensures
            r == (DegradedByRetry { lock: false, expiry: false }),
    {
        DegradedByRetry { lock: false, expiry: false }
    }

    /// Marking takes the lock cache down.
    pub open spec fn takes_lock(self, affects: AffectedCaches, lock: LockModel) -> bool {
        affects.lock && !self.lock && lock.readiness() is Ready
    }

    /// Marking takes the expiry cache down.
    pub open spec fn takes_expiry(self, affects: AffectedCaches, expiry: ExpiryModel) -> bool {
        affects.expiry && !self.expiry && expiry.readiness() is Ready
    }

    /// The sequence's record after marking.
    pub open spec fn marked(
        self,
        affects: AffectedCaches,
        lock: LockModel,
        expiry: ExpiryModel,
    ) -> DegradedByRetry {
        DegradedByRetry {
            lock: self.lock || self.takes_lock(affects, lock),
            expiry: self.expiry || self.takes_expiry(affects, expiry),
        }
    }

    /// The lock cache after marking.
    pub open spec fn marked_lock(self, affects: AffectedCaches, lock: LockModel) -> LockModel {
        if self.takes_lock(affects, lock) {
            lock.in_state(CacheState::WorkerFailed)
        } else {
            lock
        }
    }

    /// The expiry cache after marking.
    pub open spec fn marked_expiry(
        self,
        affects: AffectedCaches,
        expiry: ExpiryModel,
    ) -> ExpiryModel {
        if self.takes_expiry(affects, expiry) {
            expiry.in_state(ExpiryCacheState::WorkerFailed)
        } else {
            expiry
        }
    }

    /// The lock cache after restoring.
    pub open spec fn restored_lock(self, lock: LockModel) -> LockModel {
        if self.lock && lock.readiness() is WorkerFailed {
            lock.in_state(CacheState::Ready)
        } else {
            lock
        }
    }

    /// The expiry cache after restoring.
    pub open spec fn restored_expiry(self, expiry: ExpiryModel) -> ExpiryModel {
        if self.expiry && expiry.readiness() is WorkerFailed {
            expiry.in_state(ExpiryCacheState::Ready)
        } else {
            expiry
        }
    }

    /// The lock cache was taken down by this sequence and has meanwhile become incomplete for
    /// another reason.
    pub open spec fn lock_incomplete(self, lock: LockModel) -> bool {
        self.lock && (lock.readiness() is NotReady || lock.readiness() is Overflow)
    }

    /// The same for the expiry cache.
    pub open spec fn expiry_incomplete(self, expiry: ExpiryModel) -> bool {
        self.expiry && (expiry.readiness() is NotReady || expiry.readiness() is Overflow)
    }

    /// A cache this sequence took down has meanwhile become incomplete for another reason.
    pub open spec fn incomplete(self, lock: LockModel, expiry: ExpiryModel) -> bool {
        self.lock_incomplete(lock) || self.expiry_incomplete(expiry)
    }

    /// Marks the lock cache as failed where the event writes it and it is `Ready`. One that is not
    /// ready for another reason keeps its state.
    pub fn mark_lock(&mut self, affects: AffectedCaches, lock: &mut LockCache)
        ensures
            final(lock)@ == old(self).marked_lock(affects, old(lock)@),
            *final(self) == (DegradedByRetry {
                lock: old(self).lock || old(self).takes_lock(affects, old(lock)@),
                ..*old(self)
            }),
    {
        if affects.lock && !self.lock && lock_cache::state(Some(&*lock)) == CacheState::Ready {
            lock_cache::set_state(lock, CacheState::WorkerFailed);
            self.lock = true;
        }
    }

    /// The same for the expiry cache.
    pub fn mark_expiry(&mut self, affects: AffectedCaches, expiry: &mut ExpiryCache)
        ensures
            final(expiry)@ == old(self).marked_expiry(affects, old(expiry)@),
            *final(self) == (DegradedByRetry {
                expiry: old(self).expiry || old(self).takes_expiry(affects, old(expiry)@),
                ..*old(self)
            }),
    {
        if affects.expiry && !self.expiry && expiry_cache::state(Some(&*expiry))
            == ExpiryCacheState::Ready {
            expiry_cache::set_state(expiry, ExpiryCacheState::WorkerFailed);
            self.expiry = true;
        }
    }

    /// Marks both caches.
    pub fn mark(&mut self, affects: AffectedCaches, lock: &mut LockCache, expiry: &mut ExpiryCache)
        ensures
            final(lock)@ == old(self).marked_lock(affects, old(lock)@),
            final(expiry)@ == old(self).marked_expiry(affects, old(expiry)@),
            *final(self) == old(self).marked(affects, old(lock)@, old(expiry)@),
    {
        self.mark_lock(affects, lock);
        self.mark_expiry(affects, expiry);
    }

    /// Makes the lock cache `Ready` again where this sequence took it down and it is still as it
    /// left it. Says whether it has meanwhile become incomplete for another reason, which a
    /// committed event does not repair.
    pub fn restore_lock(&mut self, lock: &mut LockCache) -> (still_incomplete: bool)
        ensures
            final(lock)@ == old(self).restored_lock(old(lock)@),
            still_incomplete == old(self).lock_incomplete(old(lock)@),
            *final(self) == (DegradedByRetry { lock: false, ..*old(self) }),
    {
        if !self.lock {
            return false;
        }
        self.lock = false;
        match lock_cache::state(Some(&*lock)) {
            CacheState::WorkerFailed => {
                lock_cache::set_state(lock, CacheState::Ready);
                false
            },
            CacheState::Ready => false,
            _ => true,
        }
    }

    /// The same for the expiry cache.
    pub fn restore_expiry(&mut self, expiry: &mut ExpiryCache) -> (still_incomplete: bool)
        ensures
            final(expiry)@ == old(self).restored_expiry(old(expiry)@),
            still_incomplete == old(self).expiry_incomplete(old(expiry)@),
            *final(self) == (DegradedByRetry { expiry: false, ..*old(self) }),
    {
        if !self.expiry {
            return false;
        }
        self.expiry = false;
        match expiry_cache::state(Some(&*expiry)) {
            ExpiryCacheState::WorkerFailed => {
                expiry_cache::set_state(expiry, ExpiryCacheState::Ready);
                false
            },
            ExpiryCacheState::Ready => false,
            _ => true,
        }
    }

    /// Restores both caches. Says whether one of them has become incomplete.
    pub fn restore(&mut self, lock: &mut LockCache, expiry: &mut ExpiryCache) -> (still_incomplete:
        bool)
        ensures
            final(lock)@ == old(self).restored_lock(old(lock)@),
            final(expiry)@ == old(self).restored_expiry(old(expiry)@),
            still_incomplete == old(self).incomplete(old(lock)@, old(expiry)@),
            *final(self) == (DegradedByRetry { lock: false, expiry: false }),
    {
        let lock_incomplete = self.restore_lock(lock);
        let expiry_incomplete = self.restore_expiry(expiry);
        lock_incomplete || expiry_incomplete
    }
}

/// The backoff after so many failures in a row: it doubles from the first step up to the longest.
pub open spec fn backoff(failures: nat) -> nat
    decreases failures,
{
    if failures <= 1 {
        HYDRATION_RETRY_MIN_MS as nat
    } else if 2 * backoff((failures - 1) as nat) > HYDRATION_RETRY_MAX_MS {
        HYDRATION_RETRY_MAX_MS as nat
    } else {
        2 * backoff((failures - 1) as nat)
    }
}

/// From the seventh failure on the backoff is the longest.
proof fn backoff_levels_off(failures: nat)
    requires
        failures >= 7,
    ensures
        backoff(failures) == HYDRATION_RETRY_MAX_MS,
    decreases failures,
{
    if failures > 7 {
        backoff_levels_off((failures - 1) as nat);
    } else {
        reveal_with_fuel(backoff, 8);
    }
}

/// The backoff after so many failures in a row, in milliseconds.
pub fn event_failure_backoff(failures: u32) -> (ms: u64)
    ensures
        ms == backoff(failures as nat),
        HYDRATION_RETRY_MIN_MS <= ms <= HYDRATION_RETRY_MAX_MS,
{
    let steps: u32 = if failures <= 1 {
        0
    } else if failures - 1 > 16 {
        16
    } else {
        failures - 1
    };
    let factor: u64 = 1u64 << steps;
    assert(1u64 << 0u32 == 1 && 1u64 << 1u32 == 2 && 1u64 << 2u32 == 4 && 1u64 << 3u32 == 8
        && 1u64 << 4u32 == 16 && 1u64 << 5u32 == 32) by (bit_vector);
    assert(steps >= 6 ==> 64 <= factor <= 65536) by {
        assert(steps >= 6 && steps <= 16 ==> 64 <= 1u64 << steps <= 65536) by (bit_vector);
    }
    proof {
        reveal_with_fuel(backoff, 8);
        if failures >= 7 {
            backoff_levels_off(failures as nat);
        }
    }
    let ms: u64 = HYDRATION_RETRY_MIN_MS * factor;
    if ms > HYDRATION_RETRY_MAX_MS {
        HYDRATION_RETRY_MAX_MS
    } else {
        ms
    }
}

/// More failures never shorten the backoff.
pub proof fn backoff_grows(fewer: nat, more: nat)
    requires
        fewer <= more,
    ensures
        HYDRATION_RETRY_MIN_MS <= backoff(fewer) <= backoff(more) <= HYDRATION_RETRY_MAX_MS,
    decreases more,
{
    if more > 1 {
        if fewer < more {
            backoff_grows(fewer, (more - 1) as nat);
        } else {
            backoff_grows((more - 1) as nat, (more - 1) as nat);
        }
    }
}

/// The delay of the next hydration attempt after one of `ms` milliseconds.
pub fn next_retry_delay(ms: u64) -> (r: u64)
    ensures
        r == if 2 * ms > HYDRATION_RETRY_MAX_MS {
            HYDRATION_RETRY_MAX_MS as int
        } else {
            2 * ms
        },
{
    if ms > HYDRATION_RETRY_MAX_MS / 2 {
        HYDRATION_RETRY_MAX_MS
    } else {
        2 * ms
    }
}

/// The failure with this number is warned about.
pub open spec fn warning_due(failures: u32) -> bool {
    failures == 1 || failures % HYDRATION_WARN_EVERY == 0
}

/// One more failure, up to the largest number.
pub open spec fn one_more_failure(failures: u32) -> u32 {
    if failures == u32::MAX {
        failures
    } else {
        (failures + 1) as u32
    }
}

/// Which caches the enabled features need. The bypass cache is not among them: while it is not
/// ready no role is exempt, and normal policy applies.
#[derive(Clone, Copy, PartialEq, Eq, Debug, Structural)]
pub struct Requirements {
    pub lock: bool,
    pub expiry: bool,
}

/// The caches needed while lockout enforcement is on or off and login-time expiry is active or
/// not: each feature needs its own.
pub fn requirements(lockout_enforced: bool, expiry_active: bool) -> (r: Requirements)
    ensures
        r == (Requirements { lock: lockout_enforced, expiry: expiry_active }),
{
    Requirements { lock: lockout_enforced, expiry: expiry_active }
}

/// How one attempt to rebuild a cache ended.
#[derive(Clone, Copy, PartialEq, Eq, Debug, Structural)]
pub enum HydrationReport {
    /// Everything fits.
    Complete,
    /// Something did not fit; the feature pauses and the worker goes on.
    Overflowed,
    /// It failed and is to be tried again.
    Failed,
}

/// What follows from one attempt.
#[derive(Clone, Copy, PartialEq, Eq, Debug, Structural)]
pub struct HydrationStep {
    /// The worker need not wait for this cache.
    pub usable: bool,
    /// The cache is to be marked `NotReady`.
    pub mark_not_ready: bool,
    /// A warning is due.
    pub warn: bool,
}

/// How many attempts were not complete after this one.
pub open spec fn failures_after(report: HydrationReport, failures: u32) -> u32 {
    if report is Complete {
        failures
    } else {
        one_more_failure(failures)
    }
}

/// What follows from one attempt after so many that were not complete.
pub open spec fn step_after(report: HydrationReport, failures: u32) -> HydrationStep {
    HydrationStep {
        usable: !(report is Failed),
        mark_not_ready: report is Failed,
        warn: !(report is Complete) && warning_due(one_more_failure(failures)),
    }
}

/// Judges one attempt and counts it when it was not complete. Overflow does not hold the worker
/// up; only a failure does.
pub fn hydration_step(report: HydrationReport, failures: &mut u32) -> (step: HydrationStep)
    ensures
        *final(failures) == failures_after(report, *old(failures)),
        step == step_after(report, *old(failures)),
{
    match report {
        HydrationReport::Complete => HydrationStep {
            usable: true,
            mark_not_ready: false,
            warn: false,
        },
        HydrationReport::Overflowed => {
            *failures = failures.saturating_add(1);
            HydrationStep {
                usable: true,
                mark_not_ready: false,
                warn: *failures == 1 || *failures % HYDRATION_WARN_EVERY == 0,
            }
        },
        HydrationReport::Failed => {
            *failures = failures.saturating_add(1);
            HydrationStep {
                usable: false,
                mark_not_ready: true,
                warn: *failures == 1 || *failures % HYDRATION_WARN_EVERY == 0,
            }
        },
    }
}

/// Whether the worker may begin consuming: every cache that is needed is usable.
pub fn hydration_suffices(needed: Requirements, lock_usable: bool, expiry_usable: bool) -> (r: bool)
    ensures
        r == ((needed.lock ==> lock_usable) && (needed.expiry ==> expiry_usable)),
{
    (!needed.lock || lock_usable) && (!needed.expiry || expiry_usable)
}

/// The failure at `since` is long enough ago at `now`.
pub open spec fn quiet(since: i64, now: i64) -> bool {
    arith::clamp_i64(now - since) >= DURABLE_QUIET_PERIOD_US
}

/// A degradation seen as `observed` ends at `now`.
pub open spec fn settles(health: WorkerHealth, observed: Option<i64>, now: i64) -> bool {
    observed matches Some(since) && quiet(since, now) && health.durable_degraded_us == since
}

/// The health record after a degradation seen as `observed` was to end at `now`.
pub open spec fn settled(health: WorkerHealth, observed: Option<i64>, now: i64) -> WorkerHealth {
    match observed {
        Some(since) => if quiet(since, now) {
            health.with_failure_cleared(since)
        } else {
            health
        },
        None => health,
    }
}

/// Ends a durable-recording degradation after the caches were rebuilt: only when the failure that
/// was seen before they were is long enough ago, and no newer one was recorded meanwhile. Says
/// whether it ended.
pub fn clear_durable_degradation_if_quiet(
    health: &mut WorkerHealth,
    observed: Option<i64>,
    now: i64,
) -> (cleared: bool)
    ensures
        cleared == settles(*old(health), observed, now),
        *final(health) == settled(*old(health), observed, now),
{
    match observed {
        None => false,
        Some(since) => {
            if arith::saturating_sub_i64(now, since) < DURABLE_QUIET_PERIOD_US {
                return false;
            }
            worker_health::clear_durable_degraded(health, since)
        },
    }
}

/// A wait before the next try, and whether to warn about it.
#[derive(Clone, Copy, PartialEq, Eq, Debug, Structural)]
pub struct Backoff {
    pub delay_ms: u64,
    pub warn: bool,
}

/// The wait after the failure with this number.
pub open spec fn wait_after(failures: u32) -> Backoff {
    Backoff { delay_ms: backoff(failures as nat) as u64, warn: warning_due(failures) }
}

/// Reacts to a journal that could not be read or rotated: enforcement pauses, and the worker backs
/// off. After the wait the failure is recorded once more with [`journal_still_failing`].
pub fn handle_journal_io_failure(health: &mut WorkerHealth, failures: &mut u32, now: i64) -> (r:
    Backoff)
    ensures
        *final(health) == old(health).with_durable_failure(now),
        *final(failures) == one_more_failure(*old(failures)),
        r == wait_after(one_more_failure(*old(failures))),
{
    worker_health::mark_durable_failure(health, now);
    *failures = failures.saturating_add(1);
    Backoff {
        delay_ms: event_failure_backoff(*failures),
        warn: *failures == 1 || *failures % HYDRATION_WARN_EVERY == 0,
    }
}

/// Records after the wait that the journal still failed, so that the quiet period counts from the
/// end of the wait.
pub fn journal_still_failing(health: &mut WorkerHealth, now: i64)
    ensures
        *final(health) == old(health).with_durable_failure(now),
{
    worker_health::mark_durable_failure(health, now);
}

/// What the worker sees at the top of each round.
#[derive(Clone, Copy, PartialEq, Eq, Debug, Structural)]
pub struct RoundFacts {
    pub shutdown: bool,
    pub queue: QueueState,
    pub needed: Requirements,
    pub lock: CacheState,
    pub expiry: ExpiryCacheState,
    pub degraded_since: Option<i64>,
    pub now: i64,
}

/// Why the worker goes back to hydration.
#[derive(Clone, Copy, PartialEq, Eq, Debug, Structural)]
pub enum RehydrateCause {
    LockCache,
    ExpiryCache,
    DurableRecording,
}

/// Whether the worker may consume in this round.
#[derive(Clone, Copy, PartialEq, Eq, Debug, Structural)]
pub enum Gate {
    Shutdown,
    /// The queue is corrupt: hydration cannot repair it.
    QueueUnhealthy,
    Rehydrate(RehydrateCause),
    Proceed,
}

/// What the worker does next.
#[derive(Clone, Copy, PartialEq, Eq, Debug)]
pub enum Work {
    /// Rotate the journal and open the file to replay.
    Rotate,
    /// Read the next record of the open file.
    ReadRecord,
    /// Apply this event.
    Process(SharedAuthEvent),
}

/// How rotating and opening went.
#[derive(Clone, Copy, PartialEq, Eq, Debug, Structural)]
pub enum RotationReply {
    Opened,
    NothingToReplay,
    Corrupt,
    IoFailure,
}

/// How reading a record went.
#[derive(Clone, Copy, PartialEq, Eq, Debug)]
pub enum RecordReply {
    Event(SharedAuthEvent),
    EndOfFile,
    Corrupt,
    IoFailure,
}

/// How removing the replayed file went.
#[derive(Clone, Copy, PartialEq, Eq, Debug, Structural)]
pub enum RemovalReply {
    Removed,
    IoFailure,
    OtherFailure,
}

/// What follows from a reply.
#[derive(Clone, Copy, PartialEq, Eq, Debug, Structural)]
pub enum NextStep {
    /// Go on at once.
    GoOn,
    /// Wait this many milliseconds for events.
    Idle(u64),
    /// Mark the queue corrupt and suspend.
    Suspend,
    /// Back off as [`handle_journal_io_failure`] says.
    BackOff,
    /// Remove the replayed file.
    RemoveFile,
    /// Delete the receipts: they all belong to a file that is gone.
    CleanReceipts,
}

/// The state of one run of consumption.
#[derive(Clone, Copy, PartialEq, Eq, Debug)]
pub struct Consumer {
    pub event_failures: u32,
    pub degraded: DegradedByRetry,
    pub journal_io_failures: u32,
    /// A file is open for replay.
    pub batch_open: bool,
    /// The event that is to be applied, tried again until it commits.
    pub pending_event: Option<SharedAuthEvent>,
}

impl Consumer {
    /// The lock cache sends the worker back to hydration: it is needed and not hydrated, and it is
    /// not this retry sequence that took it down.
    pub open spec fn lock_stops(self, f: RoundFacts) -> bool {
        &&& f.needed.lock
        &&& f.lock is NotReady || (f.lock is WorkerFailed && !self.degraded.lock)
    }

    /// The same for the expiry cache.
    pub open spec fn expiry_stops(self, f: RoundFacts) -> bool {
        &&& f.needed.expiry
        &&& f.expiry is NotReady || (f.expiry is WorkerFailed && !self.degraded.expiry)
    }

    /// Whether the worker may consume in this round.
    pub open spec fn gate(self, f: RoundFacts) -> Gate {
        if f.shutdown {
            Gate::Shutdown
        } else if f.queue is Corrupt {
            Gate::QueueUnhealthy
        } else if self.lock_stops(f) {
            Gate::Rehydrate(RehydrateCause::LockCache)
        } else if self.expiry_stops(f) {
            Gate::Rehydrate(RehydrateCause::ExpiryCache)
        } else if f.degraded_since matches Some(since) && quiet(since, f.now) {
            Gate::Rehydrate(RehydrateCause::DurableRecording)
        } else {
            Gate::Proceed
        }
    }

    /// A run that has done nothing yet.
    pub open spec fn fresh() -> Consumer {
        Consumer {
            event_failures: 0,
            degraded: DegradedByRetry { lock: false, expiry: false },
            journal_io_failures: 0,
            batch_open: false,
            pending_event: None,
        }
    }

    /// What to do next: the pending event first, else the next record, else the next file.
    pub open spec fn work(self) -> Work {
        if !self.batch_open {
            Work::Rotate
        } else {
            match self.pending_event {
                Some(event) => Work::Process(event),
                None => Work::ReadRecord,
            }
        }
    }

    /// The run after a rotation. Success ends a series of journal failures.
    pub open spec fn rotated(self, reply: RotationReply) -> Consumer {
        if reply is Opened {
            Consumer { journal_io_failures: 0, batch_open: true, ..self }
        } else {
            self
        }
    }

    /// What follows from a rotation.
    pub open spec fn rotation_step(reply: RotationReply) -> NextStep {
        match reply {
            RotationReply::Opened => NextStep::GoOn,
            RotationReply::NothingToReplay => NextStep::Idle(IDLE_WAIT_MS),
            RotationReply::Corrupt => NextStep::Suspend,
            RotationReply::IoFailure => NextStep::BackOff,
        }
    }

    /// The run after a record was read. The end of the file closes it.
    pub open spec fn read(self, reply: RecordReply) -> Consumer {
        match reply {
            RecordReply::Event(event) => Consumer {
                journal_io_failures: 0,
                pending_event: Some(event),
                ..self
            },
            RecordReply::EndOfFile => Consumer { batch_open: false, ..self },
            RecordReply::Corrupt => self,
            RecordReply::IoFailure => self,
        }
    }

    /// What follows from reading a record.
    pub open spec fn record_step(reply: RecordReply) -> NextStep {
        match reply {
            RecordReply::Event(_) => NextStep::GoOn,
            RecordReply::EndOfFile => NextStep::RemoveFile,
            RecordReply::Corrupt => NextStep::Suspend,
            RecordReply::IoFailure => NextStep::BackOff,
        }
    }

    /// The run after the replayed file was to be removed.
    pub open spec fn cleaned(self, reply: RemovalReply) -> Consumer {
        if reply is Removed {
            Consumer { journal_io_failures: 0, ..self }
        } else {
            self
        }
    }

    /// What follows from a removal.
    pub open spec fn removal_step(reply: RemovalReply) -> NextStep {
        match reply {
            RemovalReply::Removed => NextStep::CleanReceipts,
            RemovalReply::IoFailure => NextStep::BackOff,
            RemovalReply::OtherFailure => NextStep::Idle(HYDRATION_RETRY_MIN_MS),
        }
    }

    /// The run after the pending event committed.
    pub open spec fn committed(self) -> Consumer {
        Consumer {
            pending_event: None,
            event_failures: 0,
            degraded: if self.event_failures > 0 {
                DegradedByRetry { lock: false, expiry: false }
            } else {
                self.degraded
            },
            ..self
        }
    }

    /// What the retries of the pending event took down and its commit is to restore.
    pub open spec fn to_restore(self) -> DegradedByRetry {
        if self.event_failures > 0 {
            self.degraded
        } else {
            DegradedByRetry { lock: false, expiry: false }
        }
    }

    /// The run after the pending event rolled back.
    pub open spec fn rolled_back(self) -> Consumer {
        Consumer { event_failures: one_more_failure(self.event_failures), ..self }
    }

    /// A run that has done nothing yet.
    pub fn new() -> (c: Consumer)
        ensures
            c == Consumer::fresh(),
    {
        Consumer {
            event_failures: 0,
            degraded: DegradedByRetry::none(),
            journal_io_failures: 0,
            batch_open: false,
            pending_event: None,
        }
    }

    /// Decides whether this round may consume.
    pub fn check_round(&self, f: &RoundFacts) -> (r: Gate)
        ensures
            r == self.gate(*f),
    {
        if f.shutdown {
            return Gate::Shutdown;
        }
        if f.queue == QueueState::Corrupt {
            return Gate::QueueUnhealthy;
        }
        if f.needed.lock && (f.lock == CacheState::NotReady || f.lock == CacheState::WorkerFailed)
            && !(self.degraded.lock && f.lock == CacheState::WorkerFailed) {
            return Gate::Rehydrate(RehydrateCause::LockCache);
        }
        if f.needed.expiry && (f.expiry == ExpiryCacheState::NotReady || f.expiry
            == ExpiryCacheState::WorkerFailed) && !(self.degraded.expiry && f.expiry
            == ExpiryCacheState::WorkerFailed) {
            return Gate::Rehydrate(RehydrateCause::ExpiryCache);
        }
        match f.degraded_since {
            Some(since) => {
                if arith::saturating_sub_i64(f.now, since) >= DURABLE_QUIET_PERIOD_US {
                    return Gate::Rehydrate(RehydrateCause::DurableRecording);
                }
            },
            None => {},
        }
        Gate::Proceed
    }

    /// What to do next.
    pub fn next_work(&self) -> (r: Work)
        ensures
            r == self.work(),
    {
        if !self.batch_open {
            return Work::Rotate;
        }
        match self.pending_event {
            Some(event) => Work::Process(event),
            None => Work::ReadRecord,
        }
    }

    /// Takes note of a rotation.
    pub fn on_rotation(&mut self, reply: RotationReply) -> (r: NextStep)
        ensures
            *final(self) == old(self).rotated(reply),
            r == Consumer::rotation_step(reply),
    {
        match reply {
            RotationReply::Opened => {
                self.journal_io_failures = 0;
                self.batch_open = true;
                NextStep::GoOn
            },
            RotationReply::NothingToReplay => NextStep::Idle(IDLE_WAIT_MS),
            RotationReply::Corrupt => NextStep::Suspend,
            RotationReply::IoFailure => NextStep::BackOff,
        }
    }

    /// Takes note of a record.
    pub fn on_record(&mut self, reply: RecordReply) -> (r: NextStep)
        ensures
            *final(self) == old(self).read(reply),
            r == Consumer::record_step(reply),
    {
        match reply {
            RecordReply::Event(event) => {
                self.journal_io_failures = 0;
                self.pending_event = Some(event);
                NextStep::GoOn
            },
            RecordReply::EndOfFile => {
                self.batch_open = false;
                NextStep::RemoveFile
            },
            RecordReply::Corrupt => NextStep::Suspend,
            RecordReply::IoFailure => NextStep::BackOff,
        }
    }

    /// Takes note of the removal of a replayed file. A file that could not be removed is replayed
    /// again; its receipts keep its events from being applied twice.
    pub fn on_removal(&mut self, reply: RemovalReply) -> (r: NextStep)
        ensures
            *final(self) == old(self).cleaned(reply),
            r == Consumer::removal_step(reply),
    {
        match reply {
            RemovalReply::Removed => {
                self.journal_io_failures = 0;
                NextStep::CleanReceipts
            },
            RemovalReply::IoFailure => NextStep::BackOff,
            RemovalReply::OtherFailure => NextStep::Idle(HYDRATION_RETRY_MIN_MS),
        }
    }

    /// The pending event committed: it is done. Returns what its retries took down and is now to
    /// be restored; where a cache turns out incomplete then, the worker must go back to hydration.
    pub fn on_committed(&mut self) -> (to_restore: DegradedByRetry)
        ensures
            *final(self) == old(self).committed(),
            to_restore == old(self).to_restore(),
    {
        self.pending_event = None;
        if self.event_failures == 0 {
            return DegradedByRetry::none();
        }
        let to_restore = self.degraded;
        self.degraded = DegradedByRetry::none();
        self.event_failures = 0;
        to_restore
    }

    /// The pending event rolled back, and the caches it writes were marked: it is tried again after
    /// a backoff.
    pub fn suspend_and_backoff(&mut self) -> (r: Backoff)
        ensures
            *final(self) == old(self).rolled_back(),
            r == wait_after(one_more_failure(old(self).event_failures)),
    {
        let failures: u32 = self.event_failures.saturating_add(1);
        self.event_failures = failures;
        Backoff {
            delay_ms: event_failure_backoff(failures),
            warn: failures == 1 || failures % HYDRATION_WARN_EVERY == 0,
        }
    }
}

/// Whether the exempt roles are due to be read again.
pub fn bypass_refresh_due(elapsed_ms: u64) -> (r: bool)
    ensures
        r == (elapsed_ms >= BYPASS_REFRESH_INTERVAL_MS),
{
    elapsed_ms >= BYPASS_REFRESH_INTERVAL_MS
}

/// Reacts to a failed reading of the exempt roles: the cache can no longer be trusted, so nobody is
/// exempt until the next reading succeeds. The worker goes on.
pub fn bypass_refresh_failed(cache: &mut BypassCache)
    ensures
        final(cache)@ == old(cache)@.in_state(BypassCacheState::NotReady),
{
    bypass_cache::set_state(cache, BypassCacheState::NotReady);
}

/// What an event stands for once its parts are validated.
pub struct EventPlan {
    pub username: String,
    pub kind: EventKind,
    pub flags: EventFlags,
    pub affects: AffectedCaches,
}

/// An event can be trusted: its name is stored text, its kind and flags are known.
pub open spec fn plannable(event: SharedAuthEvent) -> bool {
    &&& username::holds_name(event.username@)
    &&& EventKind::of_raw(event.kind) is Some
    &&& auth_event::flags_known(event.flags)
}

/// Validates an event. `None` means that it cannot be trusted: it must not be acknowledged, and
/// the queue is corrupt.
pub fn plan_event(event: &SharedAuthEvent) -> (r: Option<EventPlan>)
    ensures
        r is Some <==> plannable(*event),
        r matches Some(plan) ==> {
            &&& vstd::utf8::encode_utf8(plan.username@) == event.username@.take(
                username::text_end(event.username@),
            )
            &&& Some(plan.kind) == EventKind::of_raw(event.kind)
            &&& plan.flags == EventFlags(event.flags)
            &&& plan.affects == AffectedCaches::of_event(plan.kind, plan.flags)
        },
{
    let name = match username::username_from_bytes(event.username.as_slice()) {
        Some(name) => name,
        None => {
            return None;
        },
    };
    let kind = match EventKind::from_raw(event.kind) {
        Some(kind) => kind,
        None => {
            return None;
        },
    };
    let flags = match EventFlags::from_raw(event.flags) {
        Some(flags) => flags,
        None => {
            return None;
        },
    };
    let affects = AffectedCaches::for_event(kind, flags);
    Some(EventPlan { username: name, kind, flags, affects })
}

/// What the transaction of an event does to the database, in this order.
#[derive(Clone, Copy, PartialEq, Eq, Debug, Structural)]
pub struct EventEffects {
    pub record_failure: bool,
    pub persist_grace: bool,
    pub clear_attempts: bool,
}

/// The effects of an event. One whose receipt was already there has none: it was applied before a
/// crash. Cleanup follows the flags the event was created with, not the current setting.
pub open spec fn effects(is_new: bool, kind: EventKind, flags: EventFlags) -> EventEffects {
    EventEffects {
        record_failure: is_new && kind is Failure,
        persist_grace: is_new && kind is GraceConsumed,
        clear_attempts: is_new && !(kind is Failure) && flags.clears(),
    }
}

/// Decides what the transaction of an event does.
pub fn event_effects(is_new: bool, kind: EventKind, flags: EventFlags) -> (r: EventEffects)
    ensures
        r == effects(is_new, kind, flags),
{
    if !is_new {
        return EventEffects {
            record_failure: false,
            persist_grace: false,
            clear_attempts: false,
        };
    }
    match kind {
        EventKind::Failure => EventEffects {
            record_failure: true,
            persist_grace: false,
            clear_attempts: false,
        },
        EventKind::Success => EventEffects {
            record_failure: false,
            persist_grace: false,
            clear_attempts: flags.clear_login_attempts(),
        },
        EventKind::GraceConsumed => EventEffects {
            record_failure: false,
            persist_grace: true,
            clear_attempts: flags.clear_login_attempts(),
        },
    }
}

/// The staged work after the database work of an event ended.
pub open spec fn finished(
    pending: PendingModel,
    token: Option<ClaimToken>,
    subid: u32,
    succeeded: bool,
) -> PendingModel {
    match token {
        Some(token) => if succeeded {
            PendingModel { ack: Some(PendingAck { token, subid }), ..pending }
        } else {
            pending
        },
        None => pending,
    }
}

/// Stages the acknowledgement of the event's claim, when its database work succeeded and the ring
/// holds a copy of it. Says whether the transaction is to be committed.
pub fn finish_event(
    pending: &mut PendingState,
    token: Option<ClaimToken>,
    subid: u32,
    succeeded: bool,
) -> (commit: bool)
    ensures
        commit == succeeded,
        final(pending)@ == finished(old(pending)@, token, subid, succeeded),
{
    if succeeded {
        match token {
            Some(token) => {
                pending.stage_ack(token, subid);
            },
            None => {},
        }
    }
    succeeded
}

/// Waiting for an administrator to recover a corrupt queue.
#[derive(Clone, Copy, PartialEq, Eq, Debug, Structural)]
pub struct Suspension {
    pub reports: u32,
    pub last_reported: QueueState,
}

/// What a suspended worker does after one look at the queue.
#[derive(Clone, Copy, PartialEq, Eq, Debug, Structural)]
pub enum SuspendStep {
    Shutdown,
    /// The queue was recovered: hydrate and consume again.
    Resume,
    /// Keep waiting for this many milliseconds, and report the state first when told to.
    Wait { report: bool, ms: u64 },
}

impl Suspension {
    /// Begins waiting.
    pub fn new(initial: QueueState) -> (s: Suspension)
        ensures
            s == (Suspension { reports: 0, last_reported: initial }),
    {
        Suspension { reports: 0, last_reported: initial }
    }

    /// A look at a corrupt queue reports.
    pub open spec fn reports_now(self, current: QueueState) -> bool {
        warning_due(one_more_failure(self.reports)) || current != self.last_reported
    }

    /// What a look at the queue comes to.
    pub open spec fn step(self, shutdown: bool, current: QueueState) -> SuspendStep {
        if shutdown {
            SuspendStep::Shutdown
        } else if !(current is Corrupt) {
            SuspendStep::Resume
        } else {
            SuspendStep::Wait { report: self.reports_now(current), ms: SUSPENDED_WAIT_MS }
        }
    }

    /// The suspension after a look at the queue.
    pub open spec fn observed(self, shutdown: bool, current: QueueState) -> Suspension {
        if shutdown || !(current is Corrupt) {
            self
        } else {
            Suspension {
                reports: one_more_failure(self.reports),
                last_reported: if self.reports_now(current) {
                    current
                } else {
                    self.last_reported
                },
            }
        }
    }

    /// Looks at the queue. The first look reports, then a change of state, then every tenth look.
    pub fn observe(&mut self, shutdown: bool, current: QueueState) -> (r: SuspendStep)
        ensures
            r == old(self).step(shutdown, current),
            *final(self) == old(self).observed(shutdown, current),
    {
        if shutdown {
            return SuspendStep::Shutdown;
        }
        if current != QueueState::Corrupt {
            return SuspendStep::Resume;
        }
        self.reports = self.reports.saturating_add(1);
        if self.reports == 1 || current != self.last_reported || self.reports
            % HYDRATION_WARN_EVERY == 0 {
            self.last_reported = current;
            return SuspendStep::Wait { report: true, ms: SUSPENDED_WAIT_MS };
        }
        SuspendStep::Wait { report: false, ms: SUSPENDED_WAIT_MS }
    }
}

/// The lock cache when the worker is gone: what was ready no longer is.
pub open spec fn abandoned_lock(m: LockModel) -> LockModel {
    if m.readiness() is Ready {
        m.in_state(CacheState::WorkerFailed)
    } else {
        m
    }
}

/// The expiry cache when the worker is gone.
pub open spec fn abandoned_expiry(m: ExpiryModel) -> ExpiryModel {
    if m.readiness() is Ready {
        m.in_state(ExpiryCacheState::WorkerFailed)
    } else {
        m
    }
}

/// The bypass cache when the worker is gone.
pub open spec fn abandoned_bypass(m: bypass_cache::BypassModel) -> bypass_cache::BypassModel {
    if m.readiness() is Ready {
        m.in_state(BypassCacheState::WorkerFailed)
    } else {
        m
    }
}

/// The health record after the worker left.
pub open spec fn left(health: WorkerHealth, contained: bool) -> WorkerHealth {
    health.stopped(
        if contained {
            STOP_CONTAINED
        } else {
            STOP_SHUTDOWN
        },
    )
}

/// Records that the worker leaves, after a shutdown request or a contained failure.
pub fn worker_left(health: &mut WorkerHealth, contained: bool)
    ensures
        *final(health) == left(*old(health), contained),
{
    let reason: u32 = if contained {
        STOP_CONTAINED
    } else {
        STOP_SHUTDOWN
    };
    worker_health::mark_stopped(health, reason);
}

/// Gives the lock cache up when the worker leaves: nothing maintains it any more. A state other than
/// `Ready` is left as it is.
pub fn abandon_lock(lock: &mut LockCache)
    ensures
        final(lock)@ == abandoned_lock(old(lock)@),
{
    if lock_cache::state(Some(&*lock)) == CacheState::Ready {
        lock_cache::set_state(lock, CacheState::WorkerFailed);
    }
}

/// The same for the expiry cache.
pub fn abandon_expiry(expiry: &mut ExpiryCache)
    ensures
        final(expiry)@ == abandoned_expiry(old(expiry)@),
{
    if expiry_cache::state(Some(&*expiry)) == ExpiryCacheState::Ready {
        expiry_cache::set_state(expiry, ExpiryCacheState::WorkerFailed);
    }
}

/// The same for the bypass cache.
pub fn abandon_bypass(bypass: &mut BypassCache)
    ensures
        final(bypass)@ == abandoned_bypass(old(bypass)@),
{
    if bypass_cache::state(Some(&*bypass)) == BypassCacheState::Ready {
        bypass_cache::set_state(bypass, BypassCacheState::WorkerFailed);
    }
}

} // verus!
