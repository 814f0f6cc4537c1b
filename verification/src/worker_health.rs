//! Liveness and durable-recording health of the auth-event worker.
//!
//! A cache that is ready says nothing about whether a worker still applies authentication
//! events, so liveness is recorded on its own. The authentication hook enforces only while a
//! worker runs and durable recording is trusted.

use crate::arith;
use vstd::prelude::*;

verus! {

/// No worker has run since shared memory was created.
pub const STOP_NEVER: u32 = 0;

/// The worker returned because a shutdown was requested.
pub const STOP_SHUTDOWN: u32 = 1;

/// The worker's outermost guard contained a failure.
pub const STOP_CONTAINED: u32 = 2;

/// How long durable recording must have been free of failures, in microseconds, before the
/// worker may rehydrate and let enforcement resume.
pub const DURABLE_QUIET_PERIOD_US: i64 = 5_000_000;

/// Minimum spacing of two "enforcement paused" warnings for one reason, in microseconds.
pub const WARN_INTERVAL_US: i64 = 60_000_000;

/// The reason code that no warning has yet.
pub const NO_WARN_REASON: u32 = 0xFFFF_FFFF;

/// Shared liveness record.
#[derive(Clone, Copy, PartialEq, Eq, Debug)]
pub struct WorkerHealth {
    /// 1 only while a worker is attached to the control database and has not begun leaving.
    pub running: u32,
    /// One of the `STOP_*` codes.
    pub stop_reason: u32,
    pub starts: u64,
    pub stops: u64,
    /// Time of the most recent durable-recording failure, or 0 while recording is healthy.
    pub durable_degraded_us: i64,
    /// Time of the last "enforcement paused" warning.
    pub last_warn_us: i64,
    /// The reason that warning was about.
    pub last_warn_reason: u32,
}

/// Why login-time enforcement is paused.
#[derive(Clone, Copy, PartialEq, Eq, Debug, Structural)]
pub enum PausedReason {
    /// No worker runs, so nothing applies authentication events.
    WorkerNotRunning,
    /// The auth-event queue is structurally corrupt.
    QueueCorrupt,
    /// A durable journal append failed, so cached coverage cannot be trusted.
    DurableRecording,
}

impl PausedReason {
    /// The number under which the reason is remembered in [`WorkerHealth`].
    pub open spec fn spec_code(self) -> u32 {
        match self {
            PausedReason::WorkerNotRunning => 0,
            PausedReason::QueueCorrupt => 1,
            PausedReason::DurableRecording => 2,
        }
    }

    /// The number under which the reason is remembered in [`WorkerHealth`].
    pub fn code(self) -> (r: u32)
        ensures
            r == self.spec_code(),
    {
        match self {
            PausedReason::WorkerNotRunning => 0,
            PausedReason::QueueCorrupt => 1,
            PausedReason::DurableRecording => 2,
        }
    }
}

impl WorkerHealth {
    /// A fresh record: no worker has run, nothing has failed, nothing was warned about.
    pub open spec fn fresh() -> WorkerHealth {
        WorkerHealth {
            running: 0,
            stop_reason: STOP_NEVER,
            starts: 0,
            stops: 0,
            durable_degraded_us: 0,
            last_warn_us: 0,
            last_warn_reason: NO_WARN_REASON,
        }
    }

    /// A fresh record.
    pub fn new() -> (h: WorkerHealth)
        ensures
            h == WorkerHealth::fresh(),
    {
        WorkerHealth {
            running: 0,
            stop_reason: STOP_NEVER,
            starts: 0,
            stops: 0,
            durable_degraded_us: 0,
            last_warn_us: 0,
            last_warn_reason: NO_WARN_REASON,
        }
    }

    /// A worker started. The counter wraps.
    pub open spec fn started(self) -> WorkerHealth {
        WorkerHealth {
            running: 1,
            starts: if self.starts == u64::MAX {
                0
            } else {
                (self.starts + 1) as u64
            },
            ..self
        }
    }

    /// The worker stopped. The counter wraps.
    pub open spec fn stopped(self, reason: u32) -> WorkerHealth {
        WorkerHealth {
            running: 0,
            stop_reason: reason,
            stops: if self.stops == u64::MAX {
                0
            } else {
                (self.stops + 1) as u64
            },
            ..self
        }
    }

    /// A worker is running.
    pub open spec fn runs(self) -> bool {
        self.running == 1
    }

    /// The failure time, when durable recording is untrusted.
    pub open spec fn degraded_since(self) -> Option<i64> {
        if self.durable_degraded_us == 0 {
            None
        } else {
            Some(self.durable_degraded_us)
        }
    }

    /// A durable failure at `now` recorded; 0 means healthy, so it is never stored.
    pub open spec fn with_durable_failure(self, now: i64) -> WorkerHealth {
        WorkerHealth { durable_degraded_us: if now == 0 { 1 } else { now }, ..self }
    }

    /// The failure marker removed, when it still holds `observed`.
    pub open spec fn with_failure_cleared(self, observed: i64) -> WorkerHealth {
        if self.durable_degraded_us == observed {
            WorkerHealth { durable_degraded_us: 0, ..self }
        } else {
            self
        }
    }

    /// A warning about `reason` emitted at `now`, when one is due.
    pub open spec fn with_warning_claimed(self, now: i64, reason: PausedReason) -> WorkerHealth {
        if self.warning_due(now, reason) {
            WorkerHealth { last_warn_us: now, last_warn_reason: reason.spec_code(), ..self }
        } else {
            self
        }
    }

    /// A warning about `reason` is due at `now`: it is about another reason than the last, or
    /// nothing was warned about yet, or the interval has passed.
    pub open spec fn warning_due(self, now: i64, reason: PausedReason) -> bool {
        ||| self.last_warn_reason != reason.spec_code()
        ||| self.last_warn_us == 0
        ||| arith::clamp_i64(now - self.last_warn_us) >= WARN_INTERVAL_US
    }
}

/// Bytes of shared memory the record occupies.
pub fn shared_memory_bytes() -> (n: usize)
    ensures
        n as nat == vstd::layout::size_of::<WorkerHealth>(),
{
    core::mem::size_of::<WorkerHealth>()
}

/// Publishes that a worker is attached and about to maintain the caches.
pub fn mark_running(health: &mut WorkerHealth)
    ensures
        *final(health) == old(health).started(),
{
    health.starts = health.starts.wrapping_add(1);
    health.running = 1;
}

/// Publishes that no worker maintains anything any more.
pub fn mark_stopped(health: &mut WorkerHealth, reason: u32)
    ensures
        *final(health) == old(health).stopped(reason),
{
    health.stop_reason = reason;
    health.stops = health.stops.wrapping_add(1);
    health.running = 0;
}

/// Whether a worker is running; without shared memory none is.
pub fn is_running(health: Option<&WorkerHealth>) -> (r: bool)
    ensures
        r == (health matches Some(h) && h.runs()),
{
    match health {
        Some(h) => h.running == 1,
        None => false,
    }
}

/// Records that an authentication event could not be recorded durably at `now`.
pub fn mark_durable_failure(health: &mut WorkerHealth, now: i64)
    ensures
        *final(health) == old(health).with_durable_failure(now),
{
    health.durable_degraded_us = if now == 0 {
        1
    } else {
        now
    };
}

/// The time of the last durable failure, while durable recording is untrusted.
pub fn durable_degraded_since(health: Option<&WorkerHealth>) -> (r: Option<i64>)
    ensures
        r == match health {
            Some(h) => h.degraded_since(),
            None => None,
        },
{
    match health {
        Some(h) => {
            if h.durable_degraded_us == 0 {
                None
            } else {
                Some(h.durable_degraded_us)
            }
        },
        None => None,
    }
}

/// Clears the failure marker, but only when it still holds `observed`.
///
/// A failure recorded after `observed` was read leaves the marker standing, so a hydration that
/// a later failure has already invalidated never announces the caches healthy.
pub fn clear_durable_degraded(health: &mut WorkerHealth, observed: i64) -> (cleared: bool)
    ensures
        cleared == (old(health).durable_degraded_us == observed),
        *final(health) == old(health).with_failure_cleared(observed),
{
    if health.durable_degraded_us == observed {
        health.durable_degraded_us = 0;
        true
    } else {
        false
    }
}

/// Claims the right to emit one "enforcement paused" warning about `reason` at `now`.
pub fn claim_warning_slot(health: &mut WorkerHealth, now: i64, reason: PausedReason) -> (due: bool)
    ensures
        due == old(health).warning_due(now, reason),
        *final(health) == old(health).with_warning_claimed(now, reason),
{
    let last: i64 = health.last_warn_us;
    let same_reason = health.last_warn_reason == reason.code();
    if same_reason && last != 0 && arith::saturating_sub_i64(now, last) < WARN_INTERVAL_US {
        return false;
    }
    health.last_warn_us = now;
    health.last_warn_reason = reason.code();
    true
}

/// Counters for the statistics surface.
#[derive(Clone, Copy, PartialEq, Eq, Debug)]
pub struct WorkerHealthStats {
    pub running: i64,
    pub stop_reason: i64,
    pub starts: i64,
    pub stops: i64,
    pub durable_degraded: i64,
}

/// The counters; `None` without shared memory.
pub fn stats(health: Option<&WorkerHealth>) -> (r: Option<WorkerHealthStats>)
    ensures
        r is Some <==> health is Some,
        (health, r) matches (Some(h), Some(s)) ==> {
            &&& s.running == h.running
            &&& s.stop_reason == h.stop_reason
            &&& s.starts == arith::clamp_i64(h.starts as int)
            &&& s.stops == arith::clamp_i64(h.stops as int)
            &&& s.durable_degraded == if h.degraded_since() is Some {
                1int
            } else {
                0
            }
        },
{
    match health {
        None => None,
        Some(h) => Some(
            WorkerHealthStats {
                running: h.running as i64,
                stop_reason: h.stop_reason as i64,
                starts: arith::counter_to_i64(h.starts),
                stops: arith::counter_to_i64(h.stops),
                durable_degraded: arith::flag_to_i64(h.durable_degraded_us != 0),
            },
        ),
    }
}

/// One thing that happens to the record.
pub enum HealthMove {
    Start,
    /// The worker stopped, for this reason.
    Stop(u32),
    /// A durable failure at this time.
    Failure(i64),
    /// The failure marker was to be cleared, if it still held this time.
    Clear(i64),
    /// A warning was asked for at this time.
    Warning(i64, PausedReason),
}

impl WorkerHealth {
    /// The record after `m`.
    pub open spec fn after(self, m: HealthMove) -> WorkerHealth {
        match m {
            HealthMove::Start => self.started(),
            HealthMove::Stop(reason) => self.stopped(reason),
            HealthMove::Failure(now) => self.with_durable_failure(now),
            HealthMove::Clear(observed) => self.with_failure_cleared(observed),
            HealthMove::Warning(now, reason) => self.with_warning_claimed(now, reason),
        }
    }

    /// The record after all of `ms`.
    pub open spec fn after_all(self, ms: Seq<HealthMove>) -> WorkerHealth
        decreases ms.len(),
    {
        if ms.len() == 0 {
            self
        } else {
            self.after_all(ms.drop_last()).after(ms.last())
        }
    }
}

/// Move `i` is a start that no stop follows.
pub open spec fn started_for_good(ms: Seq<HealthMove>, i: int) -> bool {
    &&& 0 <= i < ms.len()
    &&& ms[i] is Start
    &&& forall|j: int| i < j < ms.len() ==> !((#[trigger] ms[j]) is Stop)
}

/// A worker runs exactly when one started and none stopped since, whatever else happened.
pub proof fn runs_from_start_to_stop(ms: Seq<HealthMove>)
    ensures
        WorkerHealth::fresh().after_all(ms).runs() <==> exists|i: int| started_for_good(ms, i),
    decreases ms.len(),
{
    if ms.len() > 0 {
        let before = ms.drop_last();
        runs_from_start_to_stop(before);
        match ms.last() {
            HealthMove::Start => {
                assert(started_for_good(ms, ms.len() - 1));
            },
            HealthMove::Stop(_) => {
                assert forall|i: int| !started_for_good(ms, i) by {
                    if 0 <= i < ms.len() - 1 {
                        assert(ms[ms.len() - 1] is Stop);
                    }
                }
            },
            _ => {
                if exists|i: int| started_for_good(before, i) {
                    let i = choose|i: int| started_for_good(before, i);
                    assert forall|j: int| i < j < ms.len() implies !((#[trigger] ms[j]) is Stop) by {
                        if j < before.len() {
                            assert(before[j] == ms[j]);
                        }
                    }
                    assert(started_for_good(ms, i));
                }
                if exists|i: int| started_for_good(ms, i) {
                    let i = choose|i: int| started_for_good(ms, i);
                    assert(i < before.len());
                    assert forall|j: int| i < j < before.len() implies !((
                    #[trigger] before[j]) is Stop) by {
                        assert(before[j] == ms[j]);
                    }
                    assert(started_for_good(before, i));
                }
            },
        }
    }
}

/// A failure recorded while the worker was rehydrating keeps durable recording untrusted: the
/// marker is cleared only when it is still the one that was observed.
pub proof fn later_failure_survives_clearing(h: WorkerHealth, observed: i64, now: i64)
    requires
        h.with_durable_failure(now).degraded_since() != Some(observed),
    ensures
        h.with_durable_failure(now).with_failure_cleared(observed).degraded_since() is Some,
{
}

/// Once a warning was claimed at a time other than 0, the same reason is silent until the
/// interval has passed.
pub proof fn one_warning_per_interval(
    h: WorkerHealth,
    first: i64,
    second: i64,
    reason: PausedReason,
)
    requires
        h.warning_due(first, reason),
        first != 0,
        second - first < WARN_INTERVAL_US,
    ensures
        !h.with_warning_claimed(first, reason).warning_due(second, reason),
{
}

/// A different reason is reported at once, whenever the last warning was.
pub proof fn new_reason_is_reported_at_once(
    h: WorkerHealth,
    first: i64,
    second: i64,
    reason: PausedReason,
    other: PausedReason,
)
    requires
        h.warning_due(first, reason),
        reason != other,
    ensures
        h.with_warning_claimed(first, reason).warning_due(second, other),
{
}

} // verus!
