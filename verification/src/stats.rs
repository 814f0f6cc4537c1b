//! The statistics surface: one row per metric, with its value and what it means.

use crate::auth_event::QueueStats;
use crate::auth_journal::JournalStats;
use crate::bypass_cache::BypassStats;
use crate::expiry_cache::ExpiryStats;
use crate::lock_cache::{LockCacheCounts, LOCK_CACHE_SIZE};
use crate::worker_health::WorkerHealthStats;
use vstd::prelude::*;
use vstd::string::*;

verus! {

/// One row of the statistics.
#[verifier::ext_equal]
pub struct Stat {
    pub metric: Seq<char>,
    pub value: int,
    pub description: Seq<char>,
}

/// The row with these columns.
pub open spec fn stat(metric: Seq<char>, value: int, description: Seq<char>) -> Stat {
    Stat { metric, value, description }
}

/// The row a tuple holds.
pub open spec fn stat_of(row: (String, i64, String)) -> Stat {
    stat(row.0@, row.1 as int, row.2@)
}

/// The rows a list holds.
pub open spec fn listing(rows: Seq<(String, i64, String)>) -> Seq<Stat> {
    rows.map_values(|row: (String, i64, String)| stat_of(row))
}

fn push_stat(rows: &mut Vec<(String, i64, String)>, metric: &str, value: i64, description: &str)
    ensures
        listing(final(rows)@) == listing(old(rows)@).push(
            stat(metric@, value as int, description@),
        ),
{
    rows.push((metric.to_string(), value, description.to_string()));
    assert(listing(rows@) =~= listing(old(rows)@).push(
        stat(metric@, value as int, description@),
    ));
}

/// The rows about the lock cache.
pub open spec fn lock_rows(counts: Option<LockCacheCounts>) -> Seq<Stat> {
    match counts {
        Some(c) => seq![
            stat(
                "lock_cache_total_size"@,
                LOCK_CACHE_SIZE as int,
                "Maximum number of lockout entries"@,
            ),
            stat(
                "lock_cache_active_lockouts"@,
                c.active as int,
                "Currently locked accounts (non-expired)"@,
            ),
            stat(
                "lock_cache_used_slots"@,
                c.used as int,
                "Total used cache slots (including expired)"@,
            ),
            stat(
                "lock_cache_free_slots"@,
                LOCK_CACHE_SIZE - c.used,
                "Available cache slots for new lockouts"@,
            ),
            stat(
                "lock_cache_utilization_pct"@,
                (c.used * 100) / (LOCK_CACHE_SIZE as int),
                "Cache utilization percentage"@,
            ),
            stat(
                "lock_cache_hydration_active_total"@,
                c.hydration_active_total as int,
                "Active DB lockouts seen by the last successful hydration"@,
            ),
            stat(
                "lock_cache_hydration_loaded"@,
                c.hydration_loaded as int,
                "Entries loaded into the cache by the last successful hydration"@,
            ),
            stat(
                "lock_cache_hydration_overflow"@,
                c.hydration_overflow as int,
                "Active DB lockouts that did not fit during the last successful hydration"@,
            ),
            stat(
                "lock_cache_state"@,
                c.state as int,
                "Cache readiness (normalized; an unrecognized stored value reports as 0=NotReady): 0=NotReady (never hydrated / hydration failed), 1=Ready (complete coverage, enforcement active), 2=Overflow (capacity exceeded; lockout enforcement paused), 3=WorkerFailed (worker stopped; lockout enforcement paused)"@,
            ),
        ],
        None => seq![
            stat(
                "lock_cache_status"@,
                0,
                "Lock cache not initialized"@,
            ),
            stat(
                "lock_cache_state"@,
                0,
                "Cache readiness: 0=NotReady (shared memory not initialized)"@,
            ),
        ],
    }
}

fn push_lock_rows(rows: &mut Vec<(String, i64, String)>, counts: Option<LockCacheCounts>)
    ensures
        listing(final(rows)@) == listing(old(rows)@) + lock_rows(counts),
{
    match counts {
        Some(c) => {
            push_stat(
                rows,
                "lock_cache_total_size",
                LOCK_CACHE_SIZE as i64,
                "Maximum number of lockout entries",
            );
            push_stat(
                rows,
                "lock_cache_active_lockouts",
                c.active as i64,
                "Currently locked accounts (non-expired)",
            );
            push_stat(
                rows,
                "lock_cache_used_slots",
                c.used as i64,
                "Total used cache slots (including expired)",
            );
            push_stat(
                rows,
                "lock_cache_free_slots",
                LOCK_CACHE_SIZE as i64 - c.used as i64,
                "Available cache slots for new lockouts",
            );
            push_stat(
                rows,
                "lock_cache_utilization_pct",
                (c.used as i64 * 100) / (LOCK_CACHE_SIZE as i64),
                "Cache utilization percentage",
            );
            push_stat(
                rows,
                "lock_cache_hydration_active_total",
                c.hydration_active_total,
                "Active DB lockouts seen by the last successful hydration",
            );
            push_stat(
                rows,
                "lock_cache_hydration_loaded",
                c.hydration_loaded,
                "Entries loaded into the cache by the last successful hydration",
            );
            push_stat(
                rows,
                "lock_cache_hydration_overflow",
                c.hydration_overflow,
                "Active DB lockouts that did not fit during the last successful hydration",
            );
            push_stat(
                rows,
                "lock_cache_state",
                c.state,
                "Cache readiness (normalized; an unrecognized stored value reports as 0=NotReady): 0=NotReady (never hydrated / hydration failed), 1=Ready (complete coverage, enforcement active), 2=Overflow (capacity exceeded; lockout enforcement paused), 3=WorkerFailed (worker stopped; lockout enforcement paused)",
            );
        },
        None => {
            push_stat(
                rows,
                "lock_cache_status",
                0,
                "Lock cache not initialized",
            );
            push_stat(
                rows,
                "lock_cache_state",
                0,
                "Cache readiness: 0=NotReady (shared memory not initialized)",
            );
        },
    }
    assert(listing(rows@) =~= listing(old(rows)@) + lock_rows(counts));
}

/// The rows about the worker.
pub open spec fn worker_rows(health: Option<WorkerHealthStats>) -> Seq<Stat> {
    match health {
        Some(w) => seq![
            stat(
                "worker_running"@,
                w.running as int,
                "1 when the auth event consumer is initialized, attached to the control database and running; 0 when it is not, in which case no authentication event is being applied and lockout/expiry enforcement is paused. PostgreSQL native authentication is unaffected."@,
            ),
            stat(
                "worker_stop_reason"@,
                w.stop_reason as int,
                "Why the auth event consumer last stopped: 0=never stopped (never started, or still running), 1=a shutdown was requested (SIGTERM; also the normal path during a PostgreSQL shutdown), 2=an unhandled failure was contained at the worker's error boundary. A stopped worker is deregistered by PostgreSQL and returns only on the next server start."@,
            ),
            stat(
                "worker_starts_total"@,
                w.starts as int,
                "Times the worker reached a running state since shared memory was created"@,
            ),
            stat(
                "worker_stops_total"@,
                w.stops as int,
                "Times the worker stopped since shared memory was created"@,
            ),
            stat(
                "auth_event_durable_recording_degraded"@,
                w.durable_degraded as int,
                "1 when a durable auth-journal append (or the worker's journal reader) last failed and the caches have not been rehydrated since; lockout and expiry enforcement are paused while this is 1. It clears only after the failures stop and the worker completes a fresh hydration -- never merely because storage looks writable again."@,
            ),
        ],
        None => seq![
            stat(
                "worker_running"@,
                0,
                "Worker health shared memory is not initialized; enforcement is paused"@,
            ),
        ],
    }
}

fn push_worker_rows(rows: &mut Vec<(String, i64, String)>, health: Option<WorkerHealthStats>)
    ensures
        listing(final(rows)@) == listing(old(rows)@) + worker_rows(health),
{
    match health {
        Some(w) => {
            push_stat(
                rows,
                "worker_running",
                w.running,
                "1 when the auth event consumer is initialized, attached to the control database and running; 0 when it is not, in which case no authentication event is being applied and lockout/expiry enforcement is paused. PostgreSQL native authentication is unaffected.",
            );
            push_stat(
                rows,
                "worker_stop_reason",
                w.stop_reason,
                "Why the auth event consumer last stopped: 0=never stopped (never started, or still running), 1=a shutdown was requested (SIGTERM; also the normal path during a PostgreSQL shutdown), 2=an unhandled failure was contained at the worker's error boundary. A stopped worker is deregistered by PostgreSQL and returns only on the next server start.",
            );
            push_stat(
                rows,
                "worker_starts_total",
                w.starts,
                "Times the worker reached a running state since shared memory was created",
            );
            push_stat(
                rows,
                "worker_stops_total",
                w.stops,
                "Times the worker stopped since shared memory was created",
            );
            push_stat(
                rows,
                "auth_event_durable_recording_degraded",
                w.durable_degraded,
                "1 when a durable auth-journal append (or the worker's journal reader) last failed and the caches have not been rehydrated since; lockout and expiry enforcement are paused while this is 1. It clears only after the failures stop and the worker completes a fresh hydration -- never merely because storage looks writable again.",
            );
        },
        None => {
            push_stat(
                rows,
                "worker_running",
                0,
                "Worker health shared memory is not initialized; enforcement is paused",
            );
        },
    }
    assert(listing(rows@) =~= listing(old(rows)@) + worker_rows(health));
}

/// The rows about the expiry cache.
pub open spec fn expiry_rows(expiry: Option<ExpiryStats>) -> Seq<Stat> {
    match expiry {
        Some(x) => seq![
            stat(
                "expiry_cache_state"@,
                x.state as int,
                "Expiry cache readiness (normalized; an unrecognized stored value reports as 0=NotReady): 0=NotReady (never hydrated / hydration failed), 1=Ready (complete coverage), 2=Overflow (capacity exceeded; login-time expiry paused), 3=WorkerFailed (worker stopped; login-time expiry paused). Expiry is active only when expiry_enforcement = on AND password_expiry_days > 0"@,
            ),
            stat(
                "expiry_cache_capacity"@,
                x.capacity as int,
                "Maximum number of cached password-expiry entries"@,
            ),
            stat(
                "expiry_cache_used_entries"@,
                x.used as int,
                "Expiry entries currently held in the cache"@,
            ),
            stat(
                "expiry_cache_free_entries"@,
                x.free as int,
                "Remaining expiry cache slots"@,
            ),
            stat(
                "expiry_cache_hydration_rows"@,
                x.hydration_rows as int,
                "Expiry rows seen in the database by the last successful hydration"@,
            ),
            stat(
                "expiry_cache_hydration_overflow"@,
                x.hydration_overflow as int,
                "Expiry rows that did not fit during the last hydration (coverage incomplete)"@,
            ),
        ],
        None => seq![
            stat(
                "expiry_cache_state"@,
                0,
                "Expiry cache readiness: 0=NotReady (shared memory not initialized)"@,
            ),
        ],
    }
}

fn push_expiry_rows(rows: &mut Vec<(String, i64, String)>, expiry: Option<ExpiryStats>)
    ensures
        listing(final(rows)@) == listing(old(rows)@) + expiry_rows(expiry),
{
    match expiry {
        Some(x) => {
            push_stat(
                rows,
                "expiry_cache_state",
                x.state,
                "Expiry cache readiness (normalized; an unrecognized stored value reports as 0=NotReady): 0=NotReady (never hydrated / hydration failed), 1=Ready (complete coverage), 2=Overflow (capacity exceeded; login-time expiry paused), 3=WorkerFailed (worker stopped; login-time expiry paused). Expiry is active only when expiry_enforcement = on AND password_expiry_days > 0",
            );
            push_stat(
                rows,
                "expiry_cache_capacity",
                x.capacity,
                "Maximum number of cached password-expiry entries",
            );
            push_stat(
                rows,
                "expiry_cache_used_entries",
                x.used,
                "Expiry entries currently held in the cache",
            );
            push_stat(
                rows,
                "expiry_cache_free_entries",
                x.free,
                "Remaining expiry cache slots",
            );
            push_stat(
                rows,
                "expiry_cache_hydration_rows",
                x.hydration_rows,
                "Expiry rows seen in the database by the last successful hydration",
            );
            push_stat(
                rows,
                "expiry_cache_hydration_overflow",
                x.hydration_overflow,
                "Expiry rows that did not fit during the last hydration (coverage incomplete)",
            );
        },
        None => {
            push_stat(
                rows,
                "expiry_cache_state",
                0,
                "Expiry cache readiness: 0=NotReady (shared memory not initialized)",
            );
        },
    }
    assert(listing(rows@) =~= listing(old(rows)@) + expiry_rows(expiry));
}

/// The rows about the event queue and its journal.
pub open spec fn queue_rows(queue: Option<(QueueStats, JournalStats)>) -> Seq<Stat> {
    match queue {
        Some((q, journal)) => seq![
            stat(
                "auth_event_queue_capacity"@,
                q.usable_capacity as int,
                "Auth events the ring can hold (one slot reserved to separate full from empty)"@,
            ),
            stat(
                "auth_event_queue_depth"@,
                q.depth as int,
                "Auth events currently queued and not yet acknowledged"@,
            ),
            stat(
                "auth_event_queue_has_pending"@,
                q.has_pending as int,
                "1 when the ring holds at least one unacknowledged event, else 0. This is queue occupancy, not worker claim state: whether the worker has actually claimed the tail entry is not tracked in shared memory."@,
            ),
            stat(
                "auth_event_queue_accepted_total"@,
                q.accepted as int,
                "Auth events accepted into the ring since shared memory was created"@,
            ),
            stat(
                "auth_event_queue_acknowledged_total"@,
                q.acknowledged as int,
                "Auth events acknowledged after their database transaction committed"@,
            ),
            stat(
                "auth_event_queue_rejected_total"@,
                q.rejected as int,
                "Auth event attempts not accepted by the RAM ring; compare durable-only and journal-failure counters"@,
            ),
            stat(
                "auth_event_journaled_total"@,
                q.journaled as int,
                "Auth events durably fsynced before the authentication hook returned"@,
            ),
            stat(
                "auth_event_durable_only_total"@,
                q.durable_only as int,
                "Durable auth events processed without a RAM-ring slot"@,
            ),
            stat(
                "auth_event_journal_failures_total"@,
                q.journal_failures as int,
                "Auth events rejected because their durable journal append failed"@,
            ),
            stat(
                "auth_event_journal_pending_records"@,
                journal.pending_records as int,
                "Complete auth-event records currently awaiting durable journal cleanup"@,
            ),
            stat(
                "auth_event_journal_pending_bytes"@,
                journal.pending_bytes as int,
                "Bytes currently held by active and processing auth-event journal files"@,
            ),
            stat(
                "auth_event_queue_next_seq"@,
                q.next_seq as int,
                "Next auth event sequence number to be assigned"@,
            ),
            stat(
                "auth_event_queue_state"@,
                q.state as int,
                "Queue health (normalized; an unrecognized stored value reports as 2=Corrupt): 0=Healthy (accepting events normally), 1=Overflowed (RAM capacity was exceeded; durable events keep draining and the state returns to Healthy when the ring becomes empty), 2=Corrupt (claim/acknowledge validation or a ring invariant failed)"@,
            ),
        ],
        None => seq![
            stat(
                "auth_event_queue_state"@,
                2,
                "Queue health: 2=Corrupt (auth event ring not initialized)"@,
            ),
        ],
    }
}

fn push_queue_rows(rows: &mut Vec<(String, i64, String)>, queue: Option<(QueueStats, JournalStats)>)
    ensures
        listing(final(rows)@) == listing(old(rows)@) + queue_rows(queue),
{
    match queue {
        Some((q, journal)) => {
            push_stat(
                rows,
                "auth_event_queue_capacity",
                q.usable_capacity,
                "Auth events the ring can hold (one slot reserved to separate full from empty)",
            );
            push_stat(
                rows,
                "auth_event_queue_depth",
                q.depth,
                "Auth events currently queued and not yet acknowledged",
            );
            push_stat(
                rows,
                "auth_event_queue_has_pending",
                q.has_pending,
                "1 when the ring holds at least one unacknowledged event, else 0. This is queue occupancy, not worker claim state: whether the worker has actually claimed the tail entry is not tracked in shared memory.",
            );
            push_stat(
                rows,
                "auth_event_queue_accepted_total",
                q.accepted,
                "Auth events accepted into the ring since shared memory was created",
            );
            push_stat(
                rows,
                "auth_event_queue_acknowledged_total",
                q.acknowledged,
                "Auth events acknowledged after their database transaction committed",
            );
            push_stat(
                rows,
                "auth_event_queue_rejected_total",
                q.rejected,
                "Auth event attempts not accepted by the RAM ring; compare durable-only and journal-failure counters",
            );
            push_stat(
                rows,
                "auth_event_journaled_total",
                q.journaled,
                "Auth events durably fsynced before the authentication hook returned",
            );
            push_stat(
                rows,
                "auth_event_durable_only_total",
                q.durable_only,
                "Durable auth events processed without a RAM-ring slot",
            );
            push_stat(
                rows,
                "auth_event_journal_failures_total",
                q.journal_failures,
                "Auth events rejected because their durable journal append failed",
            );
            push_stat(
                rows,
                "auth_event_journal_pending_records",
                journal.pending_records,
                "Complete auth-event records currently awaiting durable journal cleanup",
            );
            push_stat(
                rows,
                "auth_event_journal_pending_bytes",
                journal.pending_bytes,
                "Bytes currently held by active and processing auth-event journal files",
            );
            push_stat(
                rows,
                "auth_event_queue_next_seq",
                q.next_seq,
                "Next auth event sequence number to be assigned",
            );
            push_stat(
                rows,
                "auth_event_queue_state",
                q.state,
                "Queue health (normalized; an unrecognized stored value reports as 2=Corrupt): 0=Healthy (accepting events normally), 1=Overflowed (RAM capacity was exceeded; durable events keep draining and the state returns to Healthy when the ring becomes empty), 2=Corrupt (claim/acknowledge validation or a ring invariant failed)",
            );
        },
        None => {
            push_stat(
                rows,
                "auth_event_queue_state",
                2,
                "Queue health: 2=Corrupt (auth event ring not initialized)",
            );
        },
    }
    assert(listing(rows@) =~= listing(old(rows)@) + queue_rows(queue));
}

/// The rows about the bypass cache.
pub open spec fn bypass_rows(bypass: Option<BypassStats>) -> Seq<Stat> {
    match bypass {
        Some(b) => seq![
            stat(
                "bypass_cache_state"@,
                b.state as int,
                "Bypass cache readiness (normalized; an unrecognized stored value reports as 0=NotReady): 0=NotReady (never refreshed, or refresh failed), 1=Ready (the exemption set is complete), 2=Overflow (capacity exceeded; exemptions temporarily unavailable), 3=WorkerFailed (worker stopped). Only Ready can grant an exemption; every other state applies normal policy."@,
            ),
            stat(
                "bypass_cache_capacity"@,
                b.capacity as int,
                "Maximum number of exempt roles the cache can hold"@,
            ),
            stat(
                "bypass_cache_used_entries"@,
                b.used as int,
                "Exempt roles currently held in the cache"@,
            ),
            stat(
                "bypass_cache_refresh_rows"@,
                b.rows as int,
                "Exempt roles seen in pg_db_role_setting by the last successful refresh"@,
            ),
            stat(
                "bypass_cache_refresh_overflow"@,
                b.overflow as int,
                "Exempt roles the last refresh could not fit (non-zero means Overflow)"@,
            ),
        ],
        None => seq![
            stat(
                "bypass_cache_state"@,
                0,
                "Bypass cache readiness: 0=NotReady (shared memory not initialized)"@,
            ),
        ],
    }
}

fn push_bypass_rows(rows: &mut Vec<(String, i64, String)>, bypass: Option<BypassStats>)
    ensures
        listing(final(rows)@) == listing(old(rows)@) + bypass_rows(bypass),
{
    match bypass {
        Some(b) => {
            push_stat(
                rows,
                "bypass_cache_state",
                b.state,
                "Bypass cache readiness (normalized; an unrecognized stored value reports as 0=NotReady): 0=NotReady (never refreshed, or refresh failed), 1=Ready (the exemption set is complete), 2=Overflow (capacity exceeded; exemptions temporarily unavailable), 3=WorkerFailed (worker stopped). Only Ready can grant an exemption; every other state applies normal policy.",
            );
            push_stat(
                rows,
                "bypass_cache_capacity",
                b.capacity,
                "Maximum number of exempt roles the cache can hold",
            );
            push_stat(
                rows,
                "bypass_cache_used_entries",
                b.used,
                "Exempt roles currently held in the cache",
            );
            push_stat(
                rows,
                "bypass_cache_refresh_rows",
                b.rows,
                "Exempt roles seen in pg_db_role_setting by the last successful refresh",
            );
            push_stat(
                rows,
                "bypass_cache_refresh_overflow",
                b.overflow,
                "Exempt roles the last refresh could not fit (non-zero means Overflow)",
            );
        },
        None => {
            push_stat(
                rows,
                "bypass_cache_state",
                0,
                "Bypass cache readiness: 0=NotReady (shared memory not initialized)",
            );
        },
    }
    assert(listing(rows@) =~= listing(old(rows)@) + bypass_rows(bypass));
}

/// The row with this name, value and description, when the database gave the value.
pub open spec fn database_row(metric: Seq<char>, value: Option<i64>, description: Seq<char>) -> Seq<
    Stat,
> {
    match value {
        Some(n) => seq![stat(metric, n as int, description)],
        None => Seq::empty(),
    }
}

fn push_database_row(
    rows: &mut Vec<(String, i64, String)>,
    metric: &str,
    value: Option<i64>,
    description: &str,
)
    ensures
        listing(final(rows)@) == listing(old(rows)@) + database_row(metric@, value, description@),
{
    match value {
        Some(n) => {
            push_stat(rows, metric, n, description);
        },
        None => {},
    }
    assert(listing(rows@) =~= listing(old(rows)@) + database_row(metric@, value, description@));
}

/// Collects the statistics: the lock cache, the worker, what the database counts where it could be
/// asked, the expiry cache, the event queue with its journal, and the bypass cache. What has no
/// shared memory yet is reported as not initialized.
pub fn collect_stats(
    counts: Option<LockCacheCounts>,
    health: Option<WorkerHealthStats>,
    users_with_failures: Option<i64>,
    active_lockouts: Option<i64>,
    expiry: Option<ExpiryStats>,
    queue: Option<(QueueStats, JournalStats)>,
    bypass: Option<BypassStats>,
) -> (rows: Vec<(String, i64, String)>)
    ensures
        listing(rows@) == lock_rows(counts) + worker_rows(health) + database_row(
            "db_users_with_failures"@,
            users_with_failures,
            "Users with recorded failed attempts"@,
        ) + database_row(
            "db_active_lockouts"@,
            active_lockouts,
            "Users currently locked (database state)"@,
        ) + expiry_rows(expiry) + queue_rows(queue) + bypass_rows(bypass),
{
    let mut rows: Vec<(String, i64, String)> = Vec::new();
    assert(listing(rows@) =~= Seq::<Stat>::empty());
    push_lock_rows(&mut rows, counts);
    assert(listing(rows@) =~= lock_rows(counts));
    push_worker_rows(&mut rows, health);
    push_database_row(
        &mut rows,
        "db_users_with_failures",
        users_with_failures,
        "Users with recorded failed attempts",
    );
    push_database_row(
        &mut rows,
        "db_active_lockouts",
        active_lockouts,
        "Users currently locked (database state)",
    );
    push_expiry_rows(&mut rows, expiry);
    push_queue_rows(&mut rows, queue);
    push_bypass_rows(&mut rows, bypass);
    rows
}

} // verus!
