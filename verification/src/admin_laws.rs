//! Laws of the administrative functions and of the statistics.

use crate::admin;
use crate::auth_event::QueueStats;
use crate::auth_journal::{JournalError, JournalStats};
use crate::bypass_cache::BypassStats;
use crate::expiry_cache::ExpiryStats;
use crate::lock_cache::LockCacheCounts;
use crate::stats;
use crate::stats::Stat;
use crate::text;
use crate::worker_health::WorkerHealthStats;
use vstd::prelude::*;

verus! {

/// The queue is recovered only for a superuser, on a primary, and while neither switch is on; files are
/// read for a blacklist only for a superuser; and the schema is reported complete exactly when it is.
pub proof fn administration_is_guarded(
    superuser: bool,
    standby: bool,
    lockout: bool,
    expiry: bool,
    complete: bool,
    recovery: Result<(), &'static str>,
    loading: Result<(), &'static str>,
    schema: Result<&'static str, &'static str>,
)
    requires
        call_ensures(admin::check_queue_recovery, (superuser, standby, lockout, expiry), recovery),
        call_ensures(admin::check_blacklist_permission, (superuser,), loading),
        call_ensures(admin::init_login_attempts_table, (complete,), schema),
    ensures
        recovery is Ok <==> superuser && !standby && !lockout && !expiry,
        loading is Ok <==> superuser,
        schema is Ok <==> complete,
{
}

/// A recovery is reported as one exactly when it did not fail, a reset is told from none, and the
/// words of a failure hold its reason.
pub proof fn recovery_is_reported(
    reset: Result<String, String>,
    none: Result<String, String>,
    failed: Result<String, String>,
    error: JournalError,
)
    requires
        call_ensures(admin::queue_recovery_reply, (Ok(true),), reset),
        call_ensures(admin::queue_recovery_reply, (Ok(false),), none),
        call_ensures(admin::queue_recovery_reply, (Err(error),), failed),
    ensures
        reset is Ok,
        none is Ok,
        failed is Err,
        reset->Ok_0@ != none->Ok_0@,
        exists|from: int|
            {
                &&& 0 <= from
                &&& from + error.words().len() <= failed->Err_0@.len()
                &&& #[trigger] failed->Err_0@.subrange(from, from + error.words().len())
                    == error.words()
            },
{
    reveal_strlit(
        "Auth event queue recovered; keep both enforcement switches off until auth_event_queue_state is 0 and pending journal events have drained",
    );
    reveal_strlit("Auth event queue is not corrupt; no reset was performed");
    assert(reset->Ok_0@.len() != none->Ok_0@.len());
    let words = failed->Err_0@;
    let reason = error.words();
    match error {
        JournalError::Io(_) => {
            let from = 0int;
            assert(words.subrange(from, from + reason.len()) =~= reason);
        },
        JournalError::Corrupt(_) => {
            let from =
                "the durable auth event journal still contains a record that cannot be trusted ("@.len() as int;
            assert(words.subrange(from, from + reason.len()) =~= reason);
        },
    }
}

/// A line lists a password exactly when something other than a comment is left of it without the
/// whitespace around it, and then it lists what is left.
pub proof fn lines_list_what_is_left(line: &str, r: Option<&str>)
    requires
        call_ensures(admin::blacklist_entry, (line,), r),
    ensures
        ({
            let left = text::trimmed(line@);
            &&& r is Some <==> left.len() >= 1 && left[0] != '#'
            &&& r matches Some(password) ==> password@ == left && password@.len() >= 1
        }),
{
}

/// A given file is read as it is named, whatever the environment says; otherwise the usual name is taken
/// in the given data directory.
pub proof fn blacklist_is_where_it_is_said_to_be(
    file: &str,
    dir: Option<&str>,
    data: &str,
    given: String,
    usual: String,
)
    requires
        call_ensures(admin::blacklist_path, (Some(file), dir), given),
        call_ensures(admin::blacklist_path, (None, Some(data)), usual),
    ensures
        given@ == file@,
        data@.is_prefix_of(usual@),
        usual@.skip(data@.len() as int) == "/password_profile_blacklist.txt"@,
{
    assert(data@ =~= usual@.subrange(0, data@.len() as int));
    assert(usual@.skip(data@.len() as int) =~= "/password_profile_blacklist.txt"@);
}

/// A given reason is kept, and the report of a loaded file tells both numbers and the file.
pub proof fn given_reason_is_kept(reason: &str, kept: &str, usual: &str)
    requires
        call_ensures(admin::blacklist_reason, (Some(reason),), kept),
        call_ensures(admin::blacklist_reason, (None,), usual),
    ensures
        kept@ == reason@,
        usual@ == "Admin added"@,
{
}

/// Some row tells this value of this metric.
pub open spec fn told(rows: Seq<Stat>, metric: Seq<char>, value: int) -> bool {
    exists|i: int|
        0 <= i < rows.len() && (#[trigger] rows[i]).metric == metric && rows[i].value == value
}

/// The lock cache's numbers are told, and those derived from them fit: used and free slots make up all
/// of them, and the utilization is the share in whole percent.
pub proof fn lock_numbers_are_told(c: LockCacheCounts)
    requires
        c.used <= 2048,
    ensures
        ({
            let rows = stats::lock_rows(Some(c));
            &&& told(rows, "lock_cache_total_size"@, 2048)
            &&& told(rows, "lock_cache_active_lockouts"@, c.active as int)
            &&& told(rows, "lock_cache_used_slots"@, c.used as int)
            &&& told(rows, "lock_cache_free_slots"@, 2048 - c.used)
            &&& told(
                rows,
                "lock_cache_hydration_active_total"@,
                c.hydration_active_total as int,
            )
            &&& told(rows, "lock_cache_hydration_loaded"@, c.hydration_loaded as int)
            &&& told(rows, "lock_cache_hydration_overflow"@, c.hydration_overflow as int)
            &&& told(rows, "lock_cache_state"@, c.state as int)
            &&& exists|percent: int|
                {
                    &&& #[trigger] told(rows, "lock_cache_utilization_pct"@, percent)
                    &&& percent * 2048 <= c.used * 100 < (percent + 1) * 2048
                }
            &&& rows.len() == 9
            &&& told(stats::lock_rows(None), "lock_cache_state"@, 0)
        }),
{
    let rows = stats::lock_rows(Some(c));
    assert(rows[0].metric == "lock_cache_total_size"@);
    assert(rows[1].metric == "lock_cache_active_lockouts"@);
    assert(rows[2].metric == "lock_cache_used_slots"@);
    assert(rows[3].metric == "lock_cache_free_slots"@);
    assert(rows[5].metric == "lock_cache_hydration_active_total"@);
    assert(rows[6].metric == "lock_cache_hydration_loaded"@);
    assert(rows[7].metric == "lock_cache_hydration_overflow"@);
    assert(rows[8].metric == "lock_cache_state"@);
    let percent = rows[4].value;
    assert(told(rows, "lock_cache_utilization_pct"@, percent));
    assert(stats::lock_rows(None)[1].metric == "lock_cache_state"@);
}

/// The worker's numbers are told; without shared memory it is told not to run.
pub proof fn worker_numbers_are_told(w: WorkerHealthStats)
    ensures
        ({
            let rows = stats::worker_rows(Some(w));
            &&& told(rows, "worker_running"@, w.running as int)
            &&& told(rows, "worker_stop_reason"@, w.stop_reason as int)
            &&& told(rows, "worker_starts_total"@, w.starts as int)
            &&& told(rows, "worker_stops_total"@, w.stops as int)
            &&& told(rows, "auth_event_durable_recording_degraded"@, w.durable_degraded as int)
            &&& rows.len() == 5
            &&& told(stats::worker_rows(None), "worker_running"@, 0)
        }),
{
    let rows = stats::worker_rows(Some(w));
    assert(rows[0].metric == "worker_running"@);
    assert(rows[1].metric == "worker_stop_reason"@);
    assert(rows[2].metric == "worker_starts_total"@);
    assert(rows[3].metric == "worker_stops_total"@);
    assert(rows[4].metric == "auth_event_durable_recording_degraded"@);
    assert(stats::worker_rows(None)[0].metric == "worker_running"@);
}

/// The expiry cache's numbers are told; without shared memory it is told not to be ready.
pub proof fn expiry_numbers_are_told(x: ExpiryStats)
    ensures
        ({
            let rows = stats::expiry_rows(Some(x));
            &&& told(rows, "expiry_cache_state"@, x.state as int)
            &&& told(rows, "expiry_cache_capacity"@, x.capacity as int)
            &&& told(rows, "expiry_cache_used_entries"@, x.used as int)
            &&& told(rows, "expiry_cache_free_entries"@, x.free as int)
            &&& told(rows, "expiry_cache_hydration_rows"@, x.hydration_rows as int)
            &&& told(rows, "expiry_cache_hydration_overflow"@, x.hydration_overflow as int)
            &&& rows.len() == 6
            &&& told(stats::expiry_rows(None), "expiry_cache_state"@, 0)
        }),
{
    let rows = stats::expiry_rows(Some(x));
    assert(rows[0].metric == "expiry_cache_state"@);
    assert(rows[1].metric == "expiry_cache_capacity"@);
    assert(rows[2].metric == "expiry_cache_used_entries"@);
    assert(rows[3].metric == "expiry_cache_free_entries"@);
    assert(rows[4].metric == "expiry_cache_hydration_rows"@);
    assert(rows[5].metric == "expiry_cache_hydration_overflow"@);
    assert(stats::expiry_rows(None)[0].metric == "expiry_cache_state"@);
}

/// The queue's and the journal's numbers are told; without shared memory the queue is told to be corrupt.
pub proof fn queue_numbers_are_told(q: QueueStats, j: JournalStats)
    ensures
        ({
            let rows = stats::queue_rows(Some((q, j)));
            &&& told(rows, "auth_event_queue_capacity"@, q.usable_capacity as int)
            &&& told(rows, "auth_event_queue_depth"@, q.depth as int)
            &&& told(rows, "auth_event_queue_has_pending"@, q.has_pending as int)
            &&& told(rows, "auth_event_queue_accepted_total"@, q.accepted as int)
            &&& told(rows, "auth_event_queue_acknowledged_total"@, q.acknowledged as int)
            &&& told(rows, "auth_event_queue_rejected_total"@, q.rejected as int)
            &&& told(rows, "auth_event_journaled_total"@, q.journaled as int)
            &&& told(rows, "auth_event_durable_only_total"@, q.durable_only as int)
            &&& told(rows, "auth_event_journal_failures_total"@, q.journal_failures as int)
            &&& told(rows, "auth_event_journal_pending_records"@, j.pending_records as int)
            &&& told(rows, "auth_event_journal_pending_bytes"@, j.pending_bytes as int)
            &&& told(rows, "auth_event_queue_next_seq"@, q.next_seq as int)
            &&& told(rows, "auth_event_queue_state"@, q.state as int)
            &&& rows.len() == 13
            &&& told(stats::queue_rows(None), "auth_event_queue_state"@, 2)
        }),
{
    let rows = stats::queue_rows(Some((q, j)));
    assert(rows[0].metric == "auth_event_queue_capacity"@);
    assert(rows[1].metric == "auth_event_queue_depth"@);
    assert(rows[2].metric == "auth_event_queue_has_pending"@);
    assert(rows[3].metric == "auth_event_queue_accepted_total"@);
    assert(rows[4].metric == "auth_event_queue_acknowledged_total"@);
    assert(rows[5].metric == "auth_event_queue_rejected_total"@);
    assert(rows[6].metric == "auth_event_journaled_total"@);
    assert(rows[7].metric == "auth_event_durable_only_total"@);
    assert(rows[8].metric == "auth_event_journal_failures_total"@);
    assert(rows[9].metric == "auth_event_journal_pending_records"@);
    assert(rows[10].metric == "auth_event_journal_pending_bytes"@);
    assert(rows[11].metric == "auth_event_queue_next_seq"@);
    assert(rows[12].metric == "auth_event_queue_state"@);
    assert(stats::queue_rows(None)[0].metric == "auth_event_queue_state"@);
}

/// The bypass cache's numbers are told; without shared memory it is told not to be ready.
pub proof fn bypass_numbers_are_told(b: BypassStats)
    ensures
        ({
            let rows = stats::bypass_rows(Some(b));
            &&& told(rows, "bypass_cache_state"@, b.state as int)
            &&& told(rows, "bypass_cache_capacity"@, b.capacity as int)
            &&& told(rows, "bypass_cache_used_entries"@, b.used as int)
            &&& told(rows, "bypass_cache_refresh_rows"@, b.rows as int)
            &&& told(rows, "bypass_cache_refresh_overflow"@, b.overflow as int)
            &&& rows.len() == 5
            &&& told(stats::bypass_rows(None), "bypass_cache_state"@, 0)
        }),
{
    let rows = stats::bypass_rows(Some(b));
    assert(rows[0].metric == "bypass_cache_state"@);
    assert(rows[1].metric == "bypass_cache_capacity"@);
    assert(rows[2].metric == "bypass_cache_used_entries"@);
    assert(rows[3].metric == "bypass_cache_refresh_rows"@);
    assert(rows[4].metric == "bypass_cache_refresh_overflow"@);
    assert(stats::bypass_rows(None)[0].metric == "bypass_cache_state"@);
}

proof fn sum_tells_both(x: Seq<Stat>, y: Seq<Stat>, metric: Seq<char>, value: int)
    ensures
        told(x + y, metric, value) <==> told(x, metric, value) || told(y, metric, value),
{
    let all = x + y;
    if told(all, metric, value) {
        let i = choose|i: int|
            0 <= i < all.len() && (#[trigger] all[i]).metric == metric && all[i].value == value;
        if i < x.len() {
            assert(x[i] == all[i]);
        } else {
            assert(y[i - x.len()] == all[i]);
        }
    }
    if told(x, metric, value) {
        let i = choose|i: int|
            0 <= i < x.len() && (#[trigger] x[i]).metric == metric && x[i].value == value;
        assert(all[i] == x[i]);
    }
    if told(y, metric, value) {
        let i = choose|i: int|
            0 <= i < y.len() && (#[trigger] y[i]).metric == metric && y[i].value == value;
        assert(all[x.len() + i] == y[i]);
    }
}

proof fn sum_of_seven_tells_all(
    a: Seq<Stat>,
    b: Seq<Stat>,
    c: Seq<Stat>,
    d: Seq<Stat>,
    e: Seq<Stat>,
    f: Seq<Stat>,
    g: Seq<Stat>,
    metric: Seq<char>,
    value: int,
)
    ensures
        told(a + b + c + d + e + f + g, metric, value) <==> {
            ||| told(a, metric, value)
            ||| told(b, metric, value)
            ||| told(c, metric, value)
            ||| told(d, metric, value)
            ||| told(e, metric, value)
            ||| told(f, metric, value)
            ||| told(g, metric, value)
        },
        (a + b + c + d + e + f + g).len() == a.len() + b.len() + c.len() + d.len() + e.len()
            + f.len() + g.len(),
{
    sum_tells_both(a, b, metric, value);
    sum_tells_both(a + b, c, metric, value);
    sum_tells_both(a + b + c, d, metric, value);
    sum_tells_both(a + b + c + d, e, metric, value);
    sum_tells_both(a + b + c + d + e, f, metric, value);
    sum_tells_both(a + b + c + d + e + f, g, metric, value);
}

proof fn database_count_is_told(metric: Seq<char>, count: Option<i64>, words: Seq<char>, value: int)
    ensures
        told(stats::database_row(metric, count, words), metric, value) <==> count is Some
            && count->0 == value,
        forall|other: Seq<char>|
            other != metric ==> !told(#[trigger] stats::database_row(metric, count, words), other, value),
        stats::database_row(metric, count, words).len() == if count is Some {
            1int
        } else {
            0
        },
{
    if let Some(n) = count {
        assert(stats::database_row(metric, count, words)[0].metric == metric);
    }
}

/// The statistics tell what their parts tell and nothing else; what the database counted is told exactly
/// when it could be asked.
pub proof fn the_whole_tells_its_parts(
    counts: Option<LockCacheCounts>,
    health: Option<WorkerHealthStats>,
    failing: Option<i64>,
    locked: Option<i64>,
    expiry: Option<ExpiryStats>,
    queue: Option<(QueueStats, JournalStats)>,
    bypass: Option<BypassStats>,
    rows: Vec<(String, i64, String)>,
    metric: Seq<char>,
    value: int,
)
    requires
        call_ensures(
            stats::collect_stats,
            (counts, health, failing, locked, expiry, queue, bypass),
            rows,
        ),
    ensures
        told(stats::listing(rows@), metric, value) <==> {
            ||| told(stats::lock_rows(counts), metric, value)
            ||| told(stats::worker_rows(health), metric, value)
            ||| metric == "db_users_with_failures"@ && failing is Some && failing->0 == value
            ||| metric == "db_active_lockouts"@ && locked is Some && locked->0 == value
            ||| told(stats::expiry_rows(expiry), metric, value)
            ||| told(stats::queue_rows(queue), metric, value)
            ||| told(stats::bypass_rows(bypass), metric, value)
        },
        stats::listing(rows@).len() == stats::lock_rows(counts).len() + stats::worker_rows(
            health,
        ).len() + stats::expiry_rows(expiry).len() + stats::queue_rows(queue).len()
            + stats::bypass_rows(bypass).len() + (if failing is Some {
            1int
        } else {
            0
        }) + (if locked is Some {
            1int
        } else {
            0
        }),
{
    let failing_words = "Users with recorded failed attempts"@;
    let locked_words = "Users currently locked (database state)"@;
    sum_of_seven_tells_all(
        stats::lock_rows(counts),
        stats::worker_rows(health),
        stats::database_row("db_users_with_failures"@, failing, failing_words),
        stats::database_row("db_active_lockouts"@, locked, locked_words),
        stats::expiry_rows(expiry),
        stats::queue_rows(queue),
        stats::bypass_rows(bypass),
        metric,
        value,
    );
    database_count_is_told("db_users_with_failures"@, failing, failing_words, value);
    database_count_is_told("db_active_lockouts"@, locked, locked_words, value);
}

} // verus!
