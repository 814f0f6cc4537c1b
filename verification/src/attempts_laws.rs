//! Laws of failed attempts: how failures are counted, when and until when an account is locked, who
//! may clear it, and what the caches learn of it.

use crate::arith;
use crate::attempts;
use crate::attempts::{AttemptRow, ClearOutcome, FailedLogin, FailureFacts};
use crate::lock_cache;
use crate::lock_cache::CacheDecision;
use crate::pending_cache_op::{ExpiryDecision, PendingEntry};
use crate::search;
use crate::username;
use vstd::prelude::*;

verus! {

/// `t` is `now` and so many minutes, as far as the range of times allows.
pub open spec fn minutes_later(now: i64, minutes: i32, t: i64) -> bool {
    let exact = now + minutes * 60_000_000;
    ||| t == exact
    ||| exact > i64::MAX && t == i64::MAX
    ||| exact < i64::MIN && t == i64::MIN
}

/// A failure counts one more than the failures so far, none of which count without a row or once a
/// lockout is over; and the account is locked exactly when that number reaches the limit or is past
/// it, for the configured minutes from this failure on, whether it was locked before or not.
pub proof fn failure_counts_and_locks(
    row: Option<AttemptRow>,
    now: i64,
    max_fails: i32,
    minutes: i32,
    so_far: int,
)
    requires
        row is None ==> so_far == 0,
        row matches Some(r) ==> (if r.lockout_until is Some && r.lockout_until->0 <= now {
            so_far == 0
        } else {
            so_far == r.fail_count
        }),
        so_far < i32::MAX,
    ensures
        ({
            let after = attempts::after_failure(row, now, max_fails, minutes);
            &&& after.fail_count == so_far + 1
            &&& after.last_fail == now
            &&& after.lockout_until is Some <==> so_far + 1 >= max_fails
            &&& after.lockout_until matches Some(t) ==> minutes_later(now, minutes, t)
        }),
{
}

/// With the same settings and a clock that does not go back, a further failure never lets a lockout
/// end earlier than it would have.
pub proof fn lockout_is_never_shortened(
    row: Option<AttemptRow>,
    first: i64,
    second: i64,
    max_fails: i32,
    minutes: i32,
)
    requires
        first <= second,
        attempts::counted_failures(row, first) + 2 < i32::MAX,
        ({
            let locked = attempts::after_failure(row, first, max_fails, minutes);
            locked.lockout_until matches Some(t) && t > second
        }),
    ensures
        ({
            let locked = attempts::after_failure(row, first, max_fails, minutes);
            let again = attempts::after_failure(Some(locked), second, max_fails, minutes);
            &&& again.lockout_until matches Some(t) && t >= locked.lockout_until->0
            &&& again.fail_count == locked.fail_count + 1
        }),
{
}

/// A later failure locks for as much longer as it comes later: where neither is cut off by the range
/// of times, two failures of one row lock until times as far apart as they are.
pub proof fn lockout_follows_the_failure(
    row: Option<AttemptRow>,
    one: i64,
    other: i64,
    max_fails: i32,
    minutes: i32,
)
    requires
        attempts::counted_failures(row, one) == attempts::counted_failures(row, other),
        attempts::counted_failures(row, one) < i32::MAX,
        i64::MIN <= one + minutes * 60_000_000 <= i64::MAX,
        i64::MIN <= other + minutes * 60_000_000 <= i64::MAX,
    ensures
        ({
            let a = attempts::after_failure(row, one, max_fails, minutes).lockout_until;
            let b = attempts::after_failure(row, other, max_fails, minutes).lockout_until;
            &&& a is Some <==> b is Some
            &&& a is Some ==> b->0 - a->0 == other - one
        }),
{
}

/// Any number of failures that each come before the last lockout is over: all of them count, and from
/// the limit on the account is locked for the full time from the latest.
pub proof fn failures_accumulate(times: Seq<i64>, max_fails: i32, minutes: i32)
    requires
        0 < times.len() < i32::MAX,
        0 < max_fails,
        0 < minutes,
        forall|i: int, j: int|
            0 <= i < j < times.len() && j == i + 1 ==> (#[trigger] times[i]) <= (#[trigger] times[j])
                < times[i] + minutes * 60_000_000,
        forall|i: int| 0 <= i < times.len() ==> (#[trigger] times[i]) + minutes * 60_000_000 < i64::MAX,
    ensures
        ({
            let row = attempts::after_failures(None, times, max_fails, minutes);
            &&& row is Some
            &&& row->0.fail_count == times.len()
            &&& row->0.last_fail == times.last()
            &&& row->0.lockout_until is Some <==> times.len() >= max_fails
            &&& row->0.lockout_until matches Some(t) ==> t == times.last() + minutes * 60_000_000
        }),
    decreases times.len(),
{
    reveal_with_fuel(attempts::after_failures, 2);
    if times.len() > 1 {
        let before = times.drop_last();
        assert forall|i: int, j: int| 0 <= i < j < before.len() && j == i + 1 implies (
        #[trigger] before[i]) <= (#[trigger] before[j]) < before[i] + minutes * 60_000_000 by {
            assert(times[i] <= times[j] < times[i] + minutes * 60_000_000);
        }
        assert forall|i: int| 0 <= i < before.len() implies (#[trigger] before[i]) + minutes
            * 60_000_000 < i64::MAX by {
            assert(times[i] + minutes * 60_000_000 < i64::MAX);
        }
        failures_accumulate(before, max_fails, minutes);
        let n = times.len() as int;
        assert(before.last() == times[n - 2]);
        assert(times[n - 2] <= times[n - 1] < times[n - 2] + minutes * 60_000_000);
        assert(times[n - 1] + minutes * 60_000_000 < i64::MAX);
    } else {
        assert(times.drop_last() =~= Seq::<i64>::empty());
        assert(times[0] + minutes * 60_000_000 < i64::MAX);
    }
}

/// Everybody's failures count but those of superusers and exempt roles, and nobody's without a
/// database; what is recorded is the row after one more failure.
pub proof fn who_is_counted(facts: FailureFacts)
    ensures
        ({
            let outcome = attempts::failure_outcome(facts);
            let counts = facts.has_database && !facts.is_superuser && !facts.bypassed;
            &&& !facts.has_database ==> outcome == Some(FailedLogin::NoDatabase)
            &&& facts.has_database && facts.is_superuser ==> outcome == Some(
                FailedLogin::Superuser,
            )
            &&& facts.has_database && !facts.is_superuser && facts.bypassed ==> outcome == Some(
                FailedLogin::Bypassed,
            )
            &&& counts ==> outcome is None || outcome->0 is Recorded
            &&& outcome matches Some(FailedLogin::Recorded(row)) ==> counts && row
                == attempts::after_failure(
                facts.row,
                facts.now,
                facts.max_fails,
                facts.lockout_minutes,
            )
            &&& outcome is None ==> counts && (facts.row matches Some(r) && r.fail_count
                == i32::MAX)
        }),
{
}

/// What is staged for a row is about its role, in the level that recorded it, leaves the expiry cache
/// alone, and locks until exactly the row's time while that lies ahead, else unlocks.
pub proof fn staged_row_is_the_row(name: Seq<char>, row: AttemptRow, clock: i64, subid: u32)
    ensures
        ({
            let op = attempts::row_operation(name, row, clock, subid);
            &&& op.username == username::encoded_name(name)
            &&& op.subid == subid
            &&& op.expiry == ExpiryDecision::Unchanged
            &&& row.lockout_until is Some && row.lockout_until->0 > clock ==> op.decision == Some(
                CacheDecision::SetLock(row.lockout_until->0),
            )
            &&& row.lockout_until is None || row.lockout_until->0 <= clock ==> op.decision == Some(
                CacheDecision::ClearLock,
            )
        }),
{
}

/// A row locks its role exactly while its time lies ahead; the database refuses a login by it only
/// where there is one and the failures reached the limit, and then for the whole seconds that are
/// left, never less.
pub proof fn row_locks_until_its_time(
    has_database: bool,
    row: AttemptRow,
    max_fails: i32,
    now: i64,
    clock: i64,
)
    ensures
        attempts::user_locked(Some(row), now) <==> row.lockout_until is Some
            && row.lockout_until->0 > now,
        !attempts::user_locked(None, now),
        attempts::lockout_in_database(has_database, None, max_fails, now, clock) is None,
        ({
            let left = attempts::lockout_in_database(
                has_database,
                Some(row),
                max_fails,
                now,
                clock,
            );
            &&& left is Some <==> {
                &&& has_database
                &&& row.fail_count >= max_fails
                &&& row.lockout_until is Some
                &&& row.lockout_until->0 > now
                &&& row.lockout_until->0 > clock
            }
            &&& left matches Some(seconds) ==> {
                &&& (seconds - 1) * 1_000_000 < row.lockout_until->0 - clock
                &&& row.lockout_until->0 - clock <= seconds * 1_000_000
            }
        }),
{
    seconds_are_rounded_up(
        if row.lockout_until is Some {
            row.lockout_until->0
        } else {
            0
        },
        clock,
    );
}

/// Whole seconds are rounded up, so that a lockout that still holds never counts as over.
pub proof fn seconds_are_rounded_up(expires_at: i64, now: i64)
    ensures
        lock_cache::seconds_left(expires_at, now) is Some <==> expires_at > now,
        lock_cache::seconds_left(expires_at, now) matches Some(seconds) ==> {
            &&& seconds >= 1
            &&& (seconds - 1) * 1_000_000 < expires_at - now
            &&& expires_at - now <= seconds * 1_000_000
        },
{
    if expires_at > now {
        let delta = expires_at - now;
        let seconds = (delta + 1_000_000 - 1) / 1_000_000;
        assert(0 < seconds <= i64::MAX);
    }
}

/// Access is refused exactly where a lockout with time left is reported, by the cache first.
pub proof fn access_follows_the_lockout(
    has_database: bool,
    cached: Option<i64>,
    in_database: Option<i32>,
)
    ensures
        ({
            let refused = attempts::access_refused_for(has_database, cached, in_database);
            let by_cache = cached is Some && cached->0 >= 1;
            let by_database = in_database is Some && in_database->0 >= 1;
            &&& refused is Some <==> has_database && (by_cache || by_database)
            &&& has_database && by_cache ==> refused == Some(cached->0 as int)
            &&& has_database && !by_cache && by_database ==> refused == Some(
                in_database->0 as int,
            )
        }),
{
}

/// Superusers may clear anybody's attempts, and everybody their own; nobody else, and nobody who is
/// not known.
pub proof fn clearing_is_permitted_to(
    user: Seq<char>,
    username: Seq<char>,
    is_superuser: bool,
)
    ensures
        attempts::may_clear(Some(user), true, username),
        attempts::may_clear(Some(user), is_superuser, user),
        user != username ==> !attempts::may_clear(Some(user), false, username),
        !attempts::may_clear(None, is_superuser, username),
{
}

/// A forced clear deletes every row; an automatic one exactly those whose lockout is over or that
/// never had one.
pub proof fn clear_spares_only_live_lockouts(lockout_until: Option<i64>, now: i64)
    ensures
        attempts::clears_row(true, lockout_until, now),
        attempts::clears_row(false, lockout_until, now) <==> lockout_until is None
            || lockout_until->0 <= now,
{
}

/// A clear tells the lock cache the truth about a role's one row: a forced one unlocks whatever the
/// row says, an automatic one unlocks unless the lockout still holds, and then keeps exactly its time.
pub proof fn clear_unlocks_what_is_over(until: Option<i64>, force: bool, now: i64, clock: i64)
    ensures
        attempts::clear_decision(Seq::empty(), force, now, clock) == Some(CacheDecision::ClearLock),
        attempts::clear_decision(seq![until], true, now, clock) == Some(CacheDecision::ClearLock),
        until is None || until->0 <= now ==> attempts::clear_decision(seq![until], false, now, clock)
            == Some(CacheDecision::ClearLock),
        until is Some && until->0 > now && until->0 > clock ==> attempts::clear_decision(
            seq![until],
            false,
            now,
            clock,
        ) == Some(CacheDecision::SetLock(until->0)),
        until is Some && until->0 > now && until->0 <= clock ==> attempts::clear_decision(
            seq![until],
            false,
            now,
            clock,
        ) == Some(CacheDecision::ClearLock),
{
    reveal_with_fuel(search::count_where, 2);
    assert(seq![until].drop_last() =~= Seq::<Option<i64>>::empty());
    assert(seq![until].last() == until);
}

/// Several rows of one name are never guessed about: a forced clear is refused, and so is an automatic
/// one unless exactly one of them is not locked.
pub proof fn several_rows_are_refused(rows: Seq<Option<i64>>, now: i64, clock: i64)
    requires
        rows.len() > 1,
    ensures
        attempts::clear_decision(rows, true, now, clock) is None,
        attempts::clear_decision(rows, false, now, clock) is Some <==> attempts::inactive_rows(
            rows,
            now,
        ) == 1,
{
}

/// The largest and the smallest time bound every sum.
pub proof fn sums_stay_in_range(x: int)
    ensures
        i64::MIN <= arith::clamp_i64(x) <= i64::MAX,
        i64::MIN <= x <= i64::MAX ==> arith::clamp_i64(x) == x,
        x > i64::MAX ==> arith::clamp_i64(x) == i64::MAX,
        x < i64::MIN ==> arith::clamp_i64(x) == i64::MIN,
{
}

/// What [`attempts::failure_row`] returns: a row that counts one more failure and, from the limit on, is
/// locked for the configured minutes from now on, and none only where the number would not fit.
pub proof fn new_row_counts_and_locks(
    row: Option<AttemptRow>,
    now: i64,
    max_fails: i32,
    minutes: i32,
    so_far: int,
    r: Option<AttemptRow>,
)
    requires
        call_ensures(attempts::failure_row, (row, now, max_fails, minutes), r),
        row is None ==> so_far == 0,
        row matches Some(old_row) ==> (if old_row.lockout_until is Some && old_row.lockout_until->0
            <= now {
            so_far == 0
        } else {
            so_far == old_row.fail_count
        }),
    ensures
        r is None <==> so_far == 2147483647,
        r matches Some(after) ==> {
            &&& after.fail_count == so_far + 1
            &&& after.last_fail == now
            &&& after.lockout_until is Some <==> so_far + 1 >= max_fails
            &&& after.lockout_until matches Some(t) ==> minutes_later(now, minutes, t)
        },
{
}

/// A failed login of somebody who counts is staged as one operation about the role, with the new row's
/// lockout where it has one ahead; nobody else's leaves a trace.
pub proof fn counted_failure_is_staged(
    ops: Seq<PendingEntry>,
    name: Seq<char>,
    facts: FailureFacts,
    subid: u32,
)
    ensures
        ({
            let after = attempts::ops_after_failure(ops, name, facts, subid);
            let counts = facts.has_database && !facts.is_superuser && !facts.bypassed;
            let row = attempts::after_failure(
                facts.row,
                facts.now,
                facts.max_fails,
                facts.lockout_minutes,
            );
            let locked = row.lockout_until is Some && row.lockout_until->0 > facts.clock;
            &&& !counts ==> after == Some(ops)
            &&& counts && after is Some ==> after->0.contains(
                PendingEntry {
                    username: username::encoded_name(name),
                    decision: Some(
                        if locked {
                            CacheDecision::SetLock(row.lockout_until->0)
                        } else {
                            CacheDecision::ClearLock
                        },
                    ),
                    expiry: ExpiryDecision::Unchanged,
                    subid,
                },
            )
            &&& counts && ops.len() < 16 && (facts.row is None || facts.row->0.fail_count
                < 2147483647) ==> after is Some
        }),
{
    let row = attempts::after_failure(
        facts.row,
        facts.now,
        facts.max_fails,
        facts.lockout_minutes,
    );
    crate::staging_laws::staging_is_exact(
        ops,
        attempts::row_operation(name, row, facts.clock, subid),
    );
}

/// A row counts as not locked exactly when it has no lockout or one that is over, and the rows of one
/// name are counted one by one.
pub proof fn rows_are_counted(rows: Seq<Option<i64>>, one: Option<i64>, now: i64)
    ensures
        attempts::inactive(one, now) <==> one is None || one->0 <= now,
        attempts::inactive_rows(rows.push(one), now) == attempts::inactive_rows(rows, now) + if one
            is None || one->0 <= now {
            1int
        } else {
            0
        },
        attempts::inactive_rows(Seq::empty(), now) == 0,
{
    assert(rows.push(one).drop_last() =~= rows);
    assert(rows.push(one).last() == one);
}

/// An automatic clear means that no lockout is left when nothing or one row was deleted and none is
/// active, and that the one active row still holds when it is alone; any other numbers mean nothing.
pub proof fn clear_is_read_exactly(o: ClearOutcome, r: Result<Option<i64>, String>)
    requires
        call_ensures(attempts::resolve_clear, (o,), r),
    ensures
        r == Ok::<Option<i64>, String>(None) <==> o.active == 0 && o.active_until is None && (
        o.deleted == 0 || o.deleted == 1),
        r matches Ok(Some(t)) ==> o.deleted == 0 && o.active == 1 && o.active_until == Some(t),
        o.deleted == 0 && o.active == 1 && o.active_until is Some ==> r == Ok::<
            Option<i64>,
            String,
        >(o.active_until),
{
}

/// What the database and the caches report is what these functions return.
pub proof fn lockouts_are_reported(
    has_database: bool,
    row: AttemptRow,
    max_fails: i32,
    now: i64,
    clock: i64,
    left: Option<i64>,
    locked: bool,
    nobody: bool,
    deletes: bool,
    force: bool,
)
    requires
        call_ensures(
            attempts::check_lockout_from_db,
            (has_database, Some(row), max_fails, now, clock),
            left,
        ),
        call_ensures(attempts::is_user_locked, (Some(row), now), locked),
        call_ensures(attempts::is_user_locked, (None, now), nobody),
        call_ensures(attempts::clear_deletes, (force, row.lockout_until, now), deletes),
    ensures
        locked <==> row.lockout_until is Some && row.lockout_until->0 > now,
        !nobody,
        left is Some <==> {
            &&& has_database
            &&& row.fail_count >= max_fails
            &&& row.lockout_until is Some
            &&& row.lockout_until->0 > now
            &&& row.lockout_until->0 > clock
        },
        deletes <==> force || !locked,
{
    row_locks_until_its_time(has_database, row, max_fails, now, clock);
}

/// Who may clear and who is refused access, as the functions return it.
pub proof fn permission_and_access_are_returned(
    user: Option<&str>,
    superuser: bool,
    role: &str,
    may: Result<(), String>,
    has_database: bool,
    cached: Option<i64>,
    in_database: Option<i32>,
    access: Result<String, String>,
)
    requires
        call_ensures(attempts::check_clear_permission, (user, superuser, role), may),
        call_ensures(attempts::check_user_access, (has_database, cached, in_database), access),
    ensures
        may is Ok <==> user is Some && (superuser || user->0@ == role@),
        access is Err <==> has_database && ((cached is Some && cached->0 >= 1) || (in_database
            is Some && in_database->0 >= 1)),
{
}

} // verus!
