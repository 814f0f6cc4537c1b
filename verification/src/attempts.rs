//! Failed login attempts and account lockouts: the rows of the authoritative table and how each
//! attempt changes them.

use crate::arith;
use crate::lock_cache;
use crate::lock_cache::CacheDecision;
use crate::pending_cache_op;
use crate::pending_cache_op::{ExpiryDecision, PendingEntry, PendingModel, PendingState};
use crate::search;
use crate::text;
use crate::text::same_text;
use crate::username;
use crate::username::encode_username;
use vstd::prelude::*;
use vstd::string::*;

verus! {

/// Microseconds of a minute.
pub const MICROS_PER_MINUTE: i64 = 60_000_000;

/// One role's failed attempts.
#[derive(Clone, Copy, PartialEq, Eq, Debug, Structural)]
pub struct AttemptRow {
    pub fail_count: i32,
    pub last_fail: i64,
    pub lockout_until: Option<i64>,
}

impl AttemptRow {
    /// A lockout holds at `now`.
    pub open spec fn locked(self, now: i64) -> bool {
        self.lockout_until matches Some(t) && t > now
    }

    /// A lockout is over at `now`.
    pub open spec fn served(self, now: i64) -> bool {
        self.lockout_until matches Some(t) && t <= now
    }
}

/// How many failures count at `now`: none without a row, and none once a lockout is over.
pub open spec fn counted_failures(row: Option<AttemptRow>, now: i64) -> int {
    match row {
        Some(r) => if r.served(now) {
            0
        } else {
            r.fail_count as int
        },
        None => 0,
    }
}

/// The row after one more failure at `now`: the account is locked from the failure on that reaches
/// the limit, for the given minutes.
pub open spec fn after_failure(
    row: Option<AttemptRow>,
    now: i64,
    max_fails: i32,
    minutes: i32,
) -> AttemptRow {
    let count = counted_failures(row, now) + 1;
    AttemptRow {
        fail_count: count as i32,
        last_fail: now,
        lockout_until: if count >= max_fails {
            Some(arith::clamp_i64(now + minutes * MICROS_PER_MINUTE) as i64)
        } else {
            None
        },
    }
}

/// Computes the row after one more failure. `None` when the count would not fit.
pub fn failure_row(row: Option<AttemptRow>, now: i64, max_fails: i32, minutes: i32) -> (r: Option<
    AttemptRow,
>)
    ensures
        r is None <==> counted_failures(row, now) == i32::MAX,
        r matches Some(new_row) ==> new_row == after_failure(row, now, max_fails, minutes),
{
    let counted: i32 = match row {
        Some(old_row) => {
            match old_row.lockout_until {
                Some(t) => {
                    if t <= now {
                        0
                    } else {
                        old_row.fail_count
                    }
                },
                None => old_row.fail_count,
            }
        },
        None => 0,
    };
    if counted == i32::MAX {
        return None;
    }
    let count: i32 = counted + 1;
    let lockout_until = if count >= max_fails {
        assert(-2147483648 * 60_000_000 <= minutes * 60_000_000 <= 2147483647 * 60_000_000);
        Some(arith::saturating_add_i64(now, minutes as i64 * MICROS_PER_MINUTE))
    } else {
        None
    };
    Some(AttemptRow { fail_count: count, last_fail: now, lockout_until })
}

/// What is known when a failed login is recorded.
#[derive(Clone, Copy, PartialEq, Eq, Debug, Structural)]
pub struct FailureFacts {
    pub has_database: bool,
    pub is_superuser: bool,
    pub bypassed: bool,
    /// The failures at which the account is locked.
    pub max_fails: i32,
    pub lockout_minutes: i32,
    /// The role's row, when it has one.
    pub row: Option<AttemptRow>,
    /// The transaction's time.
    pub now: i64,
    /// The time by the clock.
    pub clock: i64,
}

/// What recording a failed login comes to.
#[derive(Clone, Copy, PartialEq, Eq, Debug, Structural)]
pub enum FailedLogin {
    /// There is no database to record it in.
    NoDatabase,
    /// Superusers are not counted.
    Superuser,
    /// Exempt roles are not counted.
    Bypassed,
    /// It counts, and this is the role's new row.
    Recorded(AttemptRow),
}

impl FailedLogin {
    /// The outcome in words.
    pub fn message(&self) -> (r: &'static str)
        ensures
            r@ == match *self {
                FailedLogin::NoDatabase => "Skipped - no database context"@,
                FailedLogin::Superuser => "Superuser bypassed"@,
                FailedLogin::Bypassed => "Bypassed failed login tracking"@,
                FailedLogin::Recorded(_) => "Failed login recorded"@,
            },
    {
        match self {
            FailedLogin::NoDatabase => "Skipped - no database context",
            FailedLogin::Superuser => "Superuser bypassed",
            FailedLogin::Bypassed => "Bypassed failed login tracking",
            FailedLogin::Recorded(_) => "Failed login recorded",
        }
    }
}

/// The lock-cache operation that follows from a row.
pub open spec fn row_operation(
    name: Seq<char>,
    row: AttemptRow,
    clock: i64,
    subid: u32,
) -> PendingEntry {
    PendingEntry {
        username: username::encoded_name(name),
        decision: Some(lock_cache::decision(row.lockout_until, clock)),
        expiry: ExpiryDecision::Unchanged,
        subid,
    }
}

/// What a failed login comes to, before anything is staged.
pub open spec fn failure_outcome(facts: FailureFacts) -> Option<FailedLogin> {
    if !facts.has_database {
        Some(FailedLogin::NoDatabase)
    } else if facts.is_superuser {
        Some(FailedLogin::Superuser)
    } else if facts.bypassed {
        Some(FailedLogin::Bypassed)
    } else if counted_failures(facts.row, facts.now) == i32::MAX {
        None
    } else {
        Some(
            FailedLogin::Recorded(
                after_failure(facts.row, facts.now, facts.max_fails, facts.lockout_minutes),
            ),
        )
    }
}

/// Judges a failed login and computes the role's new row, which is to be written before
/// [`stage_failure`] is called. Superusers and exempt roles are not counted.
pub fn judge_failure(facts: &FailureFacts) -> (r: Result<FailedLogin, String>)
    ensures
        match failure_outcome(*facts) {
            Some(outcome) => r == Ok::<FailedLogin, String>(outcome),
            None => r matches Err(e) && e@ == "integer out of range"@,
        },
{
    if !facts.has_database {
        return Ok(FailedLogin::NoDatabase);
    }
    if facts.is_superuser {
        return Ok(FailedLogin::Superuser);
    }
    if facts.bypassed {
        return Ok(FailedLogin::Bypassed);
    }
    match failure_row(facts.row, facts.now, facts.max_fails, facts.lockout_minutes) {
        Some(row) => Ok(FailedLogin::Recorded(row)),
        None => Err("integer out of range".to_string()),
    }
}

/// Stages the cache decision that follows from the role's new row, when it has one.
pub fn stage_failure(
    pending: &mut PendingState,
    subid: u32,
    username: &str,
    outcome: FailedLogin,
    clock: i64,
) -> (r: Result<(), String>)
    ensures
        match outcome {
            FailedLogin::Recorded(row) => match pending_cache_op::staged(
                old(pending)@.ops,
                row_operation(username@, row, clock, subid),
            ) {
                Some(ops) => r is Ok && final(pending)@ == (PendingModel { ops, ..old(pending)@ }),
                None => {
                    &&& r matches Err(e)
                    &&& e@ == pending_cache_op::capacity_message()
                    &&& final(pending)@ == old(pending)@
                },
            },
            _ => r is Ok && final(pending)@ == old(pending)@,
        },
{
    match outcome {
        FailedLogin::Recorded(row) => {
            let decision = lock_cache::decision_for(row.lockout_until, clock);
            pending_cache_op::stage(pending, encode_username(username), decision, subid)
        },
        _ => Ok(()),
    }
}

/// The operations after a failed login was recorded; `None` when it could not be.
pub open spec fn ops_after_failure(
    ops: Seq<PendingEntry>,
    name: Seq<char>,
    facts: FailureFacts,
    subid: u32,
) -> Option<Seq<PendingEntry>> {
    match failure_outcome(facts) {
        Some(FailedLogin::Recorded(row)) => pending_cache_op::staged(
            ops,
            row_operation(name, row, facts.clock, subid),
        ),
        Some(_) => Some(ops),
        None => None,
    }
}

/// Records a failed login: computes the role's new row and stages the cache decision that follows
/// from it. Superusers and exempt roles are not counted.
pub fn record_failed_login(
    pending: &mut PendingState,
    subid: u32,
    username: &str,
    facts: &FailureFacts,
) -> (r: Result<FailedLogin, String>)
    ensures
        ({
            let after = ops_after_failure(old(pending)@.ops, username@, *facts, subid);
            &&& r is Ok <==> after is Some
            &&& r matches Ok(outcome) ==> failure_outcome(*facts) == Some(outcome)
            &&& after is Some ==> final(pending)@.ops == after->0
            &&& after is None ==> final(pending)@.ops == old(pending)@.ops
            &&& final(pending)@.ack == old(pending)@.ack
        }),
        ({
            let counts = facts.has_database && !facts.is_superuser && !facts.bypassed;
            let new_row = after_failure(
                facts.row,
                facts.now,
                facts.max_fails,
                facts.lockout_minutes,
            );
            let staged = pending_cache_op::staged(
                old(pending)@.ops,
                row_operation(username@, new_row, facts.clock, subid),
            );
            if !counts {
                &&& final(pending)@ == old(pending)@
                &&& r == Ok::<FailedLogin, String>(
                    if !facts.has_database {
                        FailedLogin::NoDatabase
                    } else if facts.is_superuser {
                        FailedLogin::Superuser
                    } else {
                        FailedLogin::Bypassed
                    },
                )
            } else if counted_failures(facts.row, facts.now) == i32::MAX {
                &&& final(pending)@ == old(pending)@
                &&& r matches Err(e)
                &&& e@ == "integer out of range"@
            } else if staged is Some {
                &&& final(pending)@ == (PendingModel { ops: staged->0, ..old(pending)@ })
                &&& r == Ok::<FailedLogin, String>(FailedLogin::Recorded(new_row))
            } else {
                &&& final(pending)@ == old(pending)@
                &&& r matches Err(e)
                &&& e@ == pending_cache_op::capacity_message()
            }
        }),
{
    let outcome = match judge_failure(facts) {
        Ok(outcome) => outcome,
        Err(e) => {
            return Err(e);
        },
    };
    match stage_failure(pending, subid, username, outcome, facts.clock) {
        Ok(()) => Ok(outcome),
        Err(e) => Err(e),
    }
}

/// What an automatic clear finds: how many rows it deletes, how many are still locked, looked at
/// only when none is deleted and at most two of them, and until when.
#[derive(Clone, Copy, PartialEq, Eq, Debug, Structural)]
pub struct ClearOutcome {
    pub deleted: usize,
    pub active: usize,
    pub active_until: Option<i64>,
}

/// A row with this `lockout_until` is not locked at `now`.
pub open spec fn inactive(lockout_until: Option<i64>, now: i64) -> bool {
    !(lockout_until matches Some(t) && t > now)
}

/// How many of the rows are not locked at `now`.
pub open spec fn inactive_rows(rows: Seq<Option<i64>>, now: i64) -> nat {
    search::count_where(rows, |t: Option<i64>| inactive(t, now))
}

/// Finds out what an automatic clear does to the rows of one name, given by their
/// `lockout_until`: the ones that are not locked go.
pub fn clear_outcome(rows: &Vec<Option<i64>>, now: i64) -> (r: ClearOutcome)
    ensures
        r.deleted == inactive_rows(rows@, now),
        r.deleted > 0 ==> r.active == 0 && r.active_until is None,
        r.deleted == 0 ==> {
            &&& r.active == if rows@.len() < 2 {
                rows@.len()
            } else {
                2
            }
            &&& r.active_until == if rows@.len() == 0 {
                None
            } else if rows@.len() == 1 {
                rows@[0]
            } else {
                rows@[1]
            }
        },
{
    let ghost p = |t: Option<i64>| inactive(t, now);
    let mut deleted: usize = 0;
    let mut i: usize = 0;
    while i < rows.len()
        invariant
            i <= rows@.len(),
            deleted <= i,
            p == (|t: Option<i64>| inactive(t, now)),
            deleted == search::count_where(rows@.take(i as int), p),
        decreases rows.len() - i,
    {
        proof {
            search::count_step(rows@, p, i as int);
        }
        let active = match rows[i] {
            Some(t) => t > now,
            None => false,
        };
        if !active {
            deleted = deleted + 1;
        }
        i = i + 1;
    }
    assert(rows@.take(i as int) =~= rows@);
    if deleted > 0 {
        return ClearOutcome { deleted, active: 0, active_until: None };
    }
    if rows.len() == 0 {
        ClearOutcome { deleted: 0, active: 0, active_until: None }
    } else if rows.len() == 1 {
        ClearOutcome { deleted: 0, active: 1, active_until: rows[0] }
    } else {
        ClearOutcome { deleted: 0, active: 2, active_until: rows[1] }
    }
}

/// What an automatic clear means: no lockout left, or the one that still holds. `None` when the
/// numbers cannot be true of one name, which is the table's primary key.
pub open spec fn clear_meaning(o: ClearOutcome) -> Option<Option<i64>> {
    if o.active == 0 && o.active_until is None && o.deleted <= 1 {
        Some(None)
    } else if o.deleted == 0 && o.active == 1 && o.active_until is Some {
        Some(o.active_until)
    } else {
        None
    }
}

/// The complaint about numbers that cannot be true of one name.
pub open spec fn inconsistent_message(o: ClearOutcome) -> Seq<char> {
    "password_profile: inconsistent login_attempts state for one username (deleted="@
        + text::decimal(o.deleted as int) + ", active="@ + text::decimal(o.active as int)
        + "); refusing to update the lock cache"@
}

/// Reads an automatic clear. Anything that cannot be true of one name is refused rather than
/// guessed at.
pub fn resolve_clear(o: ClearOutcome) -> (r: Result<Option<i64>, String>)
    ensures
        match clear_meaning(o) {
            Some(until) => r == Ok::<Option<i64>, String>(until),
            None => r matches Err(e) && e@ == inconsistent_message(o),
        },
{
    match (o.deleted, o.active, o.active_until) {
        (0, 0, None) => Ok(None),
        (1, 0, None) => Ok(None),
        (0, 1, Some(expires_at)) => Ok(Some(expires_at)),
        _ => {
            let mut m =
                "password_profile: inconsistent login_attempts state for one username (deleted=".to_string();
            text::append_count(&mut m, o.deleted as u64);
            m.append(", active=");
            text::append_count(&mut m, o.active as u64);
            m.append("); refusing to update the lock cache");
            Err(m)
        },
    }
}

/// The complaint about a forced clear that hits several rows.
pub open spec fn forced_message(deleted: int) -> Seq<char> {
    "password_profile: forced clear affected "@ + text::decimal(deleted)
        + " login_attempts rows for one username; refusing to update the lock cache"@
}

/// The lock-cache decision of a clear, given the rows of one name by their `lockout_until`; `None`
/// when they cannot be what they should be. A forced clear removes the lockout whatever it is; an
/// automatic one leaves a lockout that still holds.
pub open spec fn clear_decision(
    rows: Seq<Option<i64>>,
    force: bool,
    now: i64,
    clock: i64,
) -> Option<CacheDecision> {
    if force {
        if rows.len() > 1 {
            None
        } else {
            Some(CacheDecision::ClearLock)
        }
    } else if inactive_rows(rows, now) > 1 {
        None
    } else if inactive_rows(rows, now) == 1 || rows.len() == 0 {
        Some(CacheDecision::ClearLock)
    } else if rows.len() == 1 {
        Some(lock_cache::decision(rows[0], clock))
    } else {
        None
    }
}

/// A clear deletes the row with this `lockout_until`.
pub open spec fn clears_row(force: bool, lockout_until: Option<i64>, now: i64) -> bool {
    force || inactive(lockout_until, now)
}

/// Whether a clear deletes the row with this `lockout_until`: a forced one deletes every row, an
/// automatic one those that are not locked at `now`.
pub fn clear_deletes(force: bool, lockout_until: Option<i64>, now: i64) -> (r: bool)
    ensures
        r == clears_row(force, lockout_until, now),
{
    if force {
        return true;
    }
    match lockout_until {
        Some(t) => t <= now,
        None => true,
    }
}

/// The rows a clear leaves.
pub open spec fn rows_left(rows: Seq<Option<i64>>, force: bool, now: i64) -> Seq<Option<i64>> {
    rows.filter(|t: Option<i64>| !clears_row(force, t, now))
}

/// A forced clear leaves no row, and an automatic one only rows that are still locked.
pub proof fn clear_leaves_only_lockouts(rows: Seq<Option<i64>>, force: bool, now: i64, i: int)
    requires
        0 <= i < rows_left(rows, force, now).len(),
    ensures
        !force,
        rows_left(rows, force, now)[i] matches Some(t) && t > now,
{
    let keep = |t: Option<i64>| !clears_row(force, t, now);
    rows.lemma_filter_pred(keep, i);
}

/// The cache follows the table: for the one row a name can have, what a clear stages is the decision
/// that the rows it leaves stand for.
pub proof fn cleared_cache_follows_the_table(
    rows: Seq<Option<i64>>,
    force: bool,
    now: i64,
    clock: i64,
)
    requires
        rows.len() <= 1,
    ensures
        ({
            let left = rows_left(rows, force, now);
            clear_decision(rows, force, now, clock) == Some(
                lock_cache::decision(
                    if left.len() == 0 {
                        None
                    } else {
                        left[0]
                    },
                    clock,
                ),
            )
        }),
{
    reveal(Seq::filter);
    reveal_with_fuel(search::count_where, 2);
    let keep = |t: Option<i64>| !clears_row(force, t, now);
    if rows.len() == 1 {
        assert(rows.drop_last() =~= Seq::<Option<i64>>::empty());
        assert(rows.last() == rows[0]);
        assert(rows.drop_last().filter(keep) =~= Seq::<Option<i64>>::empty());
    }
}

/// Clears a role's failed attempts, given its rows by their `lockout_until`, and stages the cache
/// decision. Where this succeeds, a forced clear deletes every row and an automatic one those that
/// are not locked at `now`.
pub fn clear_login_attempts_internal(
    pending: &mut PendingState,
    subid: u32,
    username: &str,
    rows: &Vec<Option<i64>>,
    force: bool,
    now: i64,
    clock: i64,
) -> (r: Result<(), String>)
    ensures
        match clear_decision(rows@, force, now, clock) {
            None => {
                &&& r is Err
                &&& force ==> r->Err_0@ == forced_message(rows@.len() as int)
                &&& final(pending)@ == old(pending)@
            },
            Some(decision) => match pending_cache_op::staged(
                old(pending)@.ops,
                PendingEntry::for_lock(username::encoded_name(username@), decision, subid),
            ) {
                Some(ops) => r is Ok && final(pending)@ == (PendingModel { ops, ..old(pending)@ }),
                None => {
                    &&& r matches Err(e)
                    &&& e@ == pending_cache_op::capacity_message()
                    &&& final(pending)@ == old(pending)@
                },
            },
        },
        !force && clear_decision(rows@, force, now, clock) is None ==> r->Err_0@
            == inconsistent_message(
            ClearOutcome {
                deleted: inactive_rows(rows@, now) as usize,
                active: if inactive_rows(rows@, now) > 0 {
                    0
                } else {
                    2
                },
                active_until: None,
            },
        ),
{
    proof {
        search::count_bounded(rows@, |t: Option<i64>| inactive(t, now));
    }
    if force {
        if rows.len() > 1 {
            let mut m = "password_profile: forced clear affected ".to_string();
            text::append_count(&mut m, rows.len() as u64);
            m.append(" login_attempts rows for one username; refusing to update the lock cache");
            return Err(m);
        }
        return pending_cache_op::stage(
            pending,
            encode_username(username),
            CacheDecision::ClearLock,
            subid,
        );
    }
    let outcome = clear_outcome(rows, now);
    proof {
        if rows@.len() == 1 && outcome.deleted == 0 {
            reveal_with_fuel(search::count_where, 2);
            assert(rows@.last() == rows@[0]);
        }
    }
    match resolve_clear(outcome) {
        Ok(active_until) => {
            let decision = lock_cache::decision_for(active_until, clock);
            pending_cache_op::stage(pending, encode_username(username), decision, subid)
        },
        Err(e) => Err(e),
    }
}

/// `current_user` may clear the attempts of `username`.
pub open spec fn may_clear(
    current_user: Option<Seq<char>>,
    is_superuser: bool,
    username: Seq<char>,
) -> bool {
    current_user matches Some(user) && (is_superuser || user == username)
}

/// Whether `current_user` may clear the attempts of `username`: superusers may, and everybody
/// their own.
pub fn check_clear_permission(
    current_user: Option<&str>,
    is_superuser: bool,
    username: &str,
) -> (r: Result<(), String>)
    ensures
        r is Ok <==> may_clear(
            match current_user {
                Some(user) => Some(user@),
                None => None,
            },
            is_superuser,
            username@,
        ),
        match r {
            Ok(()) => current_user is Some && (is_superuser || current_user->0@ == username@),
            Err(e) => match current_user {
                None => e@ == "Failed to get current user"@,
                Some(user) => {
                    &&& !is_superuser
                    &&& user@ != username@
                    &&& e@ == "Permission denied: Only superuser or user '"@ + username@
                        + "' can clear their login attempts"@
                },
            },
        },
{
    match current_user {
        None => Err("Failed to get current user".to_string()),
        Some(user) => {
            if !is_superuser && !same_text(user, username) {
                let mut m = "Permission denied: Only superuser or user '".to_string();
                m.append(username);
                m.append("' can clear their login attempts");
                return Err(m);
            }
            Ok(())
        },
    }
}

/// The seconds a role is still locked out for by its row in the database.
pub open spec fn lockout_in_database(
    has_database: bool,
    row: Option<AttemptRow>,
    max_fails: i32,
    now: i64,
    clock: i64,
) -> Option<i64> {
    match row {
        Some(row) => if has_database && row.fail_count >= max_fails && row.locked(now) {
            lock_cache::seconds_left(row.lockout_until->0, clock)
        } else {
            None
        },
        None => None,
    }
}

/// The seconds a role is still locked out for by its row in the database; `now` is the
/// transaction's time and `clock` that of the clock. A row below the limit does not count.
pub fn check_lockout_from_db(
    has_database: bool,
    row: Option<AttemptRow>,
    max_fails: i32,
    now: i64,
    clock: i64,
) -> (r: Option<i64>)
    ensures
        r == lockout_in_database(has_database, row, max_fails, now, clock),
{
    if !has_database {
        return None;
    }
    match row {
        Some(row) => {
            match row.lockout_until {
                Some(t) => {
                    if row.fail_count >= max_fails && t > now {
                        lock_cache::remaining_seconds_ceil(t, clock)
                    } else {
                        None
                    }
                },
                None => None,
            }
        },
        None => None,
    }
}

/// A role with this row is locked at `now`.
pub open spec fn user_locked(row: Option<AttemptRow>, now: i64) -> bool {
    row matches Some(row) && row.locked(now)
}

/// Whether a role is locked at `now`; one without a row is not.
pub fn is_user_locked(row: Option<AttemptRow>, now: i64) -> (r: bool)
    ensures
        r == user_locked(row, now),
{
    match row {
        Some(row) => {
            match row.lockout_until {
                Some(t) => t > now,
                None => false,
            }
        },
        None => false,
    }
}

/// The words for a lockout of so many seconds.
pub open spec fn locked_message(seconds: int) -> Seq<char> {
    "Account locked! Please wait "@ + text::decimal(seconds / 60) + " minute(s) and "@
        + text::decimal(seconds % 60) + " second(s). Too many failed login attempts."@
}

fn locked_text(seconds: i64) -> (r: String)
    requires
        seconds > 0,
    ensures
        r@ == locked_message(seconds as int),
{
    let mut m = "Account locked! Please wait ".to_string();
    text::append_decimal(&mut m, seconds / 60);
    m.append(" minute(s) and ");
    text::append_decimal(&mut m, seconds % 60);
    m.append(" second(s). Too many failed login attempts.");
    m
}

/// The seconds a role is refused access for: what the cache reports counts first, then what the
/// database reports. Without a database nothing is refused.
pub open spec fn access_refused_for(
    has_database: bool,
    cached: Option<i64>,
    in_database: Option<i32>,
) -> Option<int> {
    if !has_database {
        None
    } else if cached is Some && cached->0 > 0 {
        Some(cached->0 as int)
    } else if in_database is Some && in_database->0 > 0 {
        Some(in_database->0 as int)
    } else {
        None
    }
}

/// Whether a role has access: what the cache reports counts first, then what the database reports.
pub fn check_user_access(
    has_database: bool,
    cached: Option<i64>,
    in_database: Option<i32>,
) -> (r: Result<String, String>)
    ensures
        match access_refused_for(has_database, cached, in_database) {
            Some(seconds) => r matches Err(words) && words@ == locked_message(seconds),
            None => r is Ok,
        },
        match r {
            Ok(words) => if !has_database {
                words@ == "Access check skipped - no database context"@
            } else {
                &&& !(cached is Some && cached->0 > 0)
                &&& !(in_database is Some && in_database->0 > 0)
                &&& words@ == "Access granted"@
            },
            Err(words) => {
                &&& has_database
                &&& if cached is Some && cached->0 > 0 {
                    words@ == locked_message(cached->0 as int)
                } else {
                    &&& in_database is Some
                    &&& in_database->0 > 0
                    &&& words@ == locked_message(in_database->0 as int)
                }
            },
        },
{
    if !has_database {
        return Ok("Access check skipped - no database context".to_string());
    }
    match cached {
        Some(seconds) => {
            if seconds > 0 {
                return Err(locked_text(seconds));
            }
        },
        None => {},
    }
    match in_database {
        Some(seconds) => {
            if seconds > 0 {
                return Err(locked_text(seconds as i64));
            }
        },
        None => {},
    }
    Ok("Access granted".to_string())
}

/// The row after failures at these times, one after the other.
pub open spec fn after_failures(
    row: Option<AttemptRow>,
    times: Seq<i64>,
    max_fails: i32,
    minutes: i32,
) -> Option<AttemptRow>
    decreases times.len(),
{
    if times.len() == 0 {
        row
    } else {
        Some(
            after_failure(
                after_failures(row, times.drop_last(), max_fails, minutes),
                times.last(),
                max_fails,
                minutes,
            ),
        )
    }
}

/// An account is locked at exactly the failure that reaches the limit: `n` failures of a role
/// without a row count `n`, and lock it if and only if `n` reaches the limit.
pub proof fn locked_at_the_limit(times: Seq<i64>, max_fails: i32, minutes: i32)
    requires
        0 < times.len() <= max_fails,
    ensures
        ({
            let row = after_failures(None, times, max_fails, minutes)->0;
            &&& after_failures(None, times, max_fails, minutes) is Some
            &&& row.fail_count == times.len()
            &&& row.last_fail == times.last()
            &&& row.lockout_until == if times.len() == max_fails {
                Some(arith::clamp_i64(times.last() + minutes * MICROS_PER_MINUTE) as i64)
            } else {
                None::<i64>
            }
        }),
    decreases times.len(),
{
    reveal_with_fuel(after_failures, 2);
    if times.len() > 1 {
        locked_at_the_limit(times.drop_last(), max_fails, minutes);
    }
}

/// Once a lockout is over, counting begins anew.
pub proof fn served_lockout_starts_anew(
    row: AttemptRow,
    now: i64,
    max_fails: i32,
    minutes: i32,
)
    requires
        row.served(now),
    ensures
        after_failure(Some(row), now, max_fails, minutes) == after_failure(
            None,
            now,
            max_fails,
            minutes,
        ),
{
}

/// A failure during a lockout never ends it: the account stays locked, for the full time from
/// that failure on.
pub proof fn failure_prolongs_lockout(row: AttemptRow, now: i64, max_fails: i32, minutes: i32)
    requires
        row.locked(now),
        max_fails <= row.fail_count < i32::MAX,
        minutes > 0,
        now < i64::MAX,
    ensures
        after_failure(Some(row), now, max_fails, minutes).locked(now),
        after_failure(Some(row), now, max_fails, minutes).fail_count == row.fail_count + 1,
{
}

/// An automatic clear never drops a lockout that still holds: its cache decision keeps exactly the
/// row's expiry.
pub proof fn automatic_clear_keeps_lockout(until: i64, now: i64, clock: i64)
    requires
        until > now,
        until > clock,
    ensures
        clear_decision(seq![Some(until)], false, now, clock) == Some(CacheDecision::SetLock(until)),
        clear_decision(seq![Some(until)], true, now, clock) == Some(CacheDecision::ClearLock),
{
    let rows = seq![Some(until)];
    reveal_with_fuel(search::count_where, 2);
    assert(rows.drop_last() =~= Seq::<Option<i64>>::empty());
    assert(rows.last() == Some(until));
}

} // verus!
