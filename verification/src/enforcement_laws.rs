//! Laws that span the library: what failed logins and password changes come to at a later login.

use crate::attempts;
use crate::attempts::FailureFacts;
use crate::expiry_cache::ExpiryModel;
use crate::expiry_laws;
use crate::history;
use crate::history::WrittenExpiry;
use crate::lock_cache;
use crate::lock_cache::{CacheDecision, LockModel};
use crate::lock_laws;
use crate::login::{HealthFacts, Login};
use crate::pending_cache_op;
use crate::pending_cache_op::{ExpiryDecision, PendingEntry};
use crate::username;
use vstd::prelude::*;

verus! {

/// The lock cache after a transaction that recorded one failed login committed.
pub open spec fn lock_after_failure(
    lock: LockModel,
    name: Seq<char>,
    facts: FailureFacts,
    subid: u32,
    committed_at: i64,
) -> LockModel {
    let row = attempts::after_failure(
        facts.row,
        facts.now,
        facts.max_fails,
        facts.lockout_minutes,
    );
    pending_cache_op::lock_after_all(
        lock,
        pending_cache_op::staged(
            Seq::empty(),
            attempts::row_operation(name, row, facts.clock, subid),
        )->0,
        committed_at,
    )
}

/// What the lock cache reports at a login.
pub open spec fn reported(lock: LockModel, name: Seq<char>, now: i64) -> Option<i64> {
    match lock.lockout(username::encoded_name(name), now) {
        Some(expires_at) => lock_cache::seconds_left(expires_at, now),
        None => None,
    }
}

proof fn single_operation(lock: LockModel, op: PendingEntry, now: i64)
    ensures
        pending_cache_op::staged(Seq::empty(), op) == Some(seq![op]),
        pending_cache_op::lock_after_all(lock, seq![op], now) == pending_cache_op::lock_after(
            lock,
            op,
            now,
        ),
{
    assert(Seq::<PendingEntry>::empty().push(op) =~= seq![op]);
    reveal_with_fuel(pending_cache_op::lock_after_all, 2);
    assert(seq![op].drop_last() =~= Seq::<PendingEntry>::empty());
    assert(seq![op].last() == op);
}

/// Failures up to the limit lock the account: once the transaction that records the failure
/// reaching the limit has committed, and unless the cache overflowed, even the right password is
/// refused at every login before the lockout is over.
pub proof fn reaching_the_limit_refuses_logins(
    lock: LockModel,
    name: Seq<char>,
    facts: FailureFacts,
    subid: u32,
    committed_at: i64,
    l: Login,
    login_at: i64,
    in_database: Option<i64>,
)
    requires
        lock_laws::distinct(lock),
        username::encoded_name(name)@[0] != 0,
        facts.max_fails <= attempts::counted_failures(facts.row, facts.now) + 1 <= i32::MAX,
        ({
            let row = attempts::after_failure(
                facts.row,
                facts.now,
                facts.max_fails,
                facts.lockout_minutes,
            );
            &&& facts.clock < row.lockout_until->0
            &&& committed_at <= login_at < row.lockout_until->0
        }),
        !(lock_after_failure(lock, name, facts, subid, committed_at).readiness() is Overflow),
        l.authenticated,
        l.lockout_active,
    ensures
        ({
            let after = lock_after_failure(lock, name, facts, subid, committed_at);
            &&& reported(after, name, login_at) is Some
            &&& l.locked_for(reported(after, name, login_at), in_database) is Some
        }),
{
    let row = attempts::after_failure(
        facts.row,
        facts.now,
        facts.max_fails,
        facts.lockout_minutes,
    );
    let until = row.lockout_until->0;
    let encoded = username::encoded_name(name);
    let op = attempts::row_operation(name, row, facts.clock, subid);
    single_operation(lock, op, committed_at);
    assert(op.decision == Some(CacheDecision::SetLock(until)));
    assert(lock_after_failure(lock, name, facts, subid, committed_at) == lock.with_lock(
        encoded,
        until,
        committed_at,
    ));
    lock_laws::set_is_found(lock, encoded, until, committed_at, login_at);
    let left = until - login_at;
    assert(0 < (left + 1_000_000 - 1) / 1_000_000 <= i64::MAX);
}

/// Fewer failures than the limit lock nobody: after the transaction that records one has
/// committed, the cache reports no lockout of the role.
pub proof fn below_the_limit_locks_nobody(
    lock: LockModel,
    name: Seq<char>,
    facts: FailureFacts,
    subid: u32,
    committed_at: i64,
    login_at: i64,
)
    requires
        lock_laws::distinct(lock),
        attempts::counted_failures(facts.row, facts.now) + 1 < facts.max_fails,
    ensures
        reported(lock_after_failure(lock, name, facts, subid, committed_at), name, login_at)
            is None,
{
    let row = attempts::after_failure(
        facts.row,
        facts.now,
        facts.max_fails,
        facts.lockout_minutes,
    );
    let op = attempts::row_operation(name, row, facts.clock, subid);
    single_operation(lock, op, committed_at);
    lock_laws::clear_is_gone(lock, username::encoded_name(name), login_at);
}

/// A forced clear ends a lockout: once its transaction has committed, the cache reports none, and
/// where the database reports none either, the login is not refused for it.
pub proof fn forced_clear_admits(
    lock: LockModel,
    name: Seq<char>,
    rows: Seq<Option<i64>>,
    now: i64,
    clock: i64,
    subid: u32,
    committed_at: i64,
    l: Login,
    login_at: i64,
)
    requires
        lock_laws::distinct(lock),
        rows.len() <= 1,
    ensures
        ({
            let decision = attempts::clear_decision(rows, true, now, clock);
            let op = PendingEntry {
                username: username::encoded_name(name),
                decision,
                expiry: ExpiryDecision::Unchanged,
                subid,
            };
            let after = pending_cache_op::lock_after_all(
                lock,
                pending_cache_op::staged(Seq::empty(), op)->0,
                committed_at,
            );
            &&& decision is Some
            &&& reported(after, name, login_at) is None
            &&& l.locked_for(reported(after, name, login_at), None) is None
        }),
{
    let op = PendingEntry {
        username: username::encoded_name(name),
        decision: Some(CacheDecision::ClearLock),
        expiry: ExpiryDecision::Unchanged,
        subid,
    };
    single_operation(lock, op, committed_at);
    lock_laws::clear_is_gone(lock, username::encoded_name(name), login_at);
}

/// The expiry cache after a transaction that recorded one password change committed.
pub open spec fn expiry_after_change(
    expiry: ExpiryModel,
    name: Seq<char>,
    expiry_days: i32,
    written: WrittenExpiry,
    subid: u32,
) -> ExpiryModel {
    pending_cache_op::expiry_after_all(
        expiry,
        seq![
            PendingEntry {
                username: username::encoded_name(name),
                decision: None,
                expiry: history::recorded_expiry(expiry_days, Some(written))->0,
                subid,
            },
        ],
    )
}

/// A password change takes effect at login: once it has committed to a ready cache with room for
/// it, the password is valid until its time, then worth as many logins as it has grace logins,
/// and after these the login is refused.
pub proof fn changed_password_expires(
    expiry: ExpiryModel,
    name: Seq<char>,
    expiry_days: i32,
    written: WrittenExpiry,
    subid: u32,
    times: Seq<i64>,
    before: i64,
    now: i64,
    l: Login,
    health: HealthFacts,
)
    requires
        expiry.readiness() is Ready,
        expiry.set_status(username::encoded_name(name)) is Applied,
        expiry_days > 0,
        times.len() == written.grace_logins,
        forall|i: int| 0 <= i < times.len() ==> written.must_change_by <= #[trigger] times[i],
        before < written.must_change_by <= now,
        l.expiry_matters(),
    ensures
        ({
            let encoded = username::encoded_name(name);
            let changed = expiry_after_change(expiry, name, expiry_days, written, subid);
            let used = expiry_laws::after_logins(changed, encoded, times);
            &&& changed.decision(encoded, before) is NotExpired
            &&& used.decision(encoded, now) is ExpiredNoGrace
            &&& l.after_expiry(used.decision(encoded, now)).ending(health).refuse_expired
        }),
{
    let encoded = username::encoded_name(name);
    let changed = expiry_after_change(expiry, name, expiry_days, written, subid);
    let op = PendingEntry {
        username: encoded,
        decision: None,
        expiry: history::recorded_expiry(expiry_days, Some(written))->0,
        subid,
    };
    reveal_with_fuel(pending_cache_op::expiry_after_all, 2);
    assert(seq![op].drop_last() =~= Seq::<PendingEntry>::empty());
    assert(seq![op].last() == op);
    assert(changed == expiry.with_entry(
        encoded,
        written.must_change_by,
        written.last_changed,
        written.grace_logins,
    ));
    expiry_laws::set_is_found(
        expiry,
        encoded,
        written.must_change_by,
        written.last_changed,
        written.grace_logins,
    );
    expiry_laws::grace_runs_out(changed, encoded, times, now);
}

} // verus!
