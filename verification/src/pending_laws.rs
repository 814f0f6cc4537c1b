//! Laws of staging: what savepoints undo and keep, and what a commit lands.

use crate::expiry_cache;
use crate::expiry_cache::{ExpiryEntry, ExpiryModel};
use crate::expiry_laws;
use crate::lock_cache::{CacheDecision, LockModel};
use crate::lock_laws;
use crate::pending_cache_op;
use crate::pending_cache_op::{ExpiryDecision, PendingAck, PendingEntry, PendingModel};
use crate::username::LOCK_USERNAME_BYTES;
use vstd::prelude::*;

verus! {

/// Levels never decrease in staging order. It is how savepoints nest: while an inner level is
/// open, no outer one stages anything.
pub open spec fn nested(ops: Seq<PendingEntry>) -> bool {
    forall|i: int, j: int|
        0 <= i <= j < ops.len() ==> (#[trigger] ops[i]).subid <= (#[trigger] ops[j]).subid
}

/// No operation belongs to a level inside `subid`.
pub open spec fn innermost(ops: Seq<PendingEntry>, subid: u32) -> bool {
    forall|i: int| 0 <= i < ops.len() ==> (#[trigger] ops[i]).subid <= subid
}

/// What the last match is.
proof fn last_of_found(ops: Seq<PendingEntry>, name: [u8; LOCK_USERNAME_BYTES], subid: u32)
    ensures
        ({
            let i = pending_cache_op::last_of(ops, name, subid);
            &&& -1 <= i < ops.len()
            &&& i >= 0 ==> ops[i].has_key(name, subid)
            &&& forall|j: int| i < j < ops.len() ==> !(#[trigger] ops[j]).has_key(name, subid)
        }),
    decreases ops.len(),
{
    if ops.len() > 0 && !ops.last().has_key(name, subid) {
        let before = ops.drop_last();
        last_of_found(before, name, subid);
        let i = pending_cache_op::last_of(before, name, subid);
        assert forall|j: int| i < j < ops.len() implies !(#[trigger] ops[j]).has_key(
            name,
            subid,
        ) by {
            if j < before.len() {
                assert(before[j] == ops[j]);
            }
        }
        if i >= 0 {
            assert(before[i] == ops[i]);
        }
    }
}

/// What is staged is, at its level, the last operation about its name.
pub proof fn staged_operation_is_the_last(ops: Seq<PendingEntry>, op: PendingEntry)
    ensures
        pending_cache_op::staged(ops, op) matches Some(after) ==> {
            let at = pending_cache_op::last_of(after, op.username, op.subid);
            &&& 0 <= at < after.len()
            &&& after[at] == op
        },
{
    if let Some(after) = pending_cache_op::staged(ops, op) {
        let i = pending_cache_op::last_of(ops, op.username, op.subid);
        let at = pending_cache_op::last_of(after, op.username, op.subid);
        last_of_found(ops, op.username, op.subid);
        last_of_found(after, op.username, op.subid);
        if i >= 0 {
            assert(after[i].has_key(op.username, op.subid));
            if at > i {
                assert(after[at] == ops[at]);
                assert(!ops[at].has_key(op.username, op.subid));
            }
        } else {
            assert(after.last().has_key(op.username, op.subid));
        }
    }
}

/// The resolution is the decision of the last operation about the name.
proof fn resolution_is(ops: Seq<PendingEntry>, name: [u8; LOCK_USERNAME_BYTES], at: int)
    requires
        -1 <= at < ops.len(),
        at >= 0 ==> ops[at].username == name,
        forall|j: int| at < j < ops.len() ==> (#[trigger] ops[j]).username != name,
    ensures
        pending_cache_op::resolution(ops, name) == if at >= 0 {
            Some(ops[at].decision)
        } else {
            None::<Option<CacheDecision>>
        },
    decreases ops.len(),
{
    if ops.len() > 0 && at < ops.len() - 1 {
        let before = ops.drop_last();
        assert(ops.last().username != name);
        assert forall|j: int| at < j < before.len() implies (
        #[trigger] before[j]).username != name by {
            assert(before[j] == ops[j]);
        }
        resolution_is(before, name, at);
    }
}

/// Where the last operation about a name is.
proof fn last_about(ops: Seq<PendingEntry>, name: [u8; LOCK_USERNAME_BYTES]) -> (at: int)
    ensures
        -1 <= at < ops.len(),
        at >= 0 ==> ops[at].username == name,
        forall|j: int| at < j < ops.len() ==> (#[trigger] ops[j]).username != name,
    decreases ops.len(),
{
    if ops.len() == 0 {
        -1
    } else if ops.last().username == name {
        ops.len() - 1
    } else {
        let before = ops.drop_last();
        let at = last_about(before, name);
        assert forall|j: int| at < j < ops.len() implies (#[trigger] ops[j]).username != name by {
            if j < before.len() {
                assert(before[j] == ops[j]);
            }
        }
        at
    }
}

/// The latest decision wins: what was staged last at the innermost level is what would be applied
/// for its name.
pub proof fn staging_decides(ops: Seq<PendingEntry>, op: PendingEntry)
    requires
        nested(ops),
        innermost(ops, op.subid),
        pending_cache_op::staged(ops, op) is Some,
    ensures
        pending_cache_op::resolution(pending_cache_op::staged(ops, op)->0, op.username) == Some(
            op.decision,
        ),
{
    let after = pending_cache_op::staged(ops, op)->0;
    let i = pending_cache_op::last_of(ops, op.username, op.subid);
    last_of_found(ops, op.username, op.subid);
    if i >= 0 {
        assert forall|j: int| i < j < after.len() implies (
        #[trigger] after[j]).username != op.username by {
            assert(after[j] == ops[j]);
            assert(!ops[j].has_key(op.username, op.subid));
            assert(ops[i].subid <= ops[j].subid);
        }
        resolution_is(after, op.username, i);
    } else {
        resolution_is(after, op.username, ops.len() as int);
    }
}

/// Staging about one name leaves every other one alone.
pub proof fn staging_spares_others(
    ops: Seq<PendingEntry>,
    op: PendingEntry,
    other: [u8; LOCK_USERNAME_BYTES],
)
    requires
        pending_cache_op::staged(ops, op) is Some,
        other != op.username,
    ensures
        pending_cache_op::resolution(pending_cache_op::staged(ops, op)->0, other)
            == pending_cache_op::resolution(ops, other),
{
    let after = pending_cache_op::staged(ops, op)->0;
    last_of_found(ops, op.username, op.subid);
    let at = last_about(ops, other);
    resolution_is(ops, other, at);
    assert forall|j: int| at < j < after.len() implies (
    #[trigger] after[j]).username != other by {
        if j < ops.len() {
            assert(ops[j].username != other);
        }
    }
    resolution_is(after, other, at);
}

/// A refused operation changes nothing, and none is refused while there is room.
pub proof fn refusal_only_when_full(ops: Seq<PendingEntry>, op: PendingEntry)
    ensures
        pending_cache_op::staged(ops, op) is None ==> ops.len()
            >= pending_cache_op::MAX_PENDING_OPS,
        pending_cache_op::staged(ops, op) is None ==> !pending_cache_op::key_occurs(ops, op),
{
    last_of_found(ops, op.username, op.subid);
}

/// Staging at the innermost level, rolling a level back, and committing the innermost level into
/// its parent keep the levels nested.
pub proof fn nesting_is_kept(
    ops: Seq<PendingEntry>,
    op: PendingEntry,
    my_subid: u32,
    parent_subid: u32,
)
    requires
        nested(ops),
    ensures
        innermost(ops, op.subid) && pending_cache_op::staged(ops, op) is Some ==> nested(
            pending_cache_op::staged(ops, op)->0,
        ),
        nested(pending_cache_op::without_level(ops, my_subid)),
        innermost(ops, my_subid) && parent_subid < my_subid && innermost(
            pending_cache_op::without_level(ops, my_subid),
            parent_subid,
        ) ==> nested(
            pending_cache_op::compacted(pending_cache_op::adopted(ops, my_subid, parent_subid)),
        ),
{
    last_of_found(ops, op.username, op.subid);
    filter_keeps_nesting(ops, my_subid);
    if innermost(ops, my_subid) && parent_subid < my_subid && innermost(
        pending_cache_op::without_level(ops, my_subid),
        parent_subid,
    ) {
        let moved = pending_cache_op::adopted(ops, my_subid, parent_subid);
        assert forall|i: int, j: int| 0 <= i <= j < moved.len() implies (
        #[trigger] moved[i]).subid <= (#[trigger] moved[j]).subid by {
            assert(ops[i].subid <= ops[j].subid);
            if ops[i].subid != my_subid {
                outer_is_listed(ops, my_subid, i);
                let rest = pending_cache_op::without_level(ops, my_subid);
                let k = choose|k: int| 0 <= k < rest.len() && rest[k] == ops[i];
                assert(rest[k].subid <= parent_subid);
            }
        }
        compaction_keeps_nesting(moved);
    }
}

proof fn outer_is_listed(ops: Seq<PendingEntry>, subid: u32, i: int)
    requires
        0 <= i < ops.len(),
        ops[i].subid != subid,
    ensures
        pending_cache_op::without_level(ops, subid).contains(ops[i]),
{
    broadcast use vstd::seq_lib::group_filter_ensures;

    let p = |e: PendingEntry| e.subid != subid;
    assert(p(ops[i]));
}

proof fn filter_keeps_nesting(ops: Seq<PendingEntry>, subid: u32)
    requires
        nested(ops),
    ensures
        nested(pending_cache_op::without_level(ops, subid)),
        forall|m: u32|
            innermost(ops, m) ==> innermost(#[trigger] pending_cache_op::without_level(ops, subid), m),
    decreases ops.len(),
{
    reveal(Seq::filter);
    let p = |e: PendingEntry| e.subid != subid;
    let kept = pending_cache_op::without_level(ops, subid);
    if ops.len() > 0 {
        let before = ops.drop_last();
        assert forall|i: int, j: int| 0 <= i <= j < before.len() implies (
        #[trigger] before[i]).subid <= (#[trigger] before[j]).subid by {
            assert(before[i] == ops[i] && before[j] == ops[j]);
        }
        filter_keeps_nesting(before, subid);
        let last = ops.last();
        assert(innermost(before, last.subid)) by {
            assert forall|i: int| 0 <= i < before.len() implies (
            #[trigger] before[i]).subid <= last.subid by {
                assert(before[i] == ops[i]);
                assert(ops[ops.len() - 1] == last);
            }
        }
        assert(innermost(pending_cache_op::without_level(before, subid), last.subid));
        assert forall|m: u32| innermost(ops, m) implies innermost(
            #[trigger] pending_cache_op::without_level(ops, subid),
            m,
        ) by {
            assert(innermost(before, m)) by {
                assert forall|i: int| 0 <= i < before.len() implies (
                #[trigger] before[i]).subid <= m by {
                    assert(before[i] == ops[i]);
                }
            }
            assert(innermost(pending_cache_op::without_level(before, subid), m));
            assert(ops[ops.len() - 1].subid <= m);
        }
    }
}

/// Every compacted operation is one of the original ones.
proof fn compaction_only_removes(ops: Seq<PendingEntry>)
    ensures
        forall|i: int|
            0 <= i < pending_cache_op::compacted(ops).len() ==> ops.contains(
                #[trigger] pending_cache_op::compacted(ops)[i],
            ),
    decreases ops.len(),
{
    if ops.len() > 0 {
        let rest = ops.drop_first();
        compaction_only_removes(rest);
        let kept = pending_cache_op::compacted(ops);
        let inner = pending_cache_op::compacted(rest);
        assert forall|i: int| 0 <= i < kept.len() implies ops.contains(#[trigger] kept[i]) by {
            let shift: int = if pending_cache_op::key_occurs(rest, ops[0]) {
                0
            } else {
                1
            };
            if i >= shift {
                assert(kept[i] == inner[i - shift]);
                assert(rest.contains(inner[i - shift]));
                let k = choose|k: int| 0 <= k < rest.len() && rest[k] == kept[i];
                assert(ops[k + 1] == kept[i]);
            } else {
                assert(ops[0] == kept[i]);
            }
        }
    }
}

proof fn compaction_keeps_nesting(ops: Seq<PendingEntry>)
    requires
        nested(ops),
    ensures
        nested(pending_cache_op::compacted(ops)),
    decreases ops.len(),
{
    if ops.len() > 0 {
        let rest = ops.drop_first();
        assert forall|i: int, j: int| 0 <= i <= j < rest.len() implies (
        #[trigger] rest[i]).subid <= (#[trigger] rest[j]).subid by {
            assert(rest[i] == ops[i + 1] && rest[j] == ops[j + 1]);
        }
        compaction_keeps_nesting(rest);
        compaction_only_removes(rest);
        let inner = pending_cache_op::compacted(rest);
        if !pending_cache_op::key_occurs(rest, ops[0]) {
            let kept = pending_cache_op::compacted(ops);
            assert forall|i: int, j: int| 0 <= i <= j < kept.len() implies (
            #[trigger] kept[i]).subid <= (#[trigger] kept[j]).subid by {
                if i > 0 {
                    assert(kept[i] == inner[i - 1] && kept[j] == inner[j - 1]);
                } else if j > 0 {
                    assert(kept[j] == inner[j - 1]);
                    assert(rest.contains(inner[j - 1]));
                    let k = choose|k: int| 0 <= k < rest.len() && rest[k] == kept[j];
                    assert(ops[k + 1] == kept[j]);
                    assert(ops[0].subid <= ops[k + 1].subid);
                }
            }
        }
    }
}

/// Rolling a savepoint back undoes what was staged in it: whatever was staged at its level, the
/// rollback gives what it would have given without.
pub proof fn rollback_undoes_staging(ops: Seq<PendingEntry>, op: PendingEntry)
    requires
        pending_cache_op::staged(ops, op) is Some,
    ensures
        pending_cache_op::without_level(pending_cache_op::staged(ops, op)->0, op.subid)
            == pending_cache_op::without_level(ops, op.subid),
{
    let i = pending_cache_op::last_of(ops, op.username, op.subid);
    last_of_found(ops, op.username, op.subid);
    if i >= 0 {
        filter_ignores_update(ops, op, i);
    } else {
        reveal(Seq::filter);
        assert(ops.push(op).drop_last() =~= ops);
    }
}

proof fn filter_ignores_update(ops: Seq<PendingEntry>, op: PendingEntry, i: int)
    requires
        0 <= i < ops.len(),
        ops[i].subid == op.subid,
    ensures
        pending_cache_op::without_level(ops.update(i, op), op.subid)
            == pending_cache_op::without_level(ops, op.subid),
    decreases ops.len(),
{
    reveal(Seq::filter);
    let after = ops.update(i, op);
    if i < ops.len() - 1 {
        assert(after.drop_last() =~= ops.drop_last().update(i, op));
        filter_ignores_update(ops.drop_last(), op, i);
    } else {
        assert(after.drop_last() =~= ops.drop_last());
    }
}

/// Rolling back a level that staged nothing changes nothing: with
/// [`rollback_undoes_staging`], a rolled-back savepoint leaves exactly what stood before it.
pub proof fn rollback_restores(ops: Seq<PendingEntry>, subid: u32)
    requires
        forall|i: int| 0 <= i < ops.len() ==> (#[trigger] ops[i]).subid != subid,
    ensures
        pending_cache_op::without_level(ops, subid) == ops,
    decreases ops.len(),
{
    reveal(Seq::filter);
    if ops.len() > 0 {
        let before = ops.drop_last();
        assert forall|i: int| 0 <= i < before.len() implies (
        #[trigger] before[i]).subid != subid by {
            assert(before[i] == ops[i]);
        }
        rollback_restores(before, subid);
        assert(ops[ops.len() - 1].subid != subid);
        assert(before.push(ops.last()) =~= ops);
    } else {
        assert(pending_cache_op::without_level(ops, subid) =~= ops);
    }
}

/// Committing a savepoint changes no name's outcome: what would have been applied before is what
/// would be applied after.
pub proof fn savepoint_commit_keeps_outcome(
    ops: Seq<PendingEntry>,
    my_subid: u32,
    parent_subid: u32,
    name: [u8; LOCK_USERNAME_BYTES],
)
    ensures
        pending_cache_op::resolution(
            pending_cache_op::compacted(pending_cache_op::adopted(ops, my_subid, parent_subid)),
            name,
        ) == pending_cache_op::resolution(ops, name),
{
    let moved = pending_cache_op::adopted(ops, my_subid, parent_subid);
    let at = last_about(ops, name);
    resolution_is(ops, name, at);
    assert forall|j: int| at < j < moved.len() implies (
    #[trigger] moved[j]).username != name by {
        assert(ops[j].username != name);
    }
    resolution_is(moved, name, at);
    compaction_keeps_resolution(moved, name);
}

proof fn compaction_keeps_resolution(ops: Seq<PendingEntry>, name: [u8; LOCK_USERNAME_BYTES])
    ensures
        pending_cache_op::resolution(pending_cache_op::compacted(ops), name)
            == pending_cache_op::resolution(ops, name),
    decreases ops.len(),
{
    if ops.len() > 0 {
        let rest = ops.drop_first();
        compaction_keeps_resolution(rest, name);
        let inner = pending_cache_op::compacted(rest);
        let at = last_about(rest, name);
        resolution_is(rest, name, at);
        if at >= 0 {
            assert forall|j: int| at + 1 < j < ops.len() implies (
            #[trigger] ops[j]).username != name by {
                assert(rest[j - 1] == ops[j]);
            }
            assert(ops[at + 1] == rest[at]);
            resolution_is(ops, name, at + 1);
        } else {
            assert forall|j: int| 0 < j < ops.len() implies (
            #[trigger] ops[j]).username != name by {
                assert(rest[j - 1] == ops[j]);
            }
            if ops[0].username == name {
                resolution_is(ops, name, 0);
                assert(!pending_cache_op::key_occurs(rest, ops[0]));
            } else {
                resolution_is(ops, name, -1);
            }
        }
        if !pending_cache_op::key_occurs(rest, ops[0]) {
            let kept = seq![ops[0]] + inner;
            let k = last_about(inner, name);
            resolution_is(inner, name, k);
            assert forall|j: int| k + 1 < j < kept.len() implies (
            #[trigger] kept[j]).username != name by {
                assert(kept[j] == inner[j - 1]);
            }
            if k >= 0 {
                assert(kept[k + 1] == inner[k]);
                resolution_is(kept, name, k + 1);
            } else if ops[0].username == name {
                assert(kept[0] == ops[0]);
                resolution_is(kept, name, 0);
            } else {
                assert forall|j: int| -1 < j < kept.len() implies (
                #[trigger] kept[j]).username != name by {
                    if j > 0 {
                        assert(kept[j] == inner[j - 1]);
                    }
                }
                resolution_is(kept, name, -1);
            }
        }
    }
}

/// An acknowledgement staged in a savepoint goes with it when it rolls back, so the event stays to
/// be claimed, and stays with the transaction when it commits.
pub proof fn savepoint_decides_acknowledgement(
    m: PendingModel,
    token: crate::auth_event::ClaimToken,
    subid: u32,
    parent_subid: u32,
)
    ensures
        (PendingModel { ack: Some(PendingAck { token, subid }), ..m }).sub_aborted(subid).ack
            is None,
        (PendingModel { ack: Some(PendingAck { token, subid }), ..m }).sub_committed(
            subid,
            parent_subid,
        ).ack == Some(PendingAck { token, subid: parent_subid }),
{
}

/// When the lockout of `name` expires after the operations were applied to a cache with room for
/// them: what the last operation that has an effect says. A lockout that is already over by `now`
/// has none.
pub open spec fn landed_lockout(
    lock: LockModel,
    ops: Seq<PendingEntry>,
    name: [u8; LOCK_USERNAME_BYTES],
    now: i64,
) -> Option<i64>
    decreases ops.len(),
{
    if ops.len() == 0 {
        lock.lockout(name, now)
    } else {
        let earlier = landed_lockout(lock, ops.drop_last(), name, now);
        if ops.last().username != name {
            earlier
        } else {
            match ops.last().decision {
                Some(CacheDecision::SetLock(expires_at)) => if expires_at > now {
                    Some(expires_at)
                } else {
                    earlier
                },
                Some(CacheDecision::ClearLock) => None,
                None => earlier,
            }
        }
    }
}

/// A commit lands the latest decision about every name: afterwards a name is locked exactly as the
/// last operation that has an effect says, unless the cache ran out of room, which it then says of
/// itself.
pub proof fn commit_lands_latest_lockout(
    lock: LockModel,
    ops: Seq<PendingEntry>,
    name: [u8; LOCK_USERNAME_BYTES],
    now: i64,
)
    requires
        lock_laws::distinct(lock),
        name@[0] != 0,
    ensures
        lock_laws::distinct(pending_cache_op::lock_after_all(lock, ops, now)),
        pending_cache_op::lock_after_all(lock, ops, now).readiness() is Overflow
            || pending_cache_op::lock_after_all(lock, ops, now).lockout(name, now)
            == landed_lockout(lock, ops, name, now),
    decreases ops.len(),
{
    if ops.len() > 0 {
        let before = pending_cache_op::lock_after_all(lock, ops.drop_last(), now);
        commit_lands_latest_lockout(lock, ops.drop_last(), name, now);
        let op = ops.last();
        match op.decision {
            Some(CacheDecision::SetLock(expires_at)) => {
                lock_laws::distinct_is_kept(before, op.username, op.decision->0, now);
                if op.username != name {
                    lock_laws::set_spares_others(before, op.username, expires_at, now, name, now);
                } else if expires_at > now && before.set_status(name, expires_at, now)
                    is Applied {
                    lock_laws::set_is_found(before, name, expires_at, now, now);
                }
            },
            Some(CacheDecision::ClearLock) => {
                lock_laws::distinct_is_kept(before, op.username, op.decision->0, now);
                if op.username != name {
                    lock_laws::clear_spares_others(before, op.username, name, now);
                } else {
                    lock_laws::clear_is_gone(before, name, now);
                }
            },
            None => {},
        }
    }
}

/// The expiry entry of `name` after the operations were applied to a cache with room for them:
/// what the last operation that touches it says.
pub open spec fn landed_entry(
    expiry: ExpiryModel,
    ops: Seq<PendingEntry>,
    name: [u8; LOCK_USERNAME_BYTES],
) -> Option<ExpiryEntry>
    decreases ops.len(),
{
    if ops.len() == 0 {
        expiry.entry_of(name)
    } else {
        let earlier = landed_entry(expiry, ops.drop_last(), name);
        if ops.last().username != name {
            earlier
        } else {
            match ops.last().expiry {
                ExpiryDecision::Unchanged => earlier,
                ExpiryDecision::SetEntry { must_change_by, generation, grace_remaining } => Some(
                    ExpiryEntry {
                        username: name,
                        must_change_by,
                        generation,
                        grace_remaining: expiry_cache::at_least_zero(grace_remaining),
                    },
                ),
                ExpiryDecision::Clear => None,
            }
        }
    }
}

/// A commit lands the latest expiry decision about every name, unless the cache ran out of room,
/// which it then says of itself.
pub proof fn commit_lands_latest_expiry(
    expiry: ExpiryModel,
    ops: Seq<PendingEntry>,
    name: [u8; LOCK_USERNAME_BYTES],
)
    requires
        expiry_laws::distinct(expiry),
        expiry_laws::allowances_valid(expiry),
        name@[0] != 0,
    ensures
        expiry_laws::distinct(pending_cache_op::expiry_after_all(expiry, ops)),
        expiry_laws::allowances_valid(pending_cache_op::expiry_after_all(expiry, ops)),
        pending_cache_op::expiry_after_all(expiry, ops).readiness() is Overflow
            || pending_cache_op::expiry_after_all(expiry, ops).entry_of(name) == landed_entry(
            expiry,
            ops,
            name,
        ),
    decreases ops.len(),
{
    if ops.len() > 0 {
        let before = pending_cache_op::expiry_after_all(expiry, ops.drop_last());
        commit_lands_latest_expiry(expiry, ops.drop_last(), name);
        let op = ops.last();
        match op.expiry {
            ExpiryDecision::Unchanged => {},
            ExpiryDecision::SetEntry { must_change_by, generation, grace_remaining } => {
                expiry_laws::shape_is_kept(
                    before,
                    op.username,
                    must_change_by,
                    generation,
                    grace_remaining,
                    0,
                    false,
                );
                if op.username != name {
                    expiry_laws::set_spares_others(
                        before,
                        op.username,
                        must_change_by,
                        generation,
                        grace_remaining,
                        name,
                    );
                } else if before.set_status(name) is Applied {
                    expiry_laws::set_is_found(
                        before,
                        name,
                        must_change_by,
                        generation,
                        grace_remaining,
                    );
                }
            },
            ExpiryDecision::Clear => {
                expiry_laws::shape_is_kept(before, op.username, 0, 0, 0, 0, false);
                if op.username != name {
                    expiry_laws::clear_spares_others(before, op.username, name);
                } else {
                    expiry_laws::clear_is_gone(before, name);
                }
            },
        }
    }
}

} // verus!
