//! Laws of staged work: what staging, savepoints and the end of a transaction do to it.

use crate::auth_event::{ClaimToken, RingModel};
use crate::expiry_cache::ExpiryModel;
use crate::lock_cache::{CacheDecision, LockModel};
use crate::pending_cache_op;
use crate::pending_cache_op::{
    ExpiryDecision, PendingAck, PendingEntry, PendingModel, PendingState, SubXactEvent, XactAction,
    XactEvent,
};
use crate::username::LOCK_USERNAME_BYTES;
use vstd::prelude::*;

verus! {

/// The two operations are about one role and were staged in one savepoint.
pub open spec fn same_subject(a: PendingEntry, b: PendingEntry) -> bool {
    a.username == b.username && a.subid == b.subid
}

proof fn last_is(ops: Seq<PendingEntry>, op: PendingEntry)
    ensures
        ({
            let i = pending_cache_op::last_of(ops, op.username, op.subid);
            &&& -1 <= i < ops.len()
            &&& i >= 0 ==> same_subject(ops[i], op)
            &&& forall|j: int| i < j < ops.len() ==> !same_subject(#[trigger] ops[j], op)
        }),
    decreases ops.len(),
{
    if ops.len() > 0 && !ops.last().has_key(op.username, op.subid) {
        let before = ops.drop_last();
        last_is(before, op);
        let i = pending_cache_op::last_of(before, op.username, op.subid);
        assert forall|j: int| i < j < ops.len() implies !same_subject(#[trigger] ops[j], op) by {
            if j < before.len() {
                assert(before[j] == ops[j]);
            }
        }
    }
}

/// An operation is refused exactly when 16 others are staged and none of them is about the same role
/// in the same savepoint. Otherwise it takes the place of such a one or goes to the end, and no other
/// is touched.
pub proof fn staging_is_exact(ops: Seq<PendingEntry>, op: PendingEntry)
    ensures
        ({
            let after = pending_cache_op::staged(ops, op);
            let known = exists|i: int|
                0 <= i < ops.len() && same_subject(#[trigger] ops[i], op);
            &&& after is None <==> ops.len() >= 16 && !known
            &&& after is Some && known ==> after->0.len() == ops.len()
            &&& after is Some && !known ==> after->0 == ops.push(op)
            &&& after is Some ==> after->0.contains(op)
            &&& after is Some ==> forall|i: int|
                0 <= i < ops.len() ==> {
                    ||| #[trigger] after->0[i] == ops[i]
                    ||| same_subject(ops[i], op) && after->0[i] == op
                }
        }),
{
    last_is(ops, op);
    let i = pending_cache_op::last_of(ops, op.username, op.subid);
    if let Some(after) = pending_cache_op::staged(ops, op) {
        if i >= 0 {
            assert(same_subject(ops[i], op));
            assert(after[i] == op);
        } else {
            assert(after[ops.len() as int] == op);
        }
    }
}

/// What is to be applied for a role is what the last operation about it decides; without one there is
/// nothing to apply.
pub proof fn the_last_operation_decides(ops: Seq<PendingEntry>, name: [u8; LOCK_USERNAME_BYTES])
    ensures
        ({
            let r = pending_cache_op::resolution(ops, name);
            &&& r is None <==> forall|i: int|
                0 <= i < ops.len() ==> (#[trigger] ops[i]).username != name
            &&& r is Some ==> exists|i: int|
                {
                    &&& 0 <= i < ops.len()
                    &&& (#[trigger] ops[i]).username == name
                    &&& r == Some(ops[i].decision)
                    &&& forall|j: int| i < j < ops.len() ==> (#[trigger] ops[j]).username != name
                }
        }),
    decreases ops.len(),
{
    if ops.len() > 0 {
        let before = ops.drop_last();
        if ops.last().username == name {
            let i = ops.len() - 1;
            assert(ops[i].username == name);
        } else {
            the_last_operation_decides(before, name);
            let r = pending_cache_op::resolution(before, name);
            if r is None {
                assert forall|i: int| 0 <= i < ops.len() implies (
                #[trigger] ops[i]).username != name by {
                    if i < before.len() {
                        assert(before[i] == ops[i]);
                    }
                }
            } else {
                let i = choose|i: int|
                    {
                        &&& 0 <= i < before.len()
                        &&& (#[trigger] before[i]).username == name
                        &&& r == Some(before[i].decision)
                        &&& forall|j: int|
                            i < j < before.len() ==> (#[trigger] before[j]).username != name
                    };
                assert(ops[i] == before[i]);
                assert forall|j: int| i < j < ops.len() implies (
                #[trigger] ops[j]).username != name by {
                    if j < before.len() {
                        assert(before[j] == ops[j]);
                    }
                }
            }
        }
    }
}

/// A rolled back savepoint takes exactly its own operations and its own acknowledgement with it.
pub proof fn rollback_takes_only_its_own(m: PendingModel, subid: u32, e: PendingEntry)
    ensures
        ({
            let after = m.after_savepoint(SubXactEvent::AbortSub, subid, 0);
            &&& after.ops.contains(e) <==> m.ops.contains(e) && e.subid != subid
            &&& m.ack matches Some(ack) ==> after.ack == if ack.subid == subid {
                None
            } else {
                Some(ack)
            }
            &&& m.ack is None ==> after.ack is None
        }),
{
    let p = |e: PendingEntry| e.subid != subid;
    let after = m.after_savepoint(SubXactEvent::AbortSub, subid, 0);
    if m.ops.contains(e) && e.subid != subid {
        let i = choose|i: int| 0 <= i < m.ops.len() && m.ops[i] == e;
        broadcast use vstd::seq_lib::group_filter_ensures;

        assert(p(m.ops[i]));
        assert(after.ops.contains(m.ops[i]));
    }
    if after.ops.contains(e) {
        let k = choose|k: int| 0 <= k < after.ops.len() && after.ops[k] == e;
        m.ops.lemma_filter_pred(p, k);
        m.ops.lemma_filter_contains_rev(p, e);
    }
}

/// The operation with its savepoint's number replaced by the parent's.
pub open spec fn moved_up(e: PendingEntry, my_subid: u32, parent_subid: u32) -> PendingEntry {
    PendingEntry {
        username: e.username,
        decision: e.decision,
        expiry: e.expiry,
        subid: if e.subid == my_subid {
            parent_subid
        } else {
            e.subid
        },
    }
}

/// A committed savepoint hands everything to its parent: what is staged afterwards was staged before,
/// with the same decisions, nothing belongs to the savepoint any more, every role that something was
/// staged about still has something, and the acknowledgement goes up with its claim.
pub proof fn commit_hands_over(m: PendingModel, my_subid: u32, parent_subid: u32, n: int)
    requires
        my_subid != parent_subid,
    ensures
        ({
            let after = m.after_savepoint(SubXactEvent::CommitSub, my_subid, parent_subid);
            &&& after.ops.len() <= m.ops.len()
            &&& 0 <= n < after.ops.len() ==> after.ops[n].subid != my_subid && exists|i: int|
                0 <= i < m.ops.len() && moved_up(#[trigger] m.ops[i], my_subid, parent_subid)
                    == after.ops[n]
            &&& 0 <= n < m.ops.len() ==> concerned(
                after.ops,
                moved_up(m.ops[n], my_subid, parent_subid),
            )
            &&& m.ack matches Some(ack) ==> {
                &&& after.ack is Some
                &&& after.ack->0.token == ack.token
                &&& after.ack->0.subid == if ack.subid == my_subid {
                    parent_subid
                } else {
                    ack.subid
                }
            }
            &&& m.ack is None ==> after.ack is None
        }),
{
    let moved = pending_cache_op::adopted(m.ops, my_subid, parent_subid);
    let after = m.after_savepoint(SubXactEvent::CommitSub, my_subid, parent_subid);
    compaction_adds_nothing(moved);
    if 0 <= n < after.ops.len() {
        assert(moved.contains(after.ops[n]));
        let i = choose|i: int| 0 <= i < moved.len() && moved[i] == after.ops[n];
        assert(moved_up(m.ops[i], my_subid, parent_subid) == after.ops[n]);
    }
    if 0 <= n < m.ops.len() {
        let e = moved_up(m.ops[n], my_subid, parent_subid);
        assert(same_subject(moved[n], e));
        compaction_keeps_concern(moved, e);
    }
}

/// One of `ops` is about the same role in the same savepoint as `e`.
pub open spec fn concerned(ops: Seq<PendingEntry>, e: PendingEntry) -> bool {
    exists|k: int| 0 <= k < ops.len() && same_subject(#[trigger] ops[k], e)
}

proof fn compaction_adds_nothing(ops: Seq<PendingEntry>)
    ensures
        pending_cache_op::compacted(ops).len() <= ops.len(),
        forall|k: int|
            0 <= k < pending_cache_op::compacted(ops).len() ==> ops.contains(
                #[trigger] pending_cache_op::compacted(ops)[k],
            ),
    decreases ops.len(),
{
    if ops.len() > 0 {
        let rest = ops.drop_first();
        let inner = pending_cache_op::compacted(rest);
        let kept = pending_cache_op::compacted(ops);
        compaction_adds_nothing(rest);
        let shift = if pending_cache_op::key_occurs(rest, ops[0]) {
            0int
        } else {
            1int
        };
        assert forall|k: int| 0 <= k < kept.len() implies ops.contains(#[trigger] kept[k]) by {
            if k >= shift {
                assert(kept[k] == inner[k - shift]);
                assert(rest.contains(inner[k - shift]));
                let i = choose|i: int| 0 <= i < rest.len() && rest[i] == inner[k - shift];
                assert(ops[i + 1] == rest[i]);
            } else {
                assert(kept[0] == ops[0]);
            }
        }
    }
}

proof fn compaction_keeps_concern(ops: Seq<PendingEntry>, e: PendingEntry)
    requires
        concerned(ops, e),
    ensures
        concerned(pending_cache_op::compacted(ops), e),
    decreases ops.len(),
{
    let rest = ops.drop_first();
    let inner = pending_cache_op::compacted(rest);
    let kept = pending_cache_op::compacted(ops);
    let k = choose|k: int| 0 <= k < ops.len() && same_subject(#[trigger] ops[k], e);
    let superseded = pending_cache_op::key_occurs(rest, ops[0]);
    if k > 0 {
        assert(same_subject(rest[k - 1], e));
    } else if superseded {
        let j = choose|j: int|
            0 <= j < rest.len() && (#[trigger] rest[j]).has_key(ops[0].username, ops[0].subid);
        assert(same_subject(rest[j], e));
    }
    if k > 0 || superseded {
        compaction_keeps_concern(rest, e);
        let n = choose|n: int| 0 <= n < inner.len() && same_subject(#[trigger] inner[n], e);
        if superseded {
            assert(same_subject(kept[n], e));
        } else {
            assert(kept[n + 1] == inner[n]);
        }
    } else {
        assert(same_subject(kept[0], e));
    }
}

/// Any other savepoint event leaves the staged work alone.
pub proof fn other_savepoint_events_change_nothing(m: PendingModel, my_subid: u32, parent_subid: u32)
    ensures
        m.after_savepoint(SubXactEvent::Other, my_subid, parent_subid) == m,
{
}

/// A commit applies what is staged, a rollback discards it, and nothing may be prepared while anything
/// is staged, an operation or an acknowledgement; a prepared transaction leaves nothing behind.
pub proof fn transaction_end_decides(
    pending: &PendingState,
    event: XactEvent,
    r: Result<XactAction, &'static str>,
    empty: bool,
)
    requires
        call_ensures(pending_cache_op::xact_callback, (event, pending), r),
        call_ensures(PendingState::is_empty, (pending,), empty),
    ensures
        event == XactEvent::Commit ==> r == Ok::<XactAction, &'static str>(XactAction::Apply),
        event == XactEvent::Abort ==> r == Ok::<XactAction, &'static str>(XactAction::Discard),
        event == XactEvent::Prepare ==> r == Ok::<XactAction, &'static str>(XactAction::Discard),
        event == XactEvent::Other ==> r == Ok::<XactAction, &'static str>(XactAction::Keep),
        event == XactEvent::PrePrepare ==> (r is Err <==> pending@.ops.len() >= 1 || pending@.ack
            is Some),
        event == XactEvent::PrePrepare && r is Ok ==> r == Ok::<XactAction, &'static str>(
            XactAction::Keep,
        ),
        empty <==> pending@.ops.len() == 0 && pending@.ack is None,
{
}

/// A commit acknowledges exactly the staged claim.
pub proof fn commit_acknowledges_the_claim(m: PendingModel, ring: RingModel, token: ClaimToken, subid: u32)
    ensures
        m.ack == Some(PendingAck { token, subid }) ==> m.acknowledged(ring) == ring.commit_acked(
            token,
        ),
        m.ack is None ==> m.acknowledged(ring) == ring,
{
}

/// An operation about one cache leaves the other alone, and each has the effect on its own cache that
/// was decided on.
pub proof fn operations_mind_their_own_cache(
    lock: LockModel,
    expiry: ExpiryModel,
    name: [u8; LOCK_USERNAME_BYTES],
    until: i64,
    must_change_by: i64,
    generation: i64,
    grace_remaining: i32,
    subid: u32,
    now: i64,
)
    ensures
        ({
            let set = CacheDecision::SetLock(until);
            let entry = ExpiryDecision::SetEntry { must_change_by, generation, grace_remaining };
            let locking = PendingEntry::for_lock(name, set, subid);
            let unlocking = PendingEntry::for_lock(name, CacheDecision::ClearLock, subid);
            let expiring = PendingEntry::for_expiry(name, entry, subid);
            let clearing = PendingEntry::for_expiry(name, ExpiryDecision::Clear, subid);
            let both = PendingEntry::for_both(name, set, entry, subid);
            &&& pending_cache_op::lock_after(lock, locking, now) == lock.with_lock(name, until, now)
            &&& pending_cache_op::lock_after(lock, unlocking, now) == lock.without_lock(name)
            &&& pending_cache_op::expiry_after(expiry, locking) == expiry
            &&& pending_cache_op::expiry_after(expiry, unlocking) == expiry
            &&& pending_cache_op::lock_after(lock, expiring, now) == lock
            &&& pending_cache_op::lock_after(lock, clearing, now) == lock
            &&& pending_cache_op::expiry_after(expiry, expiring) == expiry.with_entry(
                name,
                must_change_by,
                generation,
                grace_remaining,
            )
            &&& pending_cache_op::expiry_after(expiry, clearing) == expiry.without_entry(name)
            &&& pending_cache_op::lock_after(lock, both, now) == lock.with_lock(name, until, now)
            &&& pending_cache_op::expiry_after(expiry, both) == expiry.with_entry(
                name,
                must_change_by,
                generation,
                grace_remaining,
            )
            &&& locking.username == name && expiring.username == name && both.username == name
            &&& locking.subid == subid && expiring.subid == subid && both.subid == subid
        }),
{
}

/// A committed savepoint leaves at most one operation about a role at each level: of several, only the
/// one that was staged last.
pub proof fn commit_leaves_one_of_each(
    m: PendingModel,
    my_subid: u32,
    parent_subid: u32,
    i: int,
    j: int,
)
    requires
        0 <= i < j < m.after_savepoint(SubXactEvent::CommitSub, my_subid, parent_subid).ops.len(),
    ensures
        ({
            let ops = m.after_savepoint(SubXactEvent::CommitSub, my_subid, parent_subid).ops;
            !same_subject(ops[i], ops[j])
        }),
{
    compaction_leaves_one_of_each(
        pending_cache_op::adopted(m.ops, my_subid, parent_subid),
        i,
        j,
    );
}

proof fn compaction_leaves_one_of_each(ops: Seq<PendingEntry>, i: int, j: int)
    requires
        0 <= i < j < pending_cache_op::compacted(ops).len(),
    ensures
        !same_subject(pending_cache_op::compacted(ops)[i], pending_cache_op::compacted(ops)[j]),
    decreases ops.len(),
{
    let rest = ops.drop_first();
    let inner = pending_cache_op::compacted(rest);
    let kept = pending_cache_op::compacted(ops);
    if pending_cache_op::key_occurs(rest, ops[0]) {
        compaction_leaves_one_of_each(rest, i, j);
    } else {
        assert(kept[j] == inner[j - 1]);
        if i > 0 {
            assert(kept[i] == inner[i - 1]);
            compaction_leaves_one_of_each(rest, i - 1, j - 1);
        } else {
            compaction_adds_nothing(rest);
            assert(rest.contains(inner[j - 1]));
            let k = choose|k: int| 0 <= k < rest.len() && rest[k] == inner[j - 1];
            assert(!rest[k].has_key(ops[0].username, ops[0].subid));
        }
    }
}

} // verus!
