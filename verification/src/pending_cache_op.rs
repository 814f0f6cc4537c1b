//! Cache changes that wait for their transaction to commit.
//!
//! Shared memory is not transactional. A transaction therefore stages what it wants to change and
//! the commit callback applies it, in the order it was staged, so that the latest decision about a
//! name is the one that lands. A rollback discards it, and a savepoint rollback discards exactly
//! what that savepoint staged.

use crate::auth_event;
use crate::auth_event::{AuthEventRing, ClaimToken, RingModel};
use crate::expiry_cache;
use crate::expiry_cache::{ExpiryCache, ExpiryModel};
use crate::lock_cache;
use crate::lock_cache::{CacheDecision, LockCache, LockModel};
use crate::text;
use crate::username::{same_name, LOCK_USERNAME_BYTES};
use vstd::prelude::*;
use vstd::string::*;

verus! {

/// Staged operations per transaction.
pub const MAX_PENDING_OPS: usize = 16;

/// What a staged operation does to the expiry cache.
#[derive(Clone, Copy, PartialEq, Eq, Debug, Structural)]
pub enum ExpiryDecision {
    /// Nothing.
    Unchanged,
    /// Install or refresh the entry with exactly these values.
    SetEntry { must_change_by: i64, generation: i64, grace_remaining: i32 },
    /// Remove the entry.
    Clear,
}

/// One staged operation. No decision leaves the lock cache alone.
#[derive(Clone, Copy, PartialEq, Eq, Debug)]
pub struct PendingEntry {
    pub username: [u8; LOCK_USERNAME_BYTES],
    pub decision: Option<CacheDecision>,
    pub expiry: ExpiryDecision,
    /// The subtransaction that staged it, or adopted it from a committed one.
    pub subid: u32,
}

impl PendingEntry {
    /// The operation is about `name` and belongs to subtransaction `subid`.
    pub open spec fn has_key(self, name: [u8; LOCK_USERNAME_BYTES], subid: u32) -> bool {
        self.username == name && self.subid == subid
    }

    /// The operation that is about the lock cache alone.
    pub open spec fn for_lock(
        username: [u8; LOCK_USERNAME_BYTES],
        decision: CacheDecision,
        subid: u32,
    ) -> PendingEntry {
        PendingEntry {
            username,
            decision: Some(decision),
            expiry: ExpiryDecision::Unchanged,
            subid,
        }
    }

    /// The operation that is about the expiry cache alone.
    pub open spec fn for_expiry(
        username: [u8; LOCK_USERNAME_BYTES],
        expiry: ExpiryDecision,
        subid: u32,
    ) -> PendingEntry {
        PendingEntry { username, decision: None, expiry, subid }
    }

    /// The operation that is about both caches.
    pub open spec fn for_both(
        username: [u8; LOCK_USERNAME_BYTES],
        decision: CacheDecision,
        expiry: ExpiryDecision,
        subid: u32,
    ) -> PendingEntry {
        PendingEntry { username, decision: Some(decision), expiry, subid }
    }
}

/// A staged acknowledgement of an auth-event claim.
#[derive(Clone, Copy, PartialEq, Eq, Debug, Structural)]
pub struct PendingAck {
    pub token: ClaimToken,
    pub subid: u32,
}

/// The staging area is full for this transaction.
#[derive(Clone, Copy, PartialEq, Eq, Debug, Structural)]
pub struct StageCapacityExceeded;

/// What the current transaction has staged, in the order it was staged.
#[derive(Clone, Copy)]
pub struct PendingState {
    entries: [Option<PendingEntry>; MAX_PENDING_OPS],
    len: usize,
    ack: Option<PendingAck>,
}

/// Mathematical model of the staging area.
#[verifier::ext_equal]
pub struct PendingModel {
    pub ops: Seq<PendingEntry>,
    pub ack: Option<PendingAck>,
}

/// The position of the last operation about `name` in subtransaction `subid`; -1 when there is
/// none.
pub open spec fn last_of(
    ops: Seq<PendingEntry>,
    name: [u8; LOCK_USERNAME_BYTES],
    subid: u32,
) -> int
    decreases ops.len(),
{
    if ops.len() == 0 {
        -1
    } else if ops.last().has_key(name, subid) {
        ops.len() - 1
    } else {
        last_of(ops.drop_last(), name, subid)
    }
}

/// The operations after `op` was staged: it takes the place of the last one of its name and level,
/// else it goes to the end. `None` when there is no room.
pub open spec fn staged(ops: Seq<PendingEntry>, op: PendingEntry) -> Option<Seq<PendingEntry>> {
    let i = last_of(ops, op.username, op.subid);
    if i >= 0 {
        Some(ops.update(i, op))
    } else if ops.len() >= MAX_PENDING_OPS {
        None
    } else {
        Some(ops.push(op))
    }
}

/// The operations that level `subid` did not stage.
pub open spec fn without_level(ops: Seq<PendingEntry>, subid: u32) -> Seq<PendingEntry> {
    ops.filter(|e: PendingEntry| e.subid != subid)
}

/// The operation after its level `my_subid` was committed into `parent_subid`.
pub open spec fn reparented(e: PendingEntry, my_subid: u32, parent_subid: u32) -> PendingEntry {
    if e.subid == my_subid {
        PendingEntry { subid: parent_subid, ..e }
    } else {
        e
    }
}

/// The operations after level `my_subid` was committed into `parent_subid`.
pub open spec fn adopted(ops: Seq<PendingEntry>, my_subid: u32, parent_subid: u32) -> Seq<
    PendingEntry,
> {
    ops.map_values(|e: PendingEntry| reparented(e, my_subid, parent_subid))
}

/// Some operation of `ops` has the same name and level as `e`.
pub open spec fn key_occurs(ops: Seq<PendingEntry>, e: PendingEntry) -> bool {
    exists|i: int| 0 <= i < ops.len() && (#[trigger] ops[i]).has_key(e.username, e.subid)
}

/// Of the operations with one name and level only the last, in order.
pub open spec fn compacted(ops: Seq<PendingEntry>) -> Seq<PendingEntry>
    decreases ops.len(),
{
    if ops.len() == 0 {
        ops
    } else {
        let rest = ops.drop_first();
        if key_occurs(rest, ops[0]) {
            compacted(rest)
        } else {
            seq![ops[0]] + compacted(rest)
        }
    }
}

/// What the last operation about `name` decides for the lock cache; `None` when there is none.
pub open spec fn resolution(ops: Seq<PendingEntry>, name: [u8; LOCK_USERNAME_BYTES]) -> Option<
    Option<CacheDecision>,
>
    decreases ops.len(),
{
    if ops.len() == 0 {
        None
    } else if ops.last().username == name {
        Some(ops.last().decision)
    } else {
        resolution(ops.drop_last(), name)
    }
}

/// The lock cache after one operation.
pub open spec fn lock_after(lock: LockModel, op: PendingEntry, now: i64) -> LockModel {
    match op.decision {
        Some(decision) => lock.applied(op.username, decision, now),
        None => lock,
    }
}

/// The expiry cache after one operation.
pub open spec fn expiry_after(expiry: ExpiryModel, op: PendingEntry) -> ExpiryModel {
    match op.expiry {
        ExpiryDecision::Unchanged => expiry,
        ExpiryDecision::SetEntry { must_change_by, generation, grace_remaining } => expiry.with_entry(
            op.username,
            must_change_by,
            generation,
            grace_remaining,
        ),
        ExpiryDecision::Clear => expiry.without_entry(op.username),
    }
}

/// The lock cache after all operations, in order.
pub open spec fn lock_after_all(lock: LockModel, ops: Seq<PendingEntry>, now: i64) -> LockModel
    decreases ops.len(),
{
    if ops.len() == 0 {
        lock
    } else {
        lock_after(lock_after_all(lock, ops.drop_last(), now), ops.last(), now)
    }
}

/// The expiry cache after all operations, in order.
pub open spec fn expiry_after_all(expiry: ExpiryModel, ops: Seq<PendingEntry>) -> ExpiryModel
    decreases ops.len(),
{
    if ops.len() == 0 {
        expiry
    } else {
        expiry_after(expiry_after_all(expiry, ops.drop_last()), ops.last())
    }
}

impl PendingModel {
    /// Nothing staged.
    pub open spec fn empty() -> PendingModel {
        PendingModel { ops: Seq::empty(), ack: None }
    }

    /// The model after level `my_subid` rolled back.
    pub open spec fn sub_aborted(self, my_subid: u32) -> PendingModel {
        PendingModel {
            ops: without_level(self.ops, my_subid),
            ack: match self.ack {
                Some(ack) => if ack.subid == my_subid {
                    None
                } else {
                    Some(ack)
                },
                None => None,
            },
        }
    }

    /// The model after level `my_subid` was committed into `parent_subid`.
    pub open spec fn sub_committed(self, my_subid: u32, parent_subid: u32) -> PendingModel {
        PendingModel {
            ops: compacted(adopted(self.ops, my_subid, parent_subid)),
            ack: match self.ack {
                Some(ack) => if ack.subid == my_subid {
                    Some(PendingAck { subid: parent_subid, ..ack })
                } else {
                    Some(ack)
                },
                None => None,
            },
        }
    }

    /// The ring after the transaction committed.
    pub open spec fn acknowledged(self, ring: RingModel) -> RingModel {
        match self.ack {
            Some(ack) => ring.commit_acked(ack.token),
            None => ring,
        }
    }
}

impl View for PendingState {
    type V = PendingModel;

    closed spec fn view(&self) -> PendingModel {
        PendingModel {
            ops: Seq::new(self.len as nat, |i: int| self.entries@[i]->0),
            ack: self.ack,
        }
    }
}

impl PendingState {
    #[verifier::type_invariant]
    spec fn filled_from_the_front(self) -> bool {
        &&& self.len <= MAX_PENDING_OPS
        &&& forall|i: int| 0 <= i < self.len ==> (#[trigger] self.entries@[i]) is Some
    }

    /// An empty staging area.
    pub fn new() -> (st: PendingState)
        ensures
            st@ == PendingModel::empty(),
    {
        PendingState { entries: [None;MAX_PENDING_OPS], len: 0, ack: None }
    }

    /// How many operations are staged.
    pub fn live(&self) -> (n: usize)
        ensures
            n == self@.ops.len(),
            n <= MAX_PENDING_OPS,
    {
        proof {
            use_type_invariant(self);
        }
        self.len
    }

    /// Whether nothing is staged, neither an operation nor an acknowledgement.
    pub fn is_empty(&self) -> (r: bool)
        ensures
            r == (self@.ops.len() == 0 && self@.ack is None),
    {
        self.live() == 0 && self.ack.is_none()
    }

    /// Discards everything.
    pub fn reset(&mut self)
        ensures
            final(self)@ == PendingModel::empty(),
    {
        *self = PendingState::new();
    }

    /// The operation at position `i`.
    pub fn entry(&self, i: usize) -> (e: PendingEntry)
        requires
            i < self@.ops.len(),
        ensures
            e == self@.ops[i as int],
    {
        proof {
            use_type_invariant(self);
        }
        self.entries[i].unwrap()
    }

    /// The staged acknowledgement.
    pub fn pending_ack(&self) -> (r: Option<PendingAck>)
        ensures
            r == self@.ack,
    {
        self.ack
    }

    fn from_ops(ops: &Vec<PendingEntry>, ack: Option<PendingAck>) -> (st: PendingState)
        requires
            ops@.len() <= MAX_PENDING_OPS,
        ensures
            st@ == (PendingModel { ops: ops@, ack }),
    {
        let mut entries: [Option<PendingEntry>; MAX_PENDING_OPS] = [None;MAX_PENDING_OPS];
        let mut i: usize = 0;
        while i < ops.len()
            invariant
                i <= ops@.len() <= MAX_PENDING_OPS,
                entries@.len() == MAX_PENDING_OPS,
                forall|j: int| 0 <= j < i ==> #[trigger] entries@[j] == Some(ops@[j]),
            decreases ops.len() - i,
        {
            entries[i] = Some(ops[i]);
            i = i + 1;
        }
        let st = PendingState { entries, len: ops.len(), ack };
        assert(st@.ops =~= ops@);
        st
    }

    /// Stages one operation: it overwrites the latest one of the same name and subtransaction, and
    /// never one of another subtransaction. A full area refuses it and changes nothing.
    pub fn stage_entry(
        &mut self,
        username: [u8; LOCK_USERNAME_BYTES],
        decision: Option<CacheDecision>,
        expiry: ExpiryDecision,
        subid: u32,
    ) -> (r: Result<(), StageCapacityExceeded>)
        ensures
            match staged(old(self)@.ops, PendingEntry { username, decision, expiry, subid }) {
                Some(ops) => r is Ok && final(self)@ == (PendingModel { ops, ..old(self)@ }),
                None => r is Err && final(self)@ == old(self)@,
            },
    {
        proof {
            use_type_invariant(&*self);
        }
        let op = PendingEntry { username, decision, expiry, subid };
        let live: usize = self.live();
        let mut entries = self.entries;
        let ghost ops = self@.ops;
        let mut i: usize = live;
        assert(ops.take(live as int) =~= ops);
        while i > 0
            invariant
                i <= live <= MAX_PENDING_OPS,
                live == ops.len(),
                entries == old(self).entries,
                entries@.len() == MAX_PENDING_OPS,
                *self == *old(self),
                self.len == live,
                forall|j: int|
                    0 <= j < live ==> (#[trigger] entries@[j]) is Some && entries@[j]->0 == ops[j],
                ops == old(self)@.ops,
                last_of(ops, username, subid) == last_of(ops.take(i as int), username, subid),
                op == (PendingEntry { username, decision, expiry, subid }),
            decreases i,
        {
            let current = entries[i - 1].unwrap();
            assert(ops.take(i as int).last() == current);
            assert(ops.take(i as int).drop_last() =~= ops.take(i - 1));
            if current.subid == subid && same_name(&current.username, &username) {
                let ack = self.ack;
                entries[i - 1] = Some(op);
                *self = PendingState { entries, len: live, ack };
                assert(self@.ops =~= ops.update(i - 1, op));
                return Ok(());
            }
            i = i - 1;
        }
        assert(last_of(ops, username, subid) == -1);
        if live >= MAX_PENDING_OPS {
            return Err(StageCapacityExceeded);
        }
        let ack = self.ack;
        entries[live] = Some(op);
        *self = PendingState { entries, len: live + 1, ack };
        assert(self@.ops =~= ops.push(op));
        Ok(())
    }

    /// A savepoint rolled back: what that level staged goes, the rest stays in order.
    pub fn on_sub_abort(&mut self, my_subid: u32)
        ensures
            final(self)@ == old(self)@.sub_aborted(my_subid),
    {
        let ghost ops = self@.ops;
        let ghost p = |e: PendingEntry| e.subid != my_subid;
        let live: usize = self.live();
        let mut kept: Vec<PendingEntry> = Vec::new();
        let mut i: usize = 0;
        proof {
            reveal(Seq::filter);
            assert(ops.take(0) =~= Seq::<PendingEntry>::empty());
        }
        while i < live
            invariant
                i <= live == ops.len(),
                live <= MAX_PENDING_OPS,
                ops == self@.ops,
                p == (|e: PendingEntry| e.subid != my_subid),
                kept@ == ops.take(i as int).filter(p),
                kept@.len() <= i,
            decreases live - i,
        {
            let e = self.entry(i);
            proof {
                reveal(Seq::filter);
                assert(ops.take(i + 1).drop_last() =~= ops.take(i as int));
                assert(ops.take(i + 1).last() == e);
            }
            if e.subid != my_subid {
                kept.push(e);
            }
            i = i + 1;
        }
        assert(ops.take(i as int) =~= ops);
        let ack = match self.pending_ack() {
            Some(ack) => {
                if ack.subid == my_subid {
                    None
                } else {
                    Some(ack)
                }
            },
            None => None,
        };
        *self = PendingState::from_ops(&kept, ack);
    }

    /// A savepoint committed: its parent adopts what it staged, and of several operations that
    /// thereby have one name and level only the latest stays.
    pub fn on_sub_commit(&mut self, my_subid: u32, parent_subid: u32)
        ensures
            final(self)@ == old(self)@.sub_committed(my_subid, parent_subid),
    {
        let ghost ops = self@.ops;
        let live: usize = self.live();
        let mut moved: Vec<PendingEntry> = Vec::new();
        let mut i: usize = 0;
        while i < live
            invariant
                i <= live == ops.len(),
                live <= MAX_PENDING_OPS,
                ops == self@.ops,
                moved@.len() == i,
                forall|j: int|
                    0 <= j < i ==> #[trigger] moved@[j] == reparented(
                        ops[j],
                        my_subid,
                        parent_subid,
                    ),
            decreases live - i,
        {
            let mut e = self.entry(i);
            if e.subid == my_subid {
                e.subid = parent_subid;
            }
            moved.push(e);
            i = i + 1;
        }
        assert(moved@ =~= adopted(ops, my_subid, parent_subid));
        let ack = match self.pending_ack() {
            Some(ack) => {
                if ack.subid == my_subid {
                    Some(PendingAck { token: ack.token, subid: parent_subid })
                } else {
                    Some(ack)
                }
            },
            None => None,
        };
        let kept = compact_duplicates(&moved);
        *self = PendingState::from_ops(&kept, ack);
    }

    /// What would be applied to the lock cache for `username`: what its latest operation decides.
    pub fn resolved(&self, username: &[u8; LOCK_USERNAME_BYTES]) -> (r: Option<
        Option<CacheDecision>,
    >)
        ensures
            r == resolution(self@.ops, *username),
    {
        let ghost ops = self@.ops;
        let live: usize = self.live();
        let mut found: Option<Option<CacheDecision>> = None;
        let mut i: usize = 0;
        assert(ops.take(0) =~= Seq::<PendingEntry>::empty());
        while i < live
            invariant
                i <= live == ops.len(),
                ops == self@.ops,
                found == resolution(ops.take(i as int), *username),
            decreases live - i,
        {
            let e = self.entry(i);
            assert(ops.take(i + 1).drop_last() =~= ops.take(i as int));
            assert(ops.take(i + 1).last() == e);
            if same_name(&e.username, username) {
                found = Some(e.decision);
            }
            i = i + 1;
        }
        assert(ops.take(i as int) =~= ops);
        found
    }

    /// Stages the acknowledgement of a claim; it replaces one that was staged before.
    pub fn stage_ack(&mut self, token: ClaimToken, subid: u32)
        ensures
            final(self)@ == (PendingModel {
                ack: Some(PendingAck { token, subid }),
                ..old(self)@
            }),
    {
        proof {
            use_type_invariant(&*self);
        }
        let entries = self.entries;
        let len: usize = self.len;
        *self = PendingState { entries, len, ack: Some(PendingAck { token, subid }) };
    }
}

fn occurs_after(ops: &Vec<PendingEntry>, from: usize, e: &PendingEntry) -> (r: bool)
    requires
        from <= ops@.len(),
    ensures
        r == key_occurs(ops@.skip(from as int), *e),
{
    let ghost rest = ops@.skip(from as int);
    let mut i: usize = from;
    while i < ops.len()
        invariant
            from <= i <= ops@.len(),
            rest == ops@.skip(from as int),
            forall|j: int|
                0 <= j < i - from ==> !(#[trigger] rest[j]).has_key(e.username, e.subid),
        decreases ops.len() - i,
    {
        if ops[i].subid == e.subid && same_name(&ops[i].username, &e.username) {
            assert(rest[i - from].has_key(e.username, e.subid));
            return true;
        }
        assert(rest[i - from] == ops@[i as int]);
        i = i + 1;
    }
    false
}

/// Removes every operation that a later one of the same name and level supersedes.
fn compact_duplicates(ops: &Vec<PendingEntry>) -> (kept: Vec<PendingEntry>)
    requires
        ops@.len() <= MAX_PENDING_OPS,
    ensures
        kept@ == compacted(ops@),
        kept@.len() <= ops@.len(),
{
    let mut kept: Vec<PendingEntry> = Vec::new();
    let mut i: usize = 0;
    assert(ops@.skip(0) =~= ops@);
    while i < ops.len()
        invariant
            i <= ops@.len(),
            kept@.len() <= i,
            compacted(ops@) == kept@ + compacted(ops@.skip(i as int)),
        decreases ops.len() - i,
    {
        let e = ops[i];
        let ghost here = ops@.skip(i as int);
        assert(here.drop_first() =~= ops@.skip(i + 1));
        assert(here[0] == e);
        if !occurs_after(ops, i + 1, &e) {
            let ghost before = kept@;
            kept.push(e);
            assert(before + (seq![e] + compacted(ops@.skip(i + 1))) =~= kept@ + compacted(
                ops@.skip(i + 1),
            ));
        }
        i = i + 1;
    }
    assert(ops@.skip(i as int) =~= Seq::<PendingEntry>::empty());
    assert(kept@ + compacted(ops@.skip(i as int)) =~= kept@);
    kept
}

/// The refusal of a transaction that stages too much.
pub open spec fn capacity_message() -> Seq<char> {
    "password_profile: more than "@ + text::decimal(MAX_PENDING_OPS as int)
        + " pending lock cache operations in one transaction; aborting the transaction rather than dropping a lockout update"@
}

fn capacity_text() -> (r: String)
    ensures
        r@ == capacity_message(),
{
    let mut message = "password_profile: more than ".to_string();
    text::append_count(&mut message, MAX_PENDING_OPS as u64);
    message.append(
        " pending lock cache operations in one transaction; aborting the transaction rather than dropping a lockout update",
    );
    message
}

/// Stages a lock and an expiry decision about one name as one operation.
pub fn stage_inner(
    pending: &mut PendingState,
    username_bytes: [u8; LOCK_USERNAME_BYTES],
    decision: Option<CacheDecision>,
    expiry: ExpiryDecision,
    subid: u32,
) -> (r: Result<(), String>)
    ensures
        match staged(
            old(pending)@.ops,
            PendingEntry { username: username_bytes, decision, expiry, subid },
        ) {
            Some(ops) => r is Ok && final(pending)@ == (PendingModel { ops, ..old(pending)@ }),
            None => {
                &&& r matches Err(e)
                &&& e@ == capacity_message()
                &&& final(pending)@ == old(pending)@
            },
        },
{
    match pending.stage_entry(username_bytes, decision, expiry, subid) {
        Ok(()) => Ok(()),
        Err(StageCapacityExceeded) => Err(capacity_text()),
    }
}

/// Stages a lock-cache decision.
pub fn stage(
    pending: &mut PendingState,
    username_bytes: [u8; LOCK_USERNAME_BYTES],
    decision: CacheDecision,
    subid: u32,
) -> (r: Result<(), String>)
    ensures
        match staged(
            old(pending)@.ops,
            PendingEntry::for_lock(username_bytes, decision, subid),
        ) {
            Some(ops) => r is Ok && final(pending)@ == (PendingModel { ops, ..old(pending)@ }),
            None => {
                &&& r matches Err(e)
                &&& e@ == capacity_message()
                &&& final(pending)@ == old(pending)@
            },
        },
{
    stage_inner(pending, username_bytes, Some(decision), ExpiryDecision::Unchanged, subid)
}

/// Stages an expiry-cache decision that leaves the lock cache alone.
pub fn stage_expiry(
    pending: &mut PendingState,
    username_bytes: [u8; LOCK_USERNAME_BYTES],
    expiry: ExpiryDecision,
    subid: u32,
) -> (r: Result<(), String>)
    ensures
        match staged(
            old(pending)@.ops,
            PendingEntry::for_expiry(username_bytes, expiry, subid),
        ) {
            Some(ops) => r is Ok && final(pending)@ == (PendingModel { ops, ..old(pending)@ }),
            None => {
                &&& r matches Err(e)
                &&& e@ == capacity_message()
                &&& final(pending)@ == old(pending)@
            },
        },
{
    stage_inner(pending, username_bytes, None, expiry, subid)
}

/// Stages a lock-cache and an expiry-cache decision about one role.
pub fn stage_combined(
    pending: &mut PendingState,
    username_bytes: [u8; LOCK_USERNAME_BYTES],
    decision: CacheDecision,
    expiry: ExpiryDecision,
    subid: u32,
) -> (r: Result<(), String>)
    ensures
        match staged(
            old(pending)@.ops,
            PendingEntry::for_both(username_bytes, decision, expiry, subid),
        ) {
            Some(ops) => r is Ok && final(pending)@ == (PendingModel { ops, ..old(pending)@ }),
            None => {
                &&& r matches Err(e)
                &&& e@ == capacity_message()
                &&& final(pending)@ == old(pending)@
            },
        },
{
    stage_inner(pending, username_bytes, Some(decision), expiry, subid)
}

/// Applies what is staged to the lock cache, in the order it was staged.
pub fn apply_lock_ops(pending: &PendingState, lock: &mut LockCache, now: i64)
    ensures
        final(lock)@ == lock_after_all(old(lock)@, pending@.ops, now),
{
    let ghost ops = pending@.ops;
    let live: usize = pending.live();
    let mut i: usize = 0;
    assert(ops.take(0) =~= Seq::<PendingEntry>::empty());
    while i < live
        invariant
            i <= live == ops.len(),
            ops == pending@.ops,
            lock@ == lock_after_all(old(lock)@, ops.take(i as int), now),
        decreases live - i,
    {
        let op = pending.entry(i);
        assert(ops.take(i + 1).drop_last() =~= ops.take(i as int));
        assert(ops.take(i + 1).last() == op);
        match op.decision {
            None => {},
            Some(CacheDecision::SetLock(expires_at)) => {
                let _ = lock_cache::set(lock, &op.username, expires_at, now);
            },
            Some(CacheDecision::ClearLock) => {
                let _ = lock_cache::clear(lock, &op.username);
            },
        }
        i = i + 1;
    }
    assert(ops.take(i as int) =~= ops);
}

/// Applies what is staged to the expiry cache, in the order it was staged.
pub fn apply_expiry_ops(pending: &PendingState, expiry: &mut ExpiryCache)
    ensures
        final(expiry)@ == expiry_after_all(old(expiry)@, pending@.ops),
{
    let ghost ops = pending@.ops;
    let live: usize = pending.live();
    let mut i: usize = 0;
    assert(ops.take(0) =~= Seq::<PendingEntry>::empty());
    while i < live
        invariant
            i <= live == ops.len(),
            ops == pending@.ops,
            expiry@ == expiry_after_all(old(expiry)@, ops.take(i as int)),
        decreases live - i,
    {
        let op = pending.entry(i);
        assert(ops.take(i + 1).drop_last() =~= ops.take(i as int));
        assert(ops.take(i + 1).last() == op);
        match op.expiry {
            ExpiryDecision::Unchanged => {},
            ExpiryDecision::SetEntry { must_change_by, generation, grace_remaining } => {
                let _ = expiry_cache::set_entry(
                    expiry,
                    &op.username,
                    must_change_by,
                    generation,
                    grace_remaining,
                );
            },
            ExpiryDecision::Clear => {
                let _ = expiry_cache::clear_entry(expiry, &op.username);
            },
        }
        i = i + 1;
    }
    assert(ops.take(i as int) =~= ops);
}

/// Acknowledges the staged claim.
pub fn acknowledge_staged(pending: &PendingState, ring: &mut AuthEventRing)
    ensures
        final(ring)@ == pending@.acknowledged(old(ring)@),
{
    match pending.pending_ack() {
        Some(ack) => {
            let _ = auth_event::ack_claim(ring, ack.token);
        },
        None => {},
    }
}

/// Applies everything that is staged: the lock cache first, then the expiry cache, then the
/// acknowledgement. Nothing is left for the next transaction.
pub fn apply_all(
    pending: &mut PendingState,
    lock: &mut LockCache,
    expiry: &mut ExpiryCache,
    ring: &mut AuthEventRing,
    now: i64,
)
    ensures
        final(lock)@ == lock_after_all(old(lock)@, old(pending)@.ops, now),
        final(expiry)@ == expiry_after_all(old(expiry)@, old(pending)@.ops),
        final(ring)@ == old(pending)@.acknowledged(old(ring)@),
        final(pending)@ == PendingModel::empty(),
{
    apply_lock_ops(pending, lock, now);
    apply_expiry_ops(pending, expiry);
    acknowledge_staged(pending, ring);
    pending.reset();
}

/// What happened to the transaction.
#[derive(Clone, Copy, PartialEq, Eq, Debug, Structural)]
pub enum XactEvent {
    /// It was committed, possibly by a parallel worker.
    Commit,
    /// It was rolled back, possibly by a parallel worker.
    Abort,
    /// It is about to be prepared for a two-phase commit.
    PrePrepare,
    /// It was prepared.
    Prepare,
    /// Anything else.
    Other,
}

/// What is to be done with the staged work.
#[derive(Clone, Copy, PartialEq, Eq, Debug, Structural)]
pub enum XactAction {
    /// Apply it, as [`apply_all`] does.
    Apply,
    /// Discard it.
    Discard,
    /// Leave it staged.
    Keep,
}

/// Why a transaction with staged work cannot be prepared: what is staged would not survive until
/// `COMMIT PREPARED`.
pub open spec fn prepare_message() -> Seq<char> {
    "password_profile: PREPARE TRANSACTION is not supported while lock cache updates are pending; commit or roll back this transaction instead"@
}

/// Decides what a transaction event does to the staged work. A commit applies it, a rollback
/// discards it, and preparing is refused while anything is staged, so that nothing is staged once
/// a transaction was prepared.
pub fn xact_callback(event: XactEvent, pending: &PendingState) -> (r: Result<
    XactAction,
    &'static str,
>)
    ensures
        r is Err <==> event is PrePrepare && (pending@.ops.len() > 0 || pending@.ack is Some),
        match r {
            Ok(action) => action == match event {
                XactEvent::Commit => XactAction::Apply,
                XactEvent::Abort => XactAction::Discard,
                XactEvent::PrePrepare => XactAction::Keep,
                XactEvent::Prepare => XactAction::Discard,
                XactEvent::Other => XactAction::Keep,
            },
            Err(e) => e@ == prepare_message(),
        },
{
    match event {
        XactEvent::Commit => Ok(XactAction::Apply),
        XactEvent::Abort => Ok(XactAction::Discard),
        XactEvent::PrePrepare => {
            if !pending.is_empty() {
                return Err(
                    "password_profile: PREPARE TRANSACTION is not supported while lock cache updates are pending; commit or roll back this transaction instead",
                );
            }
            Ok(XactAction::Keep)
        },
        XactEvent::Prepare => Ok(XactAction::Discard),
        XactEvent::Other => Ok(XactAction::Keep),
    }
}

/// What happened to a savepoint.
#[derive(Clone, Copy, PartialEq, Eq, Debug, Structural)]
pub enum SubXactEvent {
    AbortSub,
    CommitSub,
    Other,
}

impl PendingModel {
    /// The model after a savepoint event.
    pub open spec fn after_savepoint(
        self,
        event: SubXactEvent,
        my_subid: u32,
        parent_subid: u32,
    ) -> PendingModel {
        match event {
            SubXactEvent::AbortSub => self.sub_aborted(my_subid),
            SubXactEvent::CommitSub => self.sub_committed(my_subid, parent_subid),
            SubXactEvent::Other => self,
        }
    }
}

/// Reacts to a savepoint event.
pub fn subxact_callback(
    event: SubXactEvent,
    pending: &mut PendingState,
    my_subid: u32,
    parent_subid: u32,
)
    ensures
        final(pending)@ == old(pending)@.after_savepoint(event, my_subid, parent_subid),
{
    match event {
        SubXactEvent::AbortSub => {
            pending.on_sub_abort(my_subid);
        },
        SubXactEvent::CommitSub => {
            pending.on_sub_commit(my_subid, parent_subid);
        },
        SubXactEvent::Other => {},
    }
}

} // verus!
