//! Shared cache of active account lockouts.
//!
//! The cache is bounded and never evicts an active lockout: what does not fit marks it
//! `Overflow`, which pauses lockout enforcement instead of dropping somebody's lockout in silence.

use crate::search;
use crate::username;
use crate::username::{encode_username, same_name, LOCK_USERNAME_BYTES};
use vstd::prelude::*;

verus! {

/// Slots of the cache.
pub const LOCK_CACHE_SIZE: usize = 2048;

/// Microseconds of a second.
pub const MICROS_PER_SEC: i64 = 1_000_000;

/// One lockout; an entry whose name begins with NUL is unused.
#[derive(Clone, Copy, PartialEq, Eq, Debug)]
pub struct LockEntry {
    pub username: [u8; LOCK_USERNAME_BYTES],
    pub expires_at: i64,
}

impl LockEntry {
    /// The unused entry.
    pub open spec fn blank() -> LockEntry {
        LockEntry { username: [0u8; LOCK_USERNAME_BYTES], expires_at: 0 }
    }

    /// The unused entry.
    pub fn new() -> (e: LockEntry)
        ensures
            e == LockEntry::blank(),
    {
        LockEntry { username: [0u8; LOCK_USERNAME_BYTES], expires_at: 0 }
    }

    /// The entry holds a name.
    pub open spec fn used(self) -> bool {
        self.username@[0] != 0
    }

    /// The entry is a lockout that still holds at `now`.
    pub open spec fn active(self, now: i64) -> bool {
        self.used() && self.expires_at > now
    }

    /// The entry is in use for `name`.
    pub open spec fn is_for(self, name: [u8; LOCK_USERNAME_BYTES]) -> bool {
        self.used() && self.username == name
    }
}

/// Whether the cache can be trusted to hold every active lockout.
#[derive(Clone, Copy, PartialEq, Eq, Debug, Structural)]
pub enum CacheState {
    /// Never hydrated, or hydration failed.
    NotReady,
    /// Every active lockout is in the cache.
    Ready,
    /// Capacity was exceeded, so coverage is incomplete.
    Overflow,
    /// The worker stopped after a failure.
    WorkerFailed,
}

impl CacheState {
    /// The state a raw number stands for; an unknown number is `NotReady`.
    pub open spec fn of_raw(raw: i32) -> CacheState {
        if raw == 1 {
            CacheState::Ready
        } else if raw == 2 {
            CacheState::Overflow
        } else if raw == 3 {
            CacheState::WorkerFailed
        } else {
            CacheState::NotReady
        }
    }

    /// The number a state is stored under.
    pub open spec fn number(self) -> i32 {
        match self {
            CacheState::NotReady => 0,
            CacheState::Ready => 1,
            CacheState::Overflow => 2,
            CacheState::WorkerFailed => 3,
        }
    }

    /// Reads a raw number; an unknown one is `NotReady`.
    pub fn from_raw(raw: i32) -> (r: CacheState)
        ensures
            r == CacheState::of_raw(raw),
    {
        match raw {
            1 => CacheState::Ready,
            2 => CacheState::Overflow,
            3 => CacheState::WorkerFailed,
            _ => CacheState::NotReady,
        }
    }

    /// The number the state is stored under.
    pub fn raw(self) -> (r: i32)
        ensures
            r == self.number(),
    {
        match self {
            CacheState::NotReady => 0,
            CacheState::Ready => 1,
            CacheState::Overflow => 2,
            CacheState::WorkerFailed => 3,
        }
    }
}

/// Result of one cache mutation.
#[derive(Clone, Copy, PartialEq, Eq, Debug, Structural)]
#[must_use]
pub enum CacheOpStatus {
    Applied,
    /// It could not be represented without evicting an active lockout.
    Overflowed,
}

/// What the authoritative database state says the cache entry of one name should become.
#[derive(Clone, Copy, PartialEq, Eq, Debug, Structural)]
pub enum CacheDecision {
    /// Install or refresh the entry with exactly this expiry.
    SetLock(i64),
    /// Remove the entry.
    ClearLock,
}

/// The cache as it lies in shared memory.
#[derive(Clone, Copy)]
pub struct LockCache {
    pub entries: [LockEntry; LOCK_CACHE_SIZE],
    /// Active lockouts the last successful hydration saw.
    pub hydration_active_total: i64,
    /// Entries it installed.
    pub hydration_loaded: i64,
    /// Active lockouts that did not fit.
    pub hydration_overflow: i64,
    /// Raw [`CacheState`].
    pub state: i32,
}

/// Mathematical model of the cache.
#[verifier::ext_equal]
pub struct LockModel {
    pub entries: Seq<LockEntry>,
    pub hydration_active_total: i64,
    pub hydration_loaded: i64,
    pub hydration_overflow: i64,
    pub state: i32,
}

impl LockModel {
    /// The cache's readiness.
    pub open spec fn readiness(self) -> CacheState {
        CacheState::of_raw(self.state)
    }

    /// Where the entry of `name` is; the number of slots when it has none.
    pub open spec fn slot_of(self, name: [u8; LOCK_USERNAME_BYTES]) -> int {
        search::first_index(self.entries, |e: LockEntry| e.is_for(name))
    }

    /// The first slot that holds no active lockout at `now`.
    pub open spec fn free_slot(self, now: i64) -> int {
        search::first_index(self.entries, |e: LockEntry| !e.active(now))
    }

    /// When the lockout of `name` expires, if one is active at `now`.
    pub open spec fn lockout(self, name: [u8; LOCK_USERNAME_BYTES], now: i64) -> Option<i64> {
        let i = search::first_index(
            self.entries,
            |e: LockEntry| e.active(now) && e.username == name,
        );
        if i < self.entries.len() {
            Some(self.entries[i].expires_at)
        } else {
            None
        }
    }

    /// Setting a lockout that is over by `now`, or one for the empty name, changes nothing.
    pub open spec fn set_is_void(name: [u8; LOCK_USERNAME_BYTES], expires_at: i64, now: i64) -> bool {
        expires_at <= now || name@[0] == 0
    }

    /// What setting a lockout comes to.
    pub open spec fn set_status(
        self,
        name: [u8; LOCK_USERNAME_BYTES],
        expires_at: i64,
        now: i64,
    ) -> CacheOpStatus {
        if LockModel::set_is_void(name, expires_at, now) || self.slot_of(name) < self.entries.len()
            || self.free_slot(now) < self.entries.len() {
            CacheOpStatus::Applied
        } else {
            CacheOpStatus::Overflowed
        }
    }

    /// The model after a lockout was set: in the name's own slot, else in one without an active
    /// lockout; when there is neither, only the state changes.
    pub open spec fn with_lock(
        self,
        name: [u8; LOCK_USERNAME_BYTES],
        expires_at: i64,
        now: i64,
    ) -> LockModel {
        let entry = LockEntry { username: name, expires_at };
        if LockModel::set_is_void(name, expires_at, now) {
            self
        } else if self.slot_of(name) < self.entries.len() {
            LockModel { entries: self.entries.update(self.slot_of(name), entry), ..self }
        } else if self.free_slot(now) < self.entries.len() {
            LockModel { entries: self.entries.update(self.free_slot(now), entry), ..self }
        } else {
            LockModel { state: CacheState::Overflow.number(), ..self }
        }
    }

    /// The model after the entry of `name` was removed.
    pub open spec fn without_lock(self, name: [u8; LOCK_USERNAME_BYTES]) -> LockModel {
        if self.slot_of(name) < self.entries.len() {
            LockModel {
                entries: self.entries.update(self.slot_of(name), LockEntry::blank()),
                ..self
            }
        } else {
            self
        }
    }

    /// The model after a decision about `name` was applied.
    pub open spec fn applied(
        self,
        name: [u8; LOCK_USERNAME_BYTES],
        decision: CacheDecision,
        now: i64,
    ) -> LockModel {
        match decision {
            CacheDecision::SetLock(expires_at) => self.with_lock(name, expires_at, now),
            CacheDecision::ClearLock => self.without_lock(name),
        }
    }

    /// The model with another readiness.
    pub open spec fn in_state(self, state: CacheState) -> LockModel {
        LockModel { state: state.number(), ..self }
    }
}

impl View for LockCache {
    type V = LockModel;

    open spec fn view(&self) -> LockModel {
        LockModel {
            entries: self.entries@,
            hydration_active_total: self.hydration_active_total,
            hydration_loaded: self.hydration_loaded,
            hydration_overflow: self.hydration_overflow,
            state: self.state,
        }
    }
}

impl LockCache {
    /// An empty cache that was never hydrated.
    pub fn new() -> (cache: LockCache)
        ensures
            cache@ == (LockModel {
                entries: Seq::new(LOCK_CACHE_SIZE as nat, |i: int| LockEntry::blank()),
                hydration_active_total: 0,
                hydration_loaded: 0,
                hydration_overflow: 0,
                state: CacheState::NotReady.number(),
            }),
    {
        LockCache {
            entries: [LockEntry::new();LOCK_CACHE_SIZE],
            hydration_active_total: 0,
            hydration_loaded: 0,
            hydration_overflow: 0,
            state: CacheState::NotReady.raw(),
        }
    }
}

/// Bytes of shared memory the cache occupies.
pub fn shared_memory_bytes() -> (n: usize)
    ensures
        n as nat == vstd::layout::size_of::<LockCache>(),
{
    core::mem::size_of::<LockCache>()
}

/// The cache's readiness; without shared memory it is `NotReady`.
pub fn state(cache: Option<&LockCache>) -> (r: CacheState)
    ensures
        r == match cache {
            Some(cache) => cache@.readiness(),
            None => CacheState::NotReady,
        },
{
    match cache {
        Some(cache) => CacheState::from_raw(cache.state),
        None => CacheState::NotReady,
    }
}

/// Changes the cache's readiness.
pub fn set_state(cache: &mut LockCache, new_state: CacheState)
    ensures
        final(cache)@ == old(cache)@.in_state(new_state),
{
    cache.state = new_state.raw();
}

/// The decision an authoritative `lockout_until` stands for at `now`.
pub open spec fn decision(lockout_until: Option<i64>, now: i64) -> CacheDecision {
    match lockout_until {
        Some(expires_at) => if expires_at > now {
            CacheDecision::SetLock(expires_at)
        } else {
            CacheDecision::ClearLock
        },
        None => CacheDecision::ClearLock,
    }
}

/// Turns an authoritative `lockout_until` into a cache decision. Hydration, failed logins and
/// successful logins all decide here.
pub fn decision_for(lockout_until: Option<i64>, now: i64) -> (r: CacheDecision)
    ensures
        r == decision(lockout_until, now),
{
    match lockout_until {
        Some(expires_at) => {
            if expires_at > now {
                CacheDecision::SetLock(expires_at)
            } else {
                CacheDecision::ClearLock
            }
        },
        None => CacheDecision::ClearLock,
    }
}

/// The decision for one name from the database, which may have no row for it. Without a database
/// no decision is made.
pub fn decision_from_db(has_database: bool, lockout_until: Option<i64>, now: i64) -> (r: Result<
    CacheDecision,
    &'static str,
>)
    ensures
        match r {
            Ok(d) => has_database && d == decision(lockout_until, now),
            Err(e) => !has_database && e@ == "lock cache decision skipped: no database context"@,
        },
{
    if !has_database {
        return Err("lock cache decision skipped: no database context");
    }
    Ok(decision_for(lockout_until, now))
}

fn find_name(cache: &LockCache, name: &[u8; LOCK_USERNAME_BYTES]) -> (i: usize)
    ensures
        i == cache@.slot_of(*name),
        i <= LOCK_CACHE_SIZE,
{
    let ghost p = |e: LockEntry| e.is_for(*name);
    let mut i: usize = 0;
    while i < LOCK_CACHE_SIZE
        invariant
            i <= LOCK_CACHE_SIZE,
            p == (|e: LockEntry| e.is_for(*name)),
            forall|j: int| 0 <= j < i ==> !p(#[trigger] cache.entries@[j]),
        ensures
            i <= LOCK_CACHE_SIZE,
            forall|j: int| 0 <= j < i ==> !p(#[trigger] cache.entries@[j]),
            i < LOCK_CACHE_SIZE ==> p(cache.entries@[i as int]),
        decreases LOCK_CACHE_SIZE - i,
    {
        if cache.entries[i].username[0] != 0 && same_name(&cache.entries[i].username, name) {
            break;
        }
        i = i + 1;
    }
    proof {
        search::first_index_is(cache.entries@, p, i as int);
    }
    i
}

fn find_free(cache: &LockCache, now: i64) -> (i: usize)
    ensures
        i == cache@.free_slot(now),
        i <= LOCK_CACHE_SIZE,
{
    let ghost p = |e: LockEntry| !e.active(now);
    let mut i: usize = 0;
    while i < LOCK_CACHE_SIZE
        invariant
            i <= LOCK_CACHE_SIZE,
            p == (|e: LockEntry| !e.active(now)),
            forall|j: int| 0 <= j < i ==> !p(#[trigger] cache.entries@[j]),
        ensures
            i <= LOCK_CACHE_SIZE,
            forall|j: int| 0 <= j < i ==> !p(#[trigger] cache.entries@[j]),
            i < LOCK_CACHE_SIZE ==> p(cache.entries@[i as int]),
        decreases LOCK_CACHE_SIZE - i,
    {
        if cache.entries[i].username[0] == 0 || cache.entries[i].expires_at <= now {
            break;
        }
        i = i + 1;
    }
    proof {
        search::first_index_is(cache.entries@, p, i as int);
    }
    i
}

/// Installs or refreshes one lockout. When every slot holds an active lockout of somebody else
/// nothing is evicted: the cache is marked `Overflow`.
pub fn set(
    cache: &mut LockCache,
    username_bytes: &[u8; LOCK_USERNAME_BYTES],
    expires_at: i64,
    now: i64,
) -> (r: CacheOpStatus)
    ensures
        r == old(cache)@.set_status(*username_bytes, expires_at, now),
        final(cache)@ == old(cache)@.with_lock(*username_bytes, expires_at, now),
{
    if expires_at <= now {
        return CacheOpStatus::Applied;
    }
    if username_bytes[0] == 0 {
        return CacheOpStatus::Applied;
    }
    let i: usize = find_name(cache, username_bytes);
    if i < LOCK_CACHE_SIZE {
        proof {
            search::first_index_found(
                cache.entries@,
                |e: LockEntry| e.is_for(*username_bytes),
            );
        }
        cache.entries[i] = LockEntry { username: *username_bytes, expires_at };
        return CacheOpStatus::Applied;
    }
    let j: usize = find_free(cache, now);
    if j < LOCK_CACHE_SIZE {
        cache.entries[j] = LockEntry { username: *username_bytes, expires_at };
        return CacheOpStatus::Applied;
    }
    cache.state = CacheState::Overflow.raw();
    CacheOpStatus::Overflowed
}

/// Removes one lockout entry.
pub fn clear(cache: &mut LockCache, username_bytes: &[u8; LOCK_USERNAME_BYTES]) -> (r:
    CacheOpStatus)
    ensures
        r == CacheOpStatus::Applied,
        final(cache)@ == old(cache)@.without_lock(*username_bytes),
{
    let i: usize = find_name(cache, username_bytes);
    if i < LOCK_CACHE_SIZE {
        cache.entries[i] = LockEntry::new();
    }
    CacheOpStatus::Applied
}

/// Whole seconds left of a lockout, rounded up.
pub open spec fn seconds_left(expires_at: i64, now: i64) -> Option<i64> {
    if expires_at <= now {
        None
    } else {
        Some(((expires_at - now + MICROS_PER_SEC - 1) / (MICROS_PER_SEC as int)) as i64)
    }
}

/// Whole seconds left of a lockout, rounded up: an active lockout never counts as over.
pub fn remaining_seconds_ceil(expires_at: i64, now: i64) -> (r: Option<i64>)
    ensures
        r == seconds_left(expires_at, now),
        r is Some <==> expires_at > now,
        r matches Some(secs) ==> {
            &&& secs >= 1
            &&& (secs - 1) * MICROS_PER_SEC < expires_at - now <= secs * MICROS_PER_SEC
        },
{
    if expires_at <= now {
        return None;
    }
    let delta: i128 = expires_at as i128 - now as i128;
    let secs: i128 = (delta + (MICROS_PER_SEC as i128) - 1) / (MICROS_PER_SEC as i128);
    Some(secs as i64)
}

/// Whole seconds left of the lockout of `username`; `None` when the cache holds no active one.
pub fn remaining_seconds(cache: &LockCache, username: &str, now: i64) -> (r: Option<i64>)
    ensures
        r == match cache@.lockout(username::encoded_name(username@), now) {
            Some(expires_at) => seconds_left(expires_at, now),
            None => None,
        },
        r is Some <==> cache@.lockout(username::encoded_name(username@), now) is Some,
        r matches Some(secs) ==> secs >= 1,
{
    let name = encode_username(username);
    let ghost p = |e: LockEntry| e.active(now) && e.username == name;
    let mut i: usize = 0;
    while i < LOCK_CACHE_SIZE
        invariant
            i <= LOCK_CACHE_SIZE,
            p == (|e: LockEntry| e.active(now) && e.username == name),
            forall|j: int| 0 <= j < i ==> !p(#[trigger] cache.entries@[j]),
        ensures
            i <= LOCK_CACHE_SIZE,
            forall|j: int| 0 <= j < i ==> !p(#[trigger] cache.entries@[j]),
            i < LOCK_CACHE_SIZE ==> p(cache.entries@[i as int]),
        decreases LOCK_CACHE_SIZE - i,
    {
        if cache.entries[i].username[0] != 0 && same_name(&cache.entries[i].username, &name)
            && cache.entries[i].expires_at > now {
            break;
        }
        i = i + 1;
    }
    proof {
        search::first_index_is(cache.entries@, p, i as int);
    }
    if i < LOCK_CACHE_SIZE {
        remaining_seconds_ceil(cache.entries[i].expires_at, now)
    } else {
        None
    }
}

/// Numbers of one successful hydration.
#[derive(Clone, Copy, PartialEq, Eq, Debug)]
pub struct HydrationStats {
    pub active_total: i64,
    pub loaded: i64,
    pub overflow: i64,
}

/// One row of the authoritative table: the role and its `lockout_until`, either possibly NULL.
pub struct LockRow {
    pub username: Option<String>,
    pub lockout_until: Option<i64>,
}

/// The entries the rows stand for, those without a name or an expiry left out.
pub open spec fn prepared_of(rows: Seq<LockRow>) -> Seq<LockEntry>
    decreases rows.len(),
{
    if rows.len() == 0 {
        Seq::empty()
    } else {
        let before = prepared_of(rows.drop_last());
        match (rows.last().username, rows.last().lockout_until) {
            (Some(name), Some(expires_at)) => if name@.len() > 0 {
                before.push(LockEntry { username: username::encoded_name(name@), expires_at })
            } else {
                before
            },
            _ => before,
        }
    }
}

/// The entries that are still active lockouts at `now`, in order.
pub open spec fn still_active(prepared: Seq<LockEntry>, now: i64) -> Seq<LockEntry> {
    prepared.filter(|e: LockEntry| e.active(now))
}

/// The slots after hydration: what is active, as far as it fits, and unused entries after it.
pub open spec fn hydrated_entries(prepared: Seq<LockEntry>, now: i64) -> Seq<LockEntry> {
    Seq::new(
        LOCK_CACHE_SIZE as nat,
        |i: int|
            if i < still_active(prepared, now).len() {
                still_active(prepared, now)[i]
            } else {
                LockEntry::blank()
            },
    )
}

/// How many entries hydration installs.
pub open spec fn hydrated_count(prepared: Seq<LockEntry>, now: i64) -> int {
    if still_active(prepared, now).len() < LOCK_CACHE_SIZE {
        still_active(prepared, now).len() as int
    } else {
        LOCK_CACHE_SIZE as int
    }
}

/// Rows beyond what was prepared: what the bounded read left out.
pub open spec fn rows_left_out(total: i64, prepared: nat) -> int {
    if total > prepared {
        total - prepared
    } else {
        0
    }
}

/// The cache after a hydration from one snapshot: only one that left nothing out makes it `Ready`.
pub open spec fn hydrated(total: i64, rows: Seq<LockRow>, now: i64) -> LockModel {
    let prepared = prepared_of(rows);
    let overflow = rows_left_out(total, prepared.len());
    LockModel {
        entries: hydrated_entries(prepared, now),
        hydration_active_total: total,
        hydration_loaded: hydrated_count(prepared, now) as i64,
        hydration_overflow: overflow as i64,
        state: if overflow == 0 {
            CacheState::Ready.number()
        } else {
            CacheState::Overflow.number()
        },
    }
}

/// Prepares the rows for the cache.
pub fn prepare_rows(rows: &Vec<LockRow>) -> (prepared: Vec<LockEntry>)
    ensures
        prepared@ == prepared_of(rows@),
{
    let mut prepared: Vec<LockEntry> = Vec::new();
    let mut i: usize = 0;
    assert(rows@.take(0) =~= Seq::<LockRow>::empty());
    while i < rows.len()
        invariant
            i <= rows@.len(),
            prepared@ == prepared_of(rows@.take(i as int)),
        decreases rows.len() - i,
    {
        assert(rows@.take(i + 1).drop_last() =~= rows@.take(i as int));
        match (&rows[i].username, rows[i].lockout_until) {
            (Some(name), Some(expires_at)) => {
                if name.as_str().unicode_len() > 0 {
                    prepared.push(
                        LockEntry { username: encode_username(name.as_str()), expires_at },
                    );
                }
            },
            _ => {},
        }
        i = i + 1;
    }
    assert(rows@.take(i as int) =~= rows@);
    prepared
}

/// Replaces the cache by already prepared entries, their counters and the new state, all at once.
/// Says how many entries were installed.
pub fn apply_hydrated_entries(
    cache: &mut LockCache,
    prepared: &Vec<LockEntry>,
    active_total: i64,
    overflow: i64,
    new_state: CacheState,
    now: i64,
) -> (loaded: i64)
    ensures
        loaded == hydrated_count(prepared@, now),
        final(cache)@ == (LockModel {
            entries: hydrated_entries(prepared@, now),
            hydration_active_total: active_total,
            hydration_loaded: loaded,
            hydration_overflow: overflow,
            state: new_state.number(),
        }),
{
    let ghost p = |e: LockEntry| e.active(now);
    let mut entries: [LockEntry; LOCK_CACHE_SIZE] = [LockEntry::new();LOCK_CACHE_SIZE];
    let mut slot: usize = 0;
    let mut i: usize = 0;
    proof {
        reveal(Seq::filter);
        assert(prepared@.take(0) =~= Seq::<LockEntry>::empty());
    }
    while i < prepared.len() && slot < LOCK_CACHE_SIZE
        invariant
            i <= prepared@.len(),
            slot <= LOCK_CACHE_SIZE,
            p == (|e: LockEntry| e.active(now)),
            slot == prepared@.take(i as int).filter(p).len(),
            entries@.len() == LOCK_CACHE_SIZE,
            forall|j: int|
                0 <= j < slot ==> #[trigger] entries@[j] == prepared@.take(i as int).filter(p)[j],
            forall|j: int| slot <= j < LOCK_CACHE_SIZE ==> #[trigger] entries@[j]
                == LockEntry::blank(),
        decreases prepared.len() - i,
    {
        let e = prepared[i];
        proof {
            assert(prepared@.take(i + 1).drop_last() =~= prepared@.take(i as int));
            assert(prepared@.take(i + 1).last() == e);
            reveal(Seq::filter);
        }
        if e.username[0] != 0 && decision_for(Some(e.expires_at), now)
            != CacheDecision::ClearLock {
            entries[slot] = e;
            slot = slot + 1;
        }
        i = i + 1;
    }
    proof {
        filter_prefix(prepared@, p, i as int);
        assert(i == prepared@.len() ==> prepared@.take(i as int) =~= prepared@);
    }
    let loaded: i64 = slot as i64;
    assert(entries@ =~= hydrated_entries(prepared@, now));
    cache.entries = entries;
    cache.hydration_active_total = active_total;
    cache.hydration_loaded = loaded;
    cache.hydration_overflow = overflow;
    cache.state = new_state.raw();
    loaded
}

/// Filtering a prefix gives a prefix of the filtered sequence.
pub(crate) proof fn filter_prefix<T>(s: Seq<T>, p: spec_fn(T) -> bool, i: int)
    requires
        0 <= i <= s.len(),
    ensures
        s.take(i).filter(p).len() <= s.filter(p).len(),
        forall|j: int|
            0 <= j < s.take(i).filter(p).len() ==> #[trigger] s.filter(p)[j] == s.take(i).filter(
                p,
            )[j],
    decreases s.len() - i,
{
    reveal(Seq::filter);
    if i < s.len() {
        filter_prefix(s, p, i + 1);
        assert(s.take(i + 1).drop_last() =~= s.take(i));
        let a = s.take(i).filter(p);
        let b = s.take(i + 1).filter(p);
        assert forall|j: int| 0 <= j < a.len() implies #[trigger] s.filter(p)[j] == a[j] by {
            assert(b[j] == a[j]);
        }
    } else {
        assert(s.take(i) =~= s);
    }
}

/// Whether a hydration may begin.
pub fn hydration_ready(has_database: bool, has_cache: bool) -> (r: Result<(), &'static str>)
    ensures
        match r {
            Ok(()) => has_database && has_cache,
            Err(e) => if !has_database {
                e@ == "lock cache hydration skipped: no database context"@
            } else {
                !has_cache && e@
                    == "lock cache hydration skipped: shared cache not initialized"@
            },
        },
{
    if !has_database {
        return Err("lock cache hydration skipped: no database context");
    }
    if !has_cache {
        return Err("lock cache hydration skipped: shared cache not initialized");
    }
    Ok(())
}

/// Rebuilds the cache from one snapshot of the authoritative table: the number of active lockouts
/// and the rows a bounded read returned. `None` means the table does not exist yet.
///
/// Only a snapshot in which nothing was left out makes the cache `Ready`. A missing table leaves
/// the cache as it was.
pub fn hydrate_from_db(
    cache: &mut LockCache,
    snapshot: Option<(i64, Vec<LockRow>)>,
    now: i64,
) -> (r: Result<HydrationStats, &'static str>)
    ensures
        match (snapshot, r) {
            (None, Err(e)) => {
                &&& e@
                    == "lock cache hydration skipped: password_profile.login_attempts not available"@
                &&& final(cache)@ == old(cache)@
            },
            (Some((total, rows)), Ok(stats)) => {
                let prepared = prepared_of(rows@);
                let overflow = rows_left_out(total, prepared.len());
                &&& stats.active_total == total
                &&& stats.loaded == hydrated_count(prepared, now)
                &&& stats.overflow == overflow
                &&& final(cache)@ == hydrated(total, rows@, now)
                &&& final(cache)@ == (LockModel {
                    entries: hydrated_entries(prepared, now),
                    hydration_active_total: total,
                    hydration_loaded: stats.loaded,
                    hydration_overflow: stats.overflow,
                    state: if overflow == 0 {
                        CacheState::Ready.number()
                    } else {
                        CacheState::Overflow.number()
                    },
                })
            },
            _ => false,
        },
{
    match snapshot {
        None => Err(
            "lock cache hydration skipped: password_profile.login_attempts not available",
        ),
        Some((active_total, rows)) => {
            let prepared = prepare_rows(&rows);
            let overflow: i64 = left_out(active_total, prepared.len());
            let new_state = if overflow == 0 {
                CacheState::Ready
            } else {
                CacheState::Overflow
            };
            let loaded: i64 = apply_hydrated_entries(
                cache,
                &prepared,
                active_total,
                overflow,
                new_state,
                now,
            );
            Ok(HydrationStats { active_total, loaded, overflow })
        },
    }
}

/// Rows beyond what was prepared.
pub(crate) fn left_out(total: i64, prepared: usize) -> (r: i64)
    ensures
        r == rows_left_out(total, prepared as nat),
{
    if total > 0 && (total as u64) > (prepared as u64) {
        total - prepared as i64
    } else {
        0
    }
}

/// Numbers of the cache for the statistics surface.
#[derive(Clone, Copy, PartialEq, Eq, Debug)]
pub struct LockCacheCounts {
    pub active: u32,
    pub used: u32,
    pub hydration_active_total: i64,
    pub hydration_loaded: i64,
    pub hydration_overflow: i64,
    /// The state's number; an unknown one counts as `NotReady`.
    pub state: i64,
}

/// The numbers a cache reports at `now`.
pub open spec fn counted(m: LockModel, now: i64, c: LockCacheCounts) -> bool {
    &&& c.active == search::count_where(m.entries, |e: LockEntry| e.active(now))
    &&& c.used == search::count_where(m.entries, |e: LockEntry| e.used())
    &&& c.hydration_active_total == m.hydration_active_total
    &&& c.hydration_loaded == m.hydration_loaded
    &&& c.hydration_overflow == m.hydration_overflow
    &&& c.state == m.readiness().number()
}

/// Counts the cache at `now`; `None` without shared memory.
pub fn counts(cache: Option<&LockCache>, now: i64) -> (r: Option<LockCacheCounts>)
    ensures
        r is Some <==> cache is Some,
        (cache, r) matches (Some(cache), Some(c)) ==> counted(cache@, now, c) && c.active
            <= LOCK_CACHE_SIZE && c.used <= LOCK_CACHE_SIZE,
{
    match cache {
        None => None,
        Some(cache) => {
            let ghost p = |e: LockEntry| e.active(now);
            let ghost q = |e: LockEntry| e.used();
            let mut active: u32 = 0;
            let mut used: u32 = 0;
            let mut i: usize = 0;
            while i < LOCK_CACHE_SIZE
                invariant
                    i <= LOCK_CACHE_SIZE,
                    p == (|e: LockEntry| e.active(now)),
                    q == (|e: LockEntry| e.used()),
                    active == search::count_where(cache.entries@.take(i as int), p),
                    used == search::count_where(cache.entries@.take(i as int), q),
                    active <= i,
                    used <= i,
                decreases LOCK_CACHE_SIZE - i,
            {
                proof {
                    search::count_step(cache.entries@, p, i as int);
                    search::count_step(cache.entries@, q, i as int);
                }
                if cache.entries[i].username[0] != 0 {
                    used = used + 1;
                    if cache.entries[i].expires_at > now {
                        active = active + 1;
                    }
                }
                i = i + 1;
            }
            assert(cache.entries@.take(i as int) =~= cache.entries@);
            Some(
                LockCacheCounts {
                    active,
                    used,
                    hydration_active_total: cache.hydration_active_total,
                    hydration_loaded: cache.hydration_loaded,
                    hydration_overflow: cache.hydration_overflow,
                    state: CacheState::from_raw(cache.state).raw() as i64,
                },
            )
        },
    }
}

} // verus!
