//! Shared cache of password expiry and grace logins.
//!
//! Each entry carries the password's generation, the time of its last change. An event that
//! records a used grace login carries it too, so an event about an old password never touches the
//! allowance of a newer one.

use crate::auth_event;
use crate::auth_event::{
    AuthEventRing, EventFlags, RingModel, SharedAuthEvent, EVENT_ID_BYTES,
    EVENT_KIND_GRACE_CONSUMED,
};
use crate::lock_cache;
use crate::lock_cache::CacheOpStatus;
use crate::search;
use crate::username;
use crate::username::{encode_username, same_name, LOCK_USERNAME_BYTES};
use crate::worker_health::WorkerHealth;
use vstd::prelude::*;

verus! {

/// Slots of the cache.
pub const EXPIRY_CACHE_SIZE: usize = 2048;

/// One cached expiry row; an entry whose name begins with NUL is unused.
#[derive(Clone, Copy, PartialEq, Eq, Debug)]
pub struct ExpiryEntry {
    pub username: [u8; LOCK_USERNAME_BYTES],
    pub must_change_by: i64,
    /// The password's generation.
    pub generation: i64,
    pub grace_remaining: i32,
}

/// `n`, or 0 when it is negative.
pub open spec fn at_least_zero(n: i32) -> i32 {
    if n < 0 {
        0
    } else {
        n
    }
}

impl ExpiryEntry {
    /// The unused entry.
    pub open spec fn blank() -> ExpiryEntry {
        ExpiryEntry {
            username: [0u8; LOCK_USERNAME_BYTES],
            must_change_by: 0,
            generation: 0,
            grace_remaining: 0,
        }
    }

    /// The unused entry.
    pub fn empty() -> (e: ExpiryEntry)
        ensures
            e == ExpiryEntry::blank(),
    {
        ExpiryEntry {
            username: [0u8; LOCK_USERNAME_BYTES],
            must_change_by: 0,
            generation: 0,
            grace_remaining: 0,
        }
    }

    /// The entry holds a name.
    pub open spec fn used(self) -> bool {
        self.username@[0] != 0
    }

    /// The entry is in use for `name`.
    pub open spec fn is_for(self, name: [u8; LOCK_USERNAME_BYTES]) -> bool {
        self.used() && self.username == name
    }

    /// What the entry says at `now`; a password is expired from `must_change_by` on.
    pub open spec fn verdict(self, now: i64) -> ExpiryDecision {
        if self.must_change_by > now {
            ExpiryDecision::NotExpired
        } else if self.grace_remaining > 0 {
            ExpiryDecision::ExpiredWithGrace
        } else {
            ExpiryDecision::ExpiredNoGrace
        }
    }
}

/// Readiness of the cache.
#[derive(Clone, Copy, PartialEq, Eq, Debug, Structural)]
pub enum ExpiryCacheState {
    /// Never hydrated, or hydration failed.
    NotReady,
    /// Every expiry row is in the cache.
    Ready,
    /// Capacity was exceeded, so coverage is incomplete.
    Overflow,
    /// The worker stopped after a failure.
    WorkerFailed,
}

impl ExpiryCacheState {
    /// The state a raw number stands for; an unknown number is `NotReady`.
    pub open spec fn of_raw(raw: i32) -> ExpiryCacheState {
        if raw == 1 {
            ExpiryCacheState::Ready
        } else if raw == 2 {
            ExpiryCacheState::Overflow
        } else if raw == 3 {
            ExpiryCacheState::WorkerFailed
        } else {
            ExpiryCacheState::NotReady
        }
    }

    /// The number a state is stored under.
    pub open spec fn number(self) -> i32 {
        match self {
            ExpiryCacheState::NotReady => 0,
            ExpiryCacheState::Ready => 1,
            ExpiryCacheState::Overflow => 2,
            ExpiryCacheState::WorkerFailed => 3,
        }
    }

    /// Reads a raw number; an unknown one is `NotReady`.
    pub fn from_raw(raw: i32) -> (r: ExpiryCacheState)
        ensures
            r == ExpiryCacheState::of_raw(raw),
    {
        match raw {
            1 => ExpiryCacheState::Ready,
            2 => ExpiryCacheState::Overflow,
            3 => ExpiryCacheState::WorkerFailed,
            _ => ExpiryCacheState::NotReady,
        }
    }

    /// The number the state is stored under.
    pub fn raw(self) -> (r: i32)
        ensures
            r == self.number(),
    {
        match self {
            ExpiryCacheState::NotReady => 0,
            ExpiryCacheState::Ready => 1,
            ExpiryCacheState::Overflow => 2,
            ExpiryCacheState::WorkerFailed => 3,
        }
    }
}

/// What the cache says about a password's expiry.
#[derive(Clone, Copy, PartialEq, Eq, Debug, Structural)]
pub enum ExpiryDecision {
    /// The cache is not usable.
    CacheUnavailable,
    /// No expiry is recorded for the name.
    NoRow,
    NotExpired,
    /// Expired, with grace logins left.
    ExpiredWithGrace,
    /// Expired, with none left.
    ExpiredNoGrace,
}

/// Result of using up one grace login.
#[derive(Clone, Copy, PartialEq, Eq, Debug, Structural)]
#[must_use]
pub enum GraceOutcome {
    /// One grace login was taken off and its event is durable.
    Consumed,
    /// There was nothing to use up.
    NotNeeded,
    /// Expired, with no grace login left.
    NoGrace,
    /// It could not be recorded, or the cache is not ready; nothing was taken off.
    Unavailable,
}

/// The result together with the queue's decision whether to warn.
#[derive(Clone, Copy, PartialEq, Eq, Debug, Structural)]
#[must_use]
pub struct GraceResult {
    pub outcome: GraceOutcome,
    pub queue_warn: bool,
}

/// The cache as it lies in shared memory.
#[derive(Clone, Copy)]
pub struct ExpiryCache {
    pub entries: [ExpiryEntry; EXPIRY_CACHE_SIZE],
    /// Raw [`ExpiryCacheState`].
    pub state: i32,
    /// Rows the last successful hydration saw.
    pub hydration_rows: i64,
    /// Rows that did not fit.
    pub hydration_overflow: i64,
}

/// Mathematical model of the cache.
#[verifier::ext_equal]
pub struct ExpiryModel {
    pub entries: Seq<ExpiryEntry>,
    pub state: i32,
    pub hydration_rows: i64,
    pub hydration_overflow: i64,
}

impl ExpiryModel {
    /// The cache's readiness.
    pub open spec fn readiness(self) -> ExpiryCacheState {
        ExpiryCacheState::of_raw(self.state)
    }

    /// Where the entry of `name` is; the number of slots when it has none.
    pub open spec fn slot_of(self, name: [u8; LOCK_USERNAME_BYTES]) -> int {
        search::first_index(self.entries, |e: ExpiryEntry| e.is_for(name))
    }

    /// The first unused slot.
    pub open spec fn free_slot(self) -> int {
        search::first_index(self.entries, |e: ExpiryEntry| !e.used())
    }

    /// The entry of `name`.
    pub open spec fn entry_of(self, name: [u8; LOCK_USERNAME_BYTES]) -> Option<ExpiryEntry> {
        if self.slot_of(name) < self.entries.len() {
            Some(self.entries[self.slot_of(name)])
        } else {
            None
        }
    }

    /// What the cache says about `name` at `now`.
    pub open spec fn decision(self, name: [u8; LOCK_USERNAME_BYTES], now: i64) -> ExpiryDecision {
        if !(self.readiness() is Ready) {
            ExpiryDecision::CacheUnavailable
        } else {
            match self.entry_of(name) {
                Some(e) => e.verdict(now),
                None => ExpiryDecision::NoRow,
            }
        }
    }

    /// What using up a grace login comes to, given whether its event could be made durable.
    pub open spec fn grace_outcome(
        self,
        name: [u8; LOCK_USERNAME_BYTES],
        now: i64,
        durable: bool,
    ) -> GraceOutcome {
        match self.decision(name, now) {
            ExpiryDecision::CacheUnavailable => GraceOutcome::Unavailable,
            ExpiryDecision::NoRow => GraceOutcome::NotNeeded,
            ExpiryDecision::NotExpired => GraceOutcome::NotNeeded,
            ExpiryDecision::ExpiredNoGrace => GraceOutcome::NoGrace,
            ExpiryDecision::ExpiredWithGrace => if durable {
                GraceOutcome::Consumed
            } else {
                GraceOutcome::Unavailable
            },
        }
    }

    /// The model after one grace login of `name` was taken off.
    pub open spec fn with_one_grace_less(self, name: [u8; LOCK_USERNAME_BYTES]) -> ExpiryModel {
        let i = self.slot_of(name);
        let e = self.entries[i];
        ExpiryModel {
            entries: self.entries.update(
                i,
                ExpiryEntry { grace_remaining: (e.grace_remaining - 1) as i32, ..e },
            ),
            ..self
        }
    }

    /// The model after the use of a grace login was tried.
    pub open spec fn after_grace(
        self,
        name: [u8; LOCK_USERNAME_BYTES],
        now: i64,
        durable: bool,
    ) -> ExpiryModel {
        if self.grace_outcome(name, now, durable) is Consumed {
            self.with_one_grace_less(name)
        } else {
            self
        }
    }

    /// What setting an entry comes to.
    pub open spec fn set_status(self, name: [u8; LOCK_USERNAME_BYTES]) -> CacheOpStatus {
        if name@[0] != 0 && (self.slot_of(name) < self.entries.len() || self.free_slot()
            < self.entries.len()) {
            CacheOpStatus::Applied
        } else {
            CacheOpStatus::Overflowed
        }
    }

    /// The model after an entry was set: in the name's own slot, else in an unused one; when there
    /// is neither, only the state changes. The empty name is refused.
    pub open spec fn with_entry(
        self,
        name: [u8; LOCK_USERNAME_BYTES],
        must_change_by: i64,
        generation: i64,
        grace_remaining: i32,
    ) -> ExpiryModel {
        let entry = ExpiryEntry {
            username: name,
            must_change_by,
            generation,
            grace_remaining: at_least_zero(grace_remaining),
        };
        if name@[0] == 0 {
            self
        } else if self.slot_of(name) < self.entries.len() {
            ExpiryModel { entries: self.entries.update(self.slot_of(name), entry), ..self }
        } else if self.free_slot() < self.entries.len() {
            ExpiryModel { entries: self.entries.update(self.free_slot(), entry), ..self }
        } else {
            ExpiryModel { state: ExpiryCacheState::Overflow.number(), ..self }
        }
    }

    /// The model after the entry of `name` was removed.
    pub open spec fn without_entry(self, name: [u8; LOCK_USERNAME_BYTES]) -> ExpiryModel {
        if self.slot_of(name) < self.entries.len() {
            ExpiryModel {
                entries: self.entries.update(self.slot_of(name), ExpiryEntry::blank()),
                ..self
            }
        } else {
            self
        }
    }

    /// The model with another readiness.
    pub open spec fn in_state(self, state: ExpiryCacheState) -> ExpiryModel {
        ExpiryModel { state: state.number(), ..self }
    }
}

impl View for ExpiryCache {
    type V = ExpiryModel;

    open spec fn view(&self) -> ExpiryModel {
        ExpiryModel {
            entries: self.entries@,
            state: self.state,
            hydration_rows: self.hydration_rows,
            hydration_overflow: self.hydration_overflow,
        }
    }
}

impl ExpiryCache {
    /// An empty cache that was never hydrated.
    pub fn new() -> (cache: ExpiryCache)
        ensures
            cache@ == (ExpiryModel {
                entries: Seq::new(EXPIRY_CACHE_SIZE as nat, |i: int| ExpiryEntry::blank()),
                state: ExpiryCacheState::NotReady.number(),
                hydration_rows: 0,
                hydration_overflow: 0,
            }),
    {
        ExpiryCache {
            entries: [ExpiryEntry::empty();EXPIRY_CACHE_SIZE],
            state: ExpiryCacheState::NotReady.raw(),
            hydration_rows: 0,
            hydration_overflow: 0,
        }
    }
}

/// Bytes of shared memory the cache occupies.
pub fn shared_memory_bytes() -> (n: usize)
    ensures
        n as nat == vstd::layout::size_of::<ExpiryCache>(),
{
    core::mem::size_of::<ExpiryCache>()
}

/// The cache's readiness; without shared memory it is `NotReady`.
pub fn state(cache: Option<&ExpiryCache>) -> (r: ExpiryCacheState)
    ensures
        r == match cache {
            Some(cache) => cache@.readiness(),
            None => ExpiryCacheState::NotReady,
        },
{
    match cache {
        Some(cache) => ExpiryCacheState::from_raw(cache.state),
        None => ExpiryCacheState::NotReady,
    }
}

/// Changes the cache's readiness.
pub fn set_state(cache: &mut ExpiryCache, new_state: ExpiryCacheState)
    ensures
        final(cache)@ == old(cache)@.in_state(new_state),
{
    cache.state = new_state.raw();
}

/// What an entry says at `now`.
pub fn classify(entry: &ExpiryEntry, now: i64) -> (r: ExpiryDecision)
    ensures
        r == entry.verdict(now),
{
    if entry.must_change_by > now {
        ExpiryDecision::NotExpired
    } else if entry.grace_remaining > 0 {
        ExpiryDecision::ExpiredWithGrace
    } else {
        ExpiryDecision::ExpiredNoGrace
    }
}

fn find_name(cache: &ExpiryCache, name: &[u8; LOCK_USERNAME_BYTES]) -> (i: usize)
    ensures
        i == cache@.slot_of(*name),
        i <= EXPIRY_CACHE_SIZE,
        i < EXPIRY_CACHE_SIZE ==> cache@.entries[i as int].is_for(*name),
{
    let ghost p = |e: ExpiryEntry| e.is_for(*name);
    let mut i: usize = 0;
    while i < EXPIRY_CACHE_SIZE
        invariant
            i <= EXPIRY_CACHE_SIZE,
            p == (|e: ExpiryEntry| e.is_for(*name)),
            forall|j: int| 0 <= j < i ==> !p(#[trigger] cache.entries@[j]),
        ensures
            i <= EXPIRY_CACHE_SIZE,
            forall|j: int| 0 <= j < i ==> !p(#[trigger] cache.entries@[j]),
            i < EXPIRY_CACHE_SIZE ==> p(cache.entries@[i as int]),
        decreases EXPIRY_CACHE_SIZE - i,
    {
        if cache.entries[i].username[0] != 0 && same_name(&cache.entries[i].username, name) {
            break;
        }
        i = i + 1;
    }
    proof {
        search::first_index_is(cache.entries@, p, i as int);
    }
    i
}

fn find_free(cache: &ExpiryCache) -> (i: usize)
    ensures
        i == cache@.free_slot(),
        i <= EXPIRY_CACHE_SIZE,
{
    let ghost p = |e: ExpiryEntry| !e.used();
    let mut i: usize = 0;
    while i < EXPIRY_CACHE_SIZE
        invariant
            i <= EXPIRY_CACHE_SIZE,
            p == (|e: ExpiryEntry| !e.used()),
            forall|j: int| 0 <= j < i ==> !p(#[trigger] cache.entries@[j]),
        ensures
            i <= EXPIRY_CACHE_SIZE,
            forall|j: int| 0 <= j < i ==> !p(#[trigger] cache.entries@[j]),
            i < EXPIRY_CACHE_SIZE ==> p(cache.entries@[i as int]),
        decreases EXPIRY_CACHE_SIZE - i,
    {
        if cache.entries[i].username[0] == 0 {
            break;
        }
        i = i + 1;
    }
    proof {
        search::first_index_is(cache.entries@, p, i as int);
    }
    i
}

/// Answers the expiry question for `username` without changing anything. Without shared memory
/// the cache is unavailable.
pub fn lookup(cache: Option<&ExpiryCache>, username: &str, now: i64) -> (r: ExpiryDecision)
    ensures
        r == match cache {
            Some(cache) => cache@.decision(username::encoded_name(username@), now),
            None => ExpiryDecision::CacheUnavailable,
        },
{
    match cache {
        None => ExpiryDecision::CacheUnavailable,
        Some(cache) => {
            let name = encode_username(username);
            if ExpiryCacheState::from_raw(cache.state) != ExpiryCacheState::Ready {
                return ExpiryDecision::CacheUnavailable;
            }
            let i: usize = find_name(cache, &name);
            if i < EXPIRY_CACHE_SIZE {
                classify(&cache.entries[i], now)
            } else {
                ExpiryDecision::NoRow
            }
        },
    }
}

/// The generation of the event that a login of `username` at `now` has to record before it may use
/// up a grace login; `None` when it needs none.
pub fn grace_event_generation(cache: &ExpiryCache, username: &str, now: i64) -> (r: Option<i64>)
    ensures
        r == if cache@.decision(username::encoded_name(username@), now) is ExpiredWithGrace {
            Some(cache@.entry_of(username::encoded_name(username@))->0.generation)
        } else {
            None
        },
{
    let name = encode_username(username);
    if ExpiryCacheState::from_raw(cache.state) != ExpiryCacheState::Ready {
        return None;
    }
    let i: usize = find_name(cache, &name);
    if i < EXPIRY_CACHE_SIZE && classify(&cache.entries[i], now)
        == ExpiryDecision::ExpiredWithGrace {
        Some(cache.entries[i].generation)
    } else {
        None
    }
}

/// The event that records the use of a grace login.
pub open spec fn grace_event(
    m: ExpiryModel,
    name: [u8; LOCK_USERNAME_BYTES],
    flags: EventFlags,
    event_id: [u8; EVENT_ID_BYTES],
    recorded_at: i64,
) -> SharedAuthEvent {
    SharedAuthEvent {
        event_id,
        username: name,
        timestamp: recorded_at,
        seq: 0,
        kind: EVENT_KIND_GRACE_CONSUMED,
        generation: m.entry_of(name)->0.generation,
        flags: flags.0,
    }
}

/// The ring after a login tried to use up a grace login: where one is due, its event was offered.
pub open spec fn ring_after_grace(
    m: ExpiryModel,
    ring: RingModel,
    name: [u8; LOCK_USERNAME_BYTES],
    now: i64,
    flags: EventFlags,
    event_id: Option<[u8; EVENT_ID_BYTES]>,
    recorded_at: i64,
    appended: bool,
) -> RingModel {
    match (m.decision(name, now), event_id) {
        (ExpiryDecision::ExpiredWithGrace, Some(id)) => ring.recorded(
            grace_event(m, name, flags, id, recorded_at),
            appended,
        ),
        _ => ring,
    }
}

/// The health record after a login tried to use up a grace login: one that is due and could not be
/// made durable is a durable failure.
pub open spec fn health_after_grace(
    m: ExpiryModel,
    health: WorkerHealth,
    name: [u8; LOCK_USERNAME_BYTES],
    now: i64,
    event_id: Option<[u8; EVENT_ID_BYTES]>,
    recorded_at: i64,
    appended: bool,
) -> WorkerHealth {
    if m.decision(name, now) is ExpiredWithGrace && !(event_id is Some && appended) {
        health.with_durable_failure(recorded_at)
    } else {
        health
    }
}

/// Uses up one grace login and records it, as one step: the event first, and the grace login is
/// taken off only when the event is durable.
///
/// Where [`grace_event_generation`] asks for an event, the caller has obtained an identity for it
/// and tried to append it to the journal; `event_id` and `appended` say how that went. Elsewhere
/// they play no part.
pub fn try_consume_grace(
    cache: &mut ExpiryCache,
    ring: &mut AuthEventRing,
    health: &mut WorkerHealth,
    username: &str,
    now: i64,
    flags: EventFlags,
    event_id: Option<[u8; EVENT_ID_BYTES]>,
    recorded_at: i64,
    appended: bool,
) -> (r: GraceResult)
    ensures
        ({
            let name = username::encoded_name(username@);
            let before = old(cache)@;
            let durable = event_id is Some && appended;
            &&& r.outcome == before.grace_outcome(name, now, durable)
            &&& final(cache)@ == before.after_grace(name, now, durable)
            &&& if before.decision(name, now) is ExpiredWithGrace {
                match event_id {
                    Some(id) => {
                        &&& r.queue_warn == old(ring)@.record_warns(recorded_at, appended)
                        &&& final(ring)@ == old(ring)@.recorded(
                            grace_event(before, name, flags, id, recorded_at),
                            appended,
                        )
                    },
                    None => !r.queue_warn && final(ring)@ == old(ring)@,
                }
            } else {
                !r.queue_warn && final(ring)@ == old(ring)@
            }
            &&& final(ring)@ == ring_after_grace(
                before,
                old(ring)@,
                name,
                now,
                flags,
                event_id,
                recorded_at,
                appended,
            )
            &&& *final(health) == health_after_grace(
                before,
                *old(health),
                name,
                now,
                event_id,
                recorded_at,
                appended,
            )
        }),
{
    let name = encode_username(username);
    if ExpiryCacheState::from_raw(cache.state) != ExpiryCacheState::Ready {
        return GraceResult { outcome: GraceOutcome::Unavailable, queue_warn: false };
    }
    let i: usize = find_name(cache, &name);
    if i >= EXPIRY_CACHE_SIZE {
        return GraceResult { outcome: GraceOutcome::NotNeeded, queue_warn: false };
    }
    match classify(&cache.entries[i], now) {
        ExpiryDecision::NotExpired => {
            return GraceResult { outcome: GraceOutcome::NotNeeded, queue_warn: false };
        },
        ExpiryDecision::ExpiredNoGrace => {
            return GraceResult { outcome: GraceOutcome::NoGrace, queue_warn: false };
        },
        _ => {},
    }
    let generation: i64 = cache.entries[i].generation;
    let step = auth_event::enqueue_encoded_silent(
        ring,
        health,
        &name,
        EVENT_KIND_GRACE_CONSUMED,
        flags,
        generation,
        event_id,
        recorded_at,
        appended,
    );
    if !step.outcome.is_durable() {
        return GraceResult { outcome: GraceOutcome::Unavailable, queue_warn: step.should_warn };
    }
    let mut entry = cache.entries[i];
    entry.grace_remaining = entry.grace_remaining - 1;
    cache.entries[i] = entry;
    GraceResult { outcome: GraceOutcome::Consumed, queue_warn: step.should_warn }
}

/// Installs or refreshes one entry. A live entry is never evicted: a full cache is marked
/// `Overflow`.
pub fn set_entry(
    cache: &mut ExpiryCache,
    username_bytes: &[u8; LOCK_USERNAME_BYTES],
    must_change_by: i64,
    generation: i64,
    grace_remaining: i32,
) -> (r: CacheOpStatus)
    ensures
        r == old(cache)@.set_status(*username_bytes),
        final(cache)@ == old(cache)@.with_entry(
            *username_bytes,
            must_change_by,
            generation,
            grace_remaining,
        ),
{
    if username_bytes[0] == 0 {
        return CacheOpStatus::Overflowed;
    }
    let entry = ExpiryEntry {
        username: *username_bytes,
        must_change_by,
        generation,
        grace_remaining: if grace_remaining < 0 {
            0
        } else {
            grace_remaining
        },
    };
    let i: usize = find_name(cache, username_bytes);
    if i < EXPIRY_CACHE_SIZE {
        cache.entries[i] = entry;
        return CacheOpStatus::Applied;
    }
    let j: usize = find_free(cache);
    if j < EXPIRY_CACHE_SIZE {
        cache.entries[j] = entry;
        return CacheOpStatus::Applied;
    }
    cache.state = ExpiryCacheState::Overflow.raw();
    CacheOpStatus::Overflowed
}

/// Removes one entry.
pub fn clear_entry(cache: &mut ExpiryCache, username_bytes: &[u8; LOCK_USERNAME_BYTES]) -> (r:
    CacheOpStatus)
    ensures
        r == CacheOpStatus::Applied,
        final(cache)@ == old(cache)@.without_entry(*username_bytes),
{
    let i: usize = find_name(cache, username_bytes);
    if i < EXPIRY_CACHE_SIZE {
        cache.entries[i] = ExpiryEntry::empty();
    }
    CacheOpStatus::Applied
}

/// Builds an entry for the cache; a negative allowance counts as none.
pub fn prepared_entry(
    username: &str,
    must_change_by: i64,
    generation: i64,
    grace_remaining: i32,
) -> (e: ExpiryEntry)
    ensures
        e == (ExpiryEntry {
            username: username::encoded_name(username@),
            must_change_by,
            generation,
            grace_remaining: at_least_zero(grace_remaining),
        }),
{
    ExpiryEntry {
        username: encode_username(username),
        must_change_by,
        generation,
        grace_remaining: if grace_remaining < 0 {
            0
        } else {
            grace_remaining
        },
    }
}

/// One row of the authoritative table; any column may be NULL.
pub struct ExpiryRow {
    pub username: Option<String>,
    pub must_change_by: Option<i64>,
    pub last_changed: Option<i64>,
    pub grace_logins_remaining: Option<i32>,
}

/// The entry a row stands for, when it has a name and both times. A missing allowance is none.
pub open spec fn entry_of_row(row: ExpiryRow) -> Option<ExpiryEntry> {
    match (row.username, row.must_change_by, row.last_changed) {
        (Some(name), Some(must_change_by), Some(last_changed)) => if name@.len() > 0 {
            Some(
                ExpiryEntry {
                    username: username::encoded_name(name@),
                    must_change_by,
                    generation: last_changed,
                    grace_remaining: match row.grace_logins_remaining {
                        Some(g) => at_least_zero(g),
                        None => 0,
                    },
                },
            )
        } else {
            None
        },
        _ => None,
    }
}

/// The entries the rows stand for, in order.
pub open spec fn prepared_of(rows: Seq<ExpiryRow>) -> Seq<ExpiryEntry>
    decreases rows.len(),
{
    if rows.len() == 0 {
        Seq::empty()
    } else {
        match entry_of_row(rows.last()) {
            Some(e) => prepared_of(rows.drop_last()).push(e),
            None => prepared_of(rows.drop_last()),
        }
    }
}

/// The prepared entries that hold a name, in order.
pub open spec fn named(prepared: Seq<ExpiryEntry>) -> Seq<ExpiryEntry> {
    prepared.filter(|e: ExpiryEntry| e.used())
}

/// The slots after hydration: what holds a name, as far as it fits, and unused entries after it.
pub open spec fn hydrated_entries(prepared: Seq<ExpiryEntry>) -> Seq<ExpiryEntry> {
    Seq::new(
        EXPIRY_CACHE_SIZE as nat,
        |i: int|
            if i < named(prepared).len() {
                named(prepared)[i]
            } else {
                ExpiryEntry::blank()
            },
    )
}

/// How many entries hydration installs.
pub open spec fn hydrated_count(prepared: Seq<ExpiryEntry>) -> int {
    if named(prepared).len() < EXPIRY_CACHE_SIZE {
        named(prepared).len() as int
    } else {
        EXPIRY_CACHE_SIZE as int
    }
}

/// The cache after a hydration from one snapshot: only one that left nothing out makes it `Ready`.
pub open spec fn hydrated(total: i64, rows: Seq<ExpiryRow>) -> ExpiryModel {
    let prepared = prepared_of(rows);
    let overflow = lock_cache::rows_left_out(total, prepared.len());
    ExpiryModel {
        entries: hydrated_entries(prepared),
        state: if overflow == 0 {
            ExpiryCacheState::Ready.number()
        } else {
            ExpiryCacheState::Overflow.number()
        },
        hydration_rows: total,
        hydration_overflow: overflow as i64,
    }
}

/// Prepares the rows for the cache.
pub fn prepare_rows(rows: &Vec<ExpiryRow>) -> (prepared: Vec<ExpiryEntry>)
    ensures
        prepared@ == prepared_of(rows@),
{
    let mut prepared: Vec<ExpiryEntry> = Vec::new();
    let mut i: usize = 0;
    assert(rows@.take(0) =~= Seq::<ExpiryRow>::empty());
    while i < rows.len()
        invariant
            i <= rows@.len(),
            prepared@ == prepared_of(rows@.take(i as int)),
        decreases rows.len() - i,
    {
        assert(rows@.take(i + 1).drop_last() =~= rows@.take(i as int));
        match (&rows[i].username, rows[i].must_change_by, rows[i].last_changed) {
            (Some(name), Some(must_change_by), Some(last_changed)) => {
                if name.as_str().unicode_len() > 0 {
                    let grace: i32 = match rows[i].grace_logins_remaining {
                        Some(g) => g,
                        None => 0,
                    };
                    prepared.push(
                        prepared_entry(name.as_str(), must_change_by, last_changed, grace),
                    );
                }
            },
            _ => {},
        }
        i = i + 1;
    }
    assert(rows@.take(i as int) =~= rows@);
    prepared
}

/// Replaces the cache by already prepared entries, their counters and the new state, all at once.
/// Says how many entries were installed.
pub fn apply_hydrated(
    cache: &mut ExpiryCache,
    prepared: &Vec<ExpiryEntry>,
    rows: i64,
    overflow: i64,
    new_state: ExpiryCacheState,
) -> (loaded: i64)
    ensures
        loaded == hydrated_count(prepared@),
        final(cache)@ == (ExpiryModel {
            entries: hydrated_entries(prepared@),
            state: new_state.number(),
            hydration_rows: rows,
            hydration_overflow: overflow,
        }),
{
    let ghost p = |e: ExpiryEntry| e.used();
    let mut entries: [ExpiryEntry; EXPIRY_CACHE_SIZE] = [ExpiryEntry::empty();EXPIRY_CACHE_SIZE];
    let mut slot: usize = 0;
    let mut i: usize = 0;
    proof {
        reveal(Seq::filter);
        assert(prepared@.take(0) =~= Seq::<ExpiryEntry>::empty());
    }
    while i < prepared.len() && slot < EXPIRY_CACHE_SIZE
        invariant
            i <= prepared@.len(),
            slot <= EXPIRY_CACHE_SIZE,
            p == (|e: ExpiryEntry| e.used()),
            slot == prepared@.take(i as int).filter(p).len(),
            entries@.len() == EXPIRY_CACHE_SIZE,
            forall|j: int|
                0 <= j < slot ==> #[trigger] entries@[j] == prepared@.take(i as int).filter(p)[j],
            forall|j: int|
                slot <= j < EXPIRY_CACHE_SIZE ==> #[trigger] entries@[j] == ExpiryEntry::blank(),
        decreases prepared.len() - i,
    {
        let e = prepared[i];
        proof {
            assert(prepared@.take(i + 1).drop_last() =~= prepared@.take(i as int));
            assert(prepared@.take(i + 1).last() == e);
            reveal(Seq::filter);
        }
        if e.username[0] != 0 {
            entries[slot] = e;
            slot = slot + 1;
        }
        i = i + 1;
    }
    proof {
        lock_cache::filter_prefix(prepared@, p, i as int);
        assert(i == prepared@.len() ==> prepared@.take(i as int) =~= prepared@);
    }
    let loaded: i64 = slot as i64;
    assert(entries@ =~= hydrated_entries(prepared@));
    cache.entries = entries;
    cache.hydration_rows = rows;
    cache.hydration_overflow = overflow;
    cache.state = new_state.raw();
    loaded
}

/// Whether a hydration may begin.
pub fn hydration_ready(has_database: bool) -> (r: Result<(), &'static str>)
    ensures
        match r {
            Ok(()) => has_database,
            Err(e) => !has_database && e@
                == "expiry cache hydration skipped: no database context"@,
        },
{
    if !has_database {
        return Err("expiry cache hydration skipped: no database context");
    }
    Ok(())
}

/// Rebuilds the cache from one snapshot of the authoritative table: the number of rows and those a
/// bounded read returned. `None` means the table does not exist yet. Returns the number of rows,
/// of entries installed and of rows left out.
///
/// Only a snapshot in which nothing was left out makes the cache `Ready`. A missing table leaves
/// the cache as it was.
pub fn hydrate_expiry_from_db(
    cache: &mut ExpiryCache,
    snapshot: Option<(i64, Vec<ExpiryRow>)>,
) -> (r: Result<(i64, i64, i64), &'static str>)
    ensures
        match (snapshot, r) {
            (None, Err(e)) => {
                &&& e@
                    == "expiry cache hydration skipped: password_profile.password_expiry not available"@
                &&& final(cache)@ == old(cache)@
            },
            (Some((total, rows)), Ok((seen, loaded, overflow))) => {
                let prepared = prepared_of(rows@);
                &&& seen == total
                &&& loaded == hydrated_count(prepared)
                &&& overflow == lock_cache::rows_left_out(total, prepared.len())
                &&& final(cache)@ == hydrated(total, rows@)
                &&& final(cache)@ == (ExpiryModel {
                    entries: hydrated_entries(prepared),
                    state: if overflow == 0 {
                        ExpiryCacheState::Ready.number()
                    } else {
                        ExpiryCacheState::Overflow.number()
                    },
                    hydration_rows: total,
                    hydration_overflow: overflow,
                })
            },
            _ => false,
        },
{
    match snapshot {
        None => Err(
            "expiry cache hydration skipped: password_profile.password_expiry not available",
        ),
        Some((total, rows)) => {
            let prepared = prepare_rows(&rows);
            let overflow: i64 = lock_cache::left_out(total, prepared.len());
            let new_state = if overflow == 0 {
                ExpiryCacheState::Ready
            } else {
                ExpiryCacheState::Overflow
            };
            let loaded: i64 = apply_hydrated(cache, &prepared, total, overflow, new_state);
            Ok((total, loaded, overflow))
        },
    }
}

/// Numbers of the cache for the statistics surface.
#[derive(Clone, Copy, PartialEq, Eq, Debug)]
pub struct ExpiryStats {
    pub capacity: i64,
    pub used: i64,
    pub free: i64,
    pub hydration_rows: i64,
    pub hydration_overflow: i64,
    /// The state's number; an unknown one counts as `NotReady`.
    pub state: i64,
}

/// The numbers a cache reports.
pub open spec fn reported(m: ExpiryModel, s: ExpiryStats) -> bool {
    &&& s.capacity == EXPIRY_CACHE_SIZE
    &&& s.used == search::count_where(m.entries, |e: ExpiryEntry| e.used())
    &&& s.free == EXPIRY_CACHE_SIZE - s.used
    &&& s.hydration_rows == m.hydration_rows
    &&& s.hydration_overflow == m.hydration_overflow
    &&& s.state == m.readiness().number()
}

/// The numbers; `None` without shared memory.
pub fn stats(cache: Option<&ExpiryCache>) -> (r: Option<ExpiryStats>)
    ensures
        r is Some <==> cache is Some,
        (cache, r) matches (Some(cache), Some(s)) ==> reported(cache@, s),
{
    match cache {
        None => None,
        Some(cache) => {
            let ghost p = |e: ExpiryEntry| e.used();
            let mut used: i64 = 0;
            let mut i: usize = 0;
            while i < EXPIRY_CACHE_SIZE
                invariant
                    i <= EXPIRY_CACHE_SIZE,
                    p == (|e: ExpiryEntry| e.used()),
                    used == search::count_where(cache.entries@.take(i as int), p),
                    used <= i,
                decreases EXPIRY_CACHE_SIZE - i,
            {
                proof {
                    search::count_step(cache.entries@, p, i as int);
                }
                if cache.entries[i].username[0] != 0 {
                    used = used + 1;
                }
                i = i + 1;
            }
            assert(cache.entries@.take(i as int) =~= cache.entries@);
            Some(
                ExpiryStats {
                    capacity: EXPIRY_CACHE_SIZE as i64,
                    used,
                    free: EXPIRY_CACHE_SIZE as i64 - used,
                    hydration_rows: cache.hydration_rows,
                    hydration_overflow: cache.hydration_overflow,
                    state: ExpiryCacheState::from_raw(cache.state).raw() as i64,
                },
            )
        },
    }
}

} // verus!
