//! Shared cache of the roles that are exempt from the password profile.
//!
//! Only a complete cache grants an exemption. When it cannot answer, the normal policy applies.

use crate::lock_cache;
use crate::search;
use crate::username;
use crate::username::{encode_username, same_name, LOCK_USERNAME_BYTES};
use vstd::prelude::*;

verus! {

/// Slots of the cache.
pub const BYPASS_CACHE_SIZE: usize = 1024;

/// Readiness of the cache.
#[derive(Clone, Copy, PartialEq, Eq, Debug, Structural)]
pub enum BypassCacheState {
    /// Never refreshed, or refreshing failed.
    NotReady,
    /// Every exempt role is in the cache.
    Ready,
    /// More exempt roles exist than fit.
    Overflow,
    /// The worker stopped after a failure.
    WorkerFailed,
}

impl BypassCacheState {
    /// The state a raw number stands for; an unknown number is `NotReady`.
    pub open spec fn of_raw(raw: i32) -> BypassCacheState {
        if raw == 1 {
            BypassCacheState::Ready
        } else if raw == 2 {
            BypassCacheState::Overflow
        } else if raw == 3 {
            BypassCacheState::WorkerFailed
        } else {
            BypassCacheState::NotReady
        }
    }

    /// The number a state is stored under.
    pub open spec fn number(self) -> i32 {
        match self {
            BypassCacheState::NotReady => 0,
            BypassCacheState::Ready => 1,
            BypassCacheState::Overflow => 2,
            BypassCacheState::WorkerFailed => 3,
        }
    }

    /// Reads a raw number; an unknown one is `NotReady`.
    pub fn from_raw(raw: i32) -> (r: BypassCacheState)
        ensures
            r == BypassCacheState::of_raw(raw),
    {
        match raw {
            1 => BypassCacheState::Ready,
            2 => BypassCacheState::Overflow,
            3 => BypassCacheState::WorkerFailed,
            _ => BypassCacheState::NotReady,
        }
    }

    /// The number the state is stored under.
    pub fn raw(self) -> (r: i32)
        ensures
            r == self.number(),
    {
        match self {
            BypassCacheState::NotReady => 0,
            BypassCacheState::Ready => 1,
            BypassCacheState::Overflow => 2,
            BypassCacheState::WorkerFailed => 3,
        }
    }
}

/// What the cache says about one role.
#[derive(Clone, Copy, PartialEq, Eq, Debug, Structural)]
pub enum BypassDecision {
    /// The role is exempt.
    Bypassed,
    /// The role is not exempt.
    NotBypassed,
    /// The cache cannot answer.
    Unavailable,
}

/// The cache as it lies in shared memory; a name that begins with NUL marks an unused slot.
#[derive(Clone, Copy)]
pub struct BypassCache {
    pub entries: [[u8; LOCK_USERNAME_BYTES]; BYPASS_CACHE_SIZE],
    /// Raw [`BypassCacheState`].
    pub state: i32,
    /// Exempt roles the last successful refresh saw.
    pub rows: i64,
    /// Exempt roles that did not fit.
    pub overflow: i64,
}

/// Mathematical model of the cache.
#[verifier::ext_equal]
pub struct BypassModel {
    pub entries: Seq<[u8; LOCK_USERNAME_BYTES]>,
    pub state: i32,
    pub rows: i64,
    pub overflow: i64,
}

impl BypassModel {
    /// The cache's readiness.
    pub open spec fn readiness(self) -> BypassCacheState {
        BypassCacheState::of_raw(self.state)
    }

    /// What the cache says about `name`. The empty name cannot be represented, so nothing is known
    /// of it.
    pub open spec fn decision(self, name: [u8; LOCK_USERNAME_BYTES]) -> BypassDecision {
        if name@[0] == 0 || !(self.readiness() is Ready) {
            BypassDecision::Unavailable
        } else if self.entries.contains(name) {
            BypassDecision::Bypassed
        } else {
            BypassDecision::NotBypassed
        }
    }

    /// The model with another readiness.
    pub open spec fn in_state(self, state: BypassCacheState) -> BypassModel {
        BypassModel { state: state.number(), ..self }
    }
}

impl View for BypassCache {
    type V = BypassModel;

    open spec fn view(&self) -> BypassModel {
        BypassModel {
            entries: self.entries@,
            state: self.state,
            rows: self.rows,
            overflow: self.overflow,
        }
    }
}

impl BypassCache {
    /// An empty cache that was never refreshed.
    pub fn new() -> (cache: BypassCache)
        ensures
            cache@ == (BypassModel {
                entries: Seq::new(BYPASS_CACHE_SIZE as nat, |i: int| [0u8; LOCK_USERNAME_BYTES]),
                state: BypassCacheState::NotReady.number(),
                rows: 0,
                overflow: 0,
            }),
    {
        BypassCache {
            entries: [[0u8; LOCK_USERNAME_BYTES];BYPASS_CACHE_SIZE],
            state: BypassCacheState::NotReady.raw(),
            rows: 0,
            overflow: 0,
        }
    }
}

/// Bytes of shared memory the cache occupies.
pub fn shared_memory_bytes() -> (n: usize)
    ensures
        n as nat == vstd::layout::size_of::<BypassCache>(),
{
    core::mem::size_of::<BypassCache>()
}

/// The cache's readiness; without shared memory it is `NotReady`.
pub fn state(cache: Option<&BypassCache>) -> (r: BypassCacheState)
    ensures
        r == match cache {
            Some(cache) => cache@.readiness(),
            None => BypassCacheState::NotReady,
        },
{
    match cache {
        Some(cache) => BypassCacheState::from_raw(cache.state),
        None => BypassCacheState::NotReady,
    }
}

/// Changes the cache's readiness.
pub fn set_state(cache: &mut BypassCache, new_state: BypassCacheState)
    ensures
        final(cache)@ == old(cache)@.in_state(new_state),
{
    cache.state = new_state.raw();
}

fn lists(cache: &BypassCache, name: &[u8; LOCK_USERNAME_BYTES]) -> (r: bool)
    requires
        name@[0] != 0,
    ensures
        r == cache@.entries.contains(*name),
{
    let mut i: usize = 0;
    while i < BYPASS_CACHE_SIZE
        invariant
            i <= BYPASS_CACHE_SIZE,
            name@[0] != 0,
            forall|j: int| 0 <= j < i ==> #[trigger] cache.entries@[j] != *name,
        decreases BYPASS_CACHE_SIZE - i,
    {
        if cache.entries[i][0] != 0 && same_name(&cache.entries[i], name) {
            assert(cache@.entries[i as int] == *name);
            return true;
        }
        i = i + 1;
    }
    false
}

/// Answers the exemption question for `username`. Without shared memory there is no answer.
pub fn lookup(cache: Option<&BypassCache>, username: &str) -> (r: BypassDecision)
    ensures
        r == match cache {
            Some(cache) => cache@.decision(username::encoded_name(username@)),
            None => BypassDecision::Unavailable,
        },
{
    match cache {
        None => BypassDecision::Unavailable,
        Some(cache) => {
            let name = encode_username(username);
            if name[0] == 0 {
                return BypassDecision::Unavailable;
            }
            if BypassCacheState::from_raw(cache.state) != BypassCacheState::Ready {
                return BypassDecision::Unavailable;
            }
            if lists(cache, &name) {
                BypassDecision::Bypassed
            } else {
                BypassDecision::NotBypassed
            }
        },
    }
}

/// Encodes one role name for the cache.
pub fn prepared_entry(username: &str) -> (r: [u8; LOCK_USERNAME_BYTES])
    ensures
        r == username::encoded_name(username@),
        r@ == username::padded_name(vstd::utf8::encode_utf8(username@)),
{
    encode_username(username)
}

/// The name begins with something else than NUL.
pub open spec fn is_named(name: [u8; LOCK_USERNAME_BYTES]) -> bool {
    name@[0] != 0
}

/// The prepared names that are not empty, in order.
pub open spec fn named(prepared: Seq<[u8; LOCK_USERNAME_BYTES]>) -> Seq<
    [u8; LOCK_USERNAME_BYTES],
> {
    prepared.filter(|n: [u8; LOCK_USERNAME_BYTES]| is_named(n))
}

/// The slots after a refresh: the names, as far as they fit, and unused slots after them.
pub open spec fn refreshed_entries(prepared: Seq<[u8; LOCK_USERNAME_BYTES]>) -> Seq<
    [u8; LOCK_USERNAME_BYTES],
> {
    Seq::new(
        BYPASS_CACHE_SIZE as nat,
        |i: int|
            if i < named(prepared).len() {
                named(prepared)[i]
            } else {
                [0u8; LOCK_USERNAME_BYTES]
            },
    )
}

/// How many names a refresh installs.
pub open spec fn refreshed_count(prepared: Seq<[u8; LOCK_USERNAME_BYTES]>) -> int {
    if named(prepared).len() < BYPASS_CACHE_SIZE {
        named(prepared).len() as int
    } else {
        BYPASS_CACHE_SIZE as int
    }
}

/// Replaces the cache by already prepared names, their counters and the new state, all at once. A
/// role that is no longer listed loses its exemption. Says how many names were installed.
pub fn apply_refreshed(
    cache: &mut BypassCache,
    prepared: &Vec<[u8; LOCK_USERNAME_BYTES]>,
    rows: i64,
    overflow: i64,
    new_state: BypassCacheState,
) -> (loaded: i64)
    ensures
        loaded == refreshed_count(prepared@),
        final(cache)@ == (BypassModel {
            entries: refreshed_entries(prepared@),
            state: new_state.number(),
            rows,
            overflow,
        }),
{
    let ghost p = |n: [u8; LOCK_USERNAME_BYTES]| is_named(n);
    let mut entries: [[u8; LOCK_USERNAME_BYTES]; BYPASS_CACHE_SIZE] =
        [[0u8; LOCK_USERNAME_BYTES];BYPASS_CACHE_SIZE];
    let mut slot: usize = 0;
    let mut i: usize = 0;
    proof {
        reveal(Seq::filter);
        assert(prepared@.take(0) =~= Seq::<[u8; LOCK_USERNAME_BYTES]>::empty());
    }
    while i < prepared.len() && slot < BYPASS_CACHE_SIZE
        invariant
            i <= prepared@.len(),
            slot <= BYPASS_CACHE_SIZE,
            p == (|n: [u8; LOCK_USERNAME_BYTES]| is_named(n)),
            slot == prepared@.take(i as int).filter(p).len(),
            entries@.len() == BYPASS_CACHE_SIZE,
            forall|j: int|
                0 <= j < slot ==> #[trigger] entries@[j] == prepared@.take(i as int).filter(p)[j],
            forall|j: int|
                slot <= j < BYPASS_CACHE_SIZE ==> #[trigger] entries@[j]
                    == [0u8; LOCK_USERNAME_BYTES],
        decreases prepared.len() - i,
    {
        let name = prepared[i];
        proof {
            assert(prepared@.take(i + 1).drop_last() =~= prepared@.take(i as int));
            assert(prepared@.take(i + 1).last() == name);
            reveal(Seq::filter);
        }
        if name[0] != 0 {
            entries[slot] = name;
            slot = slot + 1;
        }
        i = i + 1;
    }
    proof {
        lock_cache::filter_prefix(prepared@, p, i as int);
        assert(i == prepared@.len() ==> prepared@.take(i as int) =~= prepared@);
    }
    let loaded: i64 = slot as i64;
    assert(entries@ =~= refreshed_entries(prepared@));
    cache.entries = entries;
    cache.rows = rows;
    cache.overflow = overflow;
    cache.state = new_state.raw();
    loaded
}

/// The names the rows stand for; a missing or empty one is left out.
pub open spec fn prepared_of(rows: Seq<Option<String>>) -> Seq<[u8; LOCK_USERNAME_BYTES]>
    decreases rows.len(),
{
    if rows.len() == 0 {
        Seq::empty()
    } else {
        let before = prepared_of(rows.drop_last());
        match rows.last() {
            Some(name) => if name@.len() > 0 {
                before.push(username::encoded_name(name@))
            } else {
                before
            },
            None => before,
        }
    }
}

/// Prepares the rows for the cache.
pub fn prepare_rows(rows: &Vec<Option<String>>) -> (prepared: Vec<[u8; LOCK_USERNAME_BYTES]>)
    ensures
        prepared@ == prepared_of(rows@),
{
    let mut prepared: Vec<[u8; LOCK_USERNAME_BYTES]> = Vec::new();
    let mut i: usize = 0;
    assert(rows@.take(0) =~= Seq::<Option<String>>::empty());
    while i < rows.len()
        invariant
            i <= rows@.len(),
            prepared@ == prepared_of(rows@.take(i as int)),
        decreases rows.len() - i,
    {
        assert(rows@.take(i + 1).drop_last() =~= rows@.take(i as int));
        match &rows[i] {
            Some(name) => {
                if name.as_str().unicode_len() > 0 {
                    prepared.push(prepared_entry(name.as_str()));
                }
            },
            None => {},
        }
        i = i + 1;
    }
    assert(rows@.take(i as int) =~= rows@);
    prepared
}

/// The cache after a refresh from one snapshot: only one that left nothing out makes it `Ready`.
pub open spec fn refreshed(total: i64, rows: Seq<Option<String>>) -> BypassModel {
    let prepared = prepared_of(rows);
    let overflow = lock_cache::rows_left_out(total, prepared.len());
    BypassModel {
        entries: refreshed_entries(prepared),
        state: if overflow == 0 {
            BypassCacheState::Ready.number()
        } else {
            BypassCacheState::Overflow.number()
        },
        rows: total,
        overflow: overflow as i64,
    }
}

/// Whether a refresh may begin.
pub fn refresh_ready(has_database: bool) -> (r: Result<(), &'static str>)
    ensures
        match r {
            Ok(()) => has_database,
            Err(e) => !has_database && e@ == "bypass cache refresh skipped: no database context"@,
        },
{
    if !has_database {
        return Err("bypass cache refresh skipped: no database context");
    }
    Ok(())
}

/// Rebuilds the cache from one snapshot of the role settings: the number of exempt roles and the
/// names a bounded read returned. Returns the number of roles, of names installed and of roles
/// left out. Only a snapshot in which nothing was left out makes the cache `Ready`.
pub fn refresh_bypass_cache(cache: &mut BypassCache, total: i64, rows: &Vec<Option<String>>) -> (r:
    (i64, i64, i64))
    ensures
        ({
            let prepared = prepared_of(rows@);
            &&& r.0 == total
            &&& r.1 == refreshed_count(prepared)
            &&& r.2 == lock_cache::rows_left_out(total, prepared.len())
            &&& final(cache)@ == refreshed(total, rows@)
            &&& final(cache)@ == (BypassModel {
                entries: refreshed_entries(prepared),
                state: if r.2 == 0 {
                    BypassCacheState::Ready.number()
                } else {
                    BypassCacheState::Overflow.number()
                },
                rows: total,
                overflow: r.2,
            })
        }),
{
    let prepared = prepare_rows(rows);
    let overflow: i64 = lock_cache::left_out(total, prepared.len());
    let new_state = if overflow == 0 {
        BypassCacheState::Ready
    } else {
        BypassCacheState::Overflow
    };
    let loaded: i64 = apply_refreshed(cache, &prepared, total, overflow, new_state);
    (total, loaded, overflow)
}

/// Numbers of the cache for the statistics surface.
#[derive(Clone, Copy, PartialEq, Eq, Debug)]
pub struct BypassStats {
    pub capacity: i64,
    pub used: i64,
    pub rows: i64,
    pub overflow: i64,
    /// The state's number; an unknown one counts as `NotReady`.
    pub state: i64,
}

/// The numbers a cache reports.
pub open spec fn reported(m: BypassModel, s: BypassStats) -> bool {
    &&& s.capacity == BYPASS_CACHE_SIZE
    &&& s.used == search::count_where(m.entries, |n: [u8; LOCK_USERNAME_BYTES]| is_named(n))
    &&& s.rows == m.rows
    &&& s.overflow == m.overflow
    &&& s.state == m.readiness().number()
}

/// The numbers; `None` without shared memory.
pub fn stats(cache: Option<&BypassCache>) -> (r: Option<BypassStats>)
    ensures
        r is Some <==> cache is Some,
        (cache, r) matches (Some(cache), Some(s)) ==> reported(cache@, s),
{
    match cache {
        None => None,
        Some(cache) => {
            let ghost p = |n: [u8; LOCK_USERNAME_BYTES]| is_named(n);
            let mut used: i64 = 0;
            let mut i: usize = 0;
            while i < BYPASS_CACHE_SIZE
                invariant
                    i <= BYPASS_CACHE_SIZE,
                    p == (|n: [u8; LOCK_USERNAME_BYTES]| is_named(n)),
                    used == search::count_where(cache.entries@.take(i as int), p),
                    used <= i,
                decreases BYPASS_CACHE_SIZE - i,
            {
                proof {
                    search::count_step(cache.entries@, p, i as int);
                }
                if cache.entries[i][0] != 0 {
                    used = used + 1;
                }
                i = i + 1;
            }
            assert(cache.entries@.take(i as int) =~= cache.entries@);
            Some(
                BypassStats {
                    capacity: BYPASS_CACHE_SIZE as i64,
                    used,
                    rows: cache.rows,
                    overflow: cache.overflow,
                    state: BypassCacheState::from_raw(cache.state).raw() as i64,
                },
            )
        },
    }
}

/// After a refresh that fits, exactly the listed roles are exempt: one that is no longer listed
/// loses its exemption.
pub proof fn refresh_decides_exemption(
    prepared: Seq<[u8; LOCK_USERNAME_BYTES]>,
    m: BypassModel,
    name: [u8; LOCK_USERNAME_BYTES],
)
    requires
        m.entries == refreshed_entries(prepared),
        m.readiness() is Ready,
        named(prepared).len() <= BYPASS_CACHE_SIZE,
        is_named(name),
    ensures
        m.decision(name) == if prepared.contains(name) {
            BypassDecision::Bypassed
        } else {
            BypassDecision::NotBypassed
        },
{
    broadcast use vstd::seq_lib::group_filter_ensures;

    let p = |n: [u8; LOCK_USERNAME_BYTES]| is_named(n);
    let live = named(prepared);
    if prepared.contains(name) {
        let i = choose|i: int| 0 <= i < prepared.len() && prepared[i] == name;
        assert(p(prepared[i]));
        assert(live.contains(prepared[i]));
        let j = choose|j: int| 0 <= j < live.len() && live[j] == name;
        assert(m.entries[j] == name);
    }
    if m.entries.contains(name) {
        let j = choose|j: int| 0 <= j < m.entries.len() && m.entries[j] == name;
        if j >= live.len() {
            assert(m.entries[j]@[0] == 0);
            assert(false);
        }
        assert(live.contains(live[j]));
        prepared.lemma_filter_contains_rev(p, live[j]);
    }
}

/// A cache that is not ready exempts nobody.
pub proof fn only_ready_exempts(m: BypassModel, name: [u8; LOCK_USERNAME_BYTES])
    requires
        !(m.readiness() is Ready),
    ensures
        !(m.decision(name) is Bypassed),
{
}

} // verus!
