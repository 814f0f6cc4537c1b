//! Laws of the lock cache: what a lookup gives back after each operation.

use crate::lock_cache;
use crate::lock_cache::{
    CacheDecision, CacheState, LockCache, LockEntry, LockModel, LockRow, LOCK_CACHE_SIZE,
};
use crate::search;
use crate::username;
use crate::username::LOCK_USERNAME_BYTES;
use vstd::prelude::*;

verus! {

/// No name has two entries.
pub open spec fn distinct(m: LockModel) -> bool {
    forall|i: int, j: int|
        0 <= i < j < m.entries.len() && (#[trigger] m.entries[i]).used() && (
        #[trigger] m.entries[j]).used() ==> m.entries[i].username != m.entries[j].username
}

/// A name is locked exactly when one of its entries is an active lockout.
pub proof fn lockout_is_an_active_entry(
    m: LockModel,
    name: [u8; LOCK_USERNAME_BYTES],
    now: i64,
)
    ensures
        m.lockout(name, now) is Some <==> exists|i: int|
            0 <= i < m.entries.len() && (#[trigger] m.entries[i]).active(now)
                && m.entries[i].username == name,
        m.lockout(name, now) matches Some(expires_at) ==> expires_at > now,
        m.lockout(name, now) matches Some(expires_at) ==> exists|i: int|
            0 <= i < m.entries.len() && (#[trigger] m.entries[i]).username == name
                && m.entries[i].expires_at == expires_at && m.entries[i].username@[0] != 0,
{
    let p = |e: LockEntry| e.active(now) && e.username == name;
    search::first_index_found(m.entries, p);
    let k = search::first_index(m.entries, p);
    if exists|i: int|
        0 <= i < m.entries.len() && (#[trigger] m.entries[i]).active(now) && m.entries[i].username
            == name {
        let i = choose|i: int|
            0 <= i < m.entries.len() && (#[trigger] m.entries[i]).active(now)
                && m.entries[i].username == name;
        assert(p(m.entries[i]));
        assert(k <= i);
    } else if k < m.entries.len() {
        assert(m.entries[k].active(now));
    }
}

/// When all its active entries agree, a locked name's expiry is theirs.
proof fn lockout_is(
    m: LockModel,
    name: [u8; LOCK_USERNAME_BYTES],
    now: i64,
    at: int,
)
    requires
        0 <= at < m.entries.len(),
        m.entries[at].active(now),
        m.entries[at].username == name,
        forall|i: int|
            0 <= i < at ==> !((#[trigger] m.entries[i]).active(now) && m.entries[i].username
                == name),
    ensures
        m.lockout(name, now) == Some(m.entries[at].expires_at),
{
    let p = |e: LockEntry| e.active(now) && e.username == name;
    search::first_index_is(m.entries, p, at);
}

proof fn no_lockout(m: LockModel, name: [u8; LOCK_USERNAME_BYTES], now: i64)
    requires
        forall|i: int|
            0 <= i < m.entries.len() ==> !((#[trigger] m.entries[i]).active(now)
                && m.entries[i].username == name),
    ensures
        m.lockout(name, now) is None,
{
    let p = |e: LockEntry| e.active(now) && e.username == name;
    search::first_index_is(m.entries, p, m.entries.len() as int);
}

/// An entry changed in a slot that does not count for `name`, before and after, leaves its
/// lookup alone.
proof fn other_slot_is_irrelevant(
    m: LockModel,
    after: LockModel,
    slot: int,
    name: [u8; LOCK_USERNAME_BYTES],
    now: i64,
)
    requires
        0 <= slot < m.entries.len(),
        after.entries.len() == m.entries.len(),
        forall|i: int|
            0 <= i < m.entries.len() && i != slot ==> #[trigger] after.entries[i] == m.entries[i],
        !(m.entries[slot].active(now) && m.entries[slot].username == name),
        !(after.entries[slot].active(now) && after.entries[slot].username == name),
    ensures
        after.lockout(name, now) == m.lockout(name, now),
{
    let p = |e: LockEntry| e.active(now) && e.username == name;
    search::first_index_found(m.entries, p);
    let k = search::first_index(m.entries, p);
    assert forall|j: int| 0 <= j < k implies !p(#[trigger] after.entries[j]) by {
        if j != slot {
            assert(after.entries[j] == m.entries[j]);
            assert(!p(m.entries[j]));
        }
    }
    if k < m.entries.len() {
        assert(k != slot);
        assert(after.entries[k] == m.entries[k]);
    }
    search::first_index_is(after.entries, p, k);
}

/// A lockout that was set is found, with exactly its expiry, until it expires.
pub proof fn set_is_found(
    m: LockModel,
    name: [u8; LOCK_USERNAME_BYTES],
    expires_at: i64,
    now: i64,
    later: i64,
)
    requires
        name@[0] != 0,
        m.set_status(name, expires_at, now) is Applied,
        now <= later < expires_at,
        distinct(m),
    ensures
        m.with_lock(name, expires_at, now).lockout(name, later) == Some(expires_at),
{
    let after = m.with_lock(name, expires_at, now);
    let is_name = |e: LockEntry| e.is_for(name);
    let is_free = |e: LockEntry| !e.active(now);
    search::first_index_found(m.entries, is_name);
    search::first_index_found(m.entries, is_free);
    let i = m.slot_of(name);
    let j = m.free_slot(now);
    let at = if i < m.entries.len() {
        i
    } else {
        j
    };
    assert forall|k: int| 0 <= k < at implies !((#[trigger] after.entries[k]).active(later)
        && after.entries[k].username == name) by {
        assert(after.entries[k] == m.entries[k]);
        assert(!is_name(m.entries[k]) || k >= i);
    }
    lockout_is(after, name, later, at);
}

/// Setting a lockout never costs anybody else theirs.
pub proof fn set_spares_others(
    m: LockModel,
    name: [u8; LOCK_USERNAME_BYTES],
    expires_at: i64,
    now: i64,
    other: [u8; LOCK_USERNAME_BYTES],
    later: i64,
)
    requires
        other != name,
        now <= later,
    ensures
        m.with_lock(name, expires_at, now).lockout(other, later) == m.lockout(other, later),
{
    let after = m.with_lock(name, expires_at, now);
    let is_name = |e: LockEntry| e.is_for(name);
    let is_free = |e: LockEntry| !e.active(now);
    search::first_index_found(m.entries, is_name);
    search::first_index_found(m.entries, is_free);
    if LockModel::set_is_void(name, expires_at, now) {
    } else if m.slot_of(name) < m.entries.len() {
        other_slot_is_irrelevant(m, after, m.slot_of(name), other, later);
    } else if m.free_slot(now) < m.entries.len() {
        other_slot_is_irrelevant(m, after, m.free_slot(now), other, later);
    }
}

/// A cleared name is not locked.
pub proof fn clear_is_gone(m: LockModel, name: [u8; LOCK_USERNAME_BYTES], now: i64)
    requires
        distinct(m),
    ensures
        m.without_lock(name).lockout(name, now) is None,
{
    let after = m.without_lock(name);
    let is_name = |e: LockEntry| e.is_for(name);
    search::first_index_found(m.entries, is_name);
    let i = m.slot_of(name);
    assert forall|k: int| 0 <= k < after.entries.len() implies !((
    #[trigger] after.entries[k]).active(now) && after.entries[k].username == name) by {
        if k != i {
            assert(after.entries[k] == m.entries[k]);
            if k < i {
                assert(!is_name(m.entries[k]));
            }
        }
    }
    no_lockout(after, name, now);
}

/// Clearing one name leaves every other one alone.
pub proof fn clear_spares_others(
    m: LockModel,
    name: [u8; LOCK_USERNAME_BYTES],
    other: [u8; LOCK_USERNAME_BYTES],
    now: i64,
)
    requires
        other != name,
    ensures
        m.without_lock(name).lockout(other, now) == m.lockout(other, now),
{
    let is_name = |e: LockEntry| e.is_for(name);
    search::first_index_found(m.entries, is_name);
    if m.slot_of(name) < m.entries.len() {
        other_slot_is_irrelevant(m, m.without_lock(name), m.slot_of(name), other, now);
    }
}

/// Setting and clearing keep the names distinct and the number of slots.
pub proof fn distinct_is_kept(
    m: LockModel,
    name: [u8; LOCK_USERNAME_BYTES],
    decision: CacheDecision,
    now: i64,
)
    requires
        distinct(m),
    ensures
        distinct(m.applied(name, decision, now)),
        m.applied(name, decision, now).entries.len() == m.entries.len(),
{
    let is_name = |e: LockEntry| e.is_for(name);
    let is_free = |e: LockEntry| !e.active(now);
    search::first_index_found(m.entries, is_name);
    search::first_index_found(m.entries, is_free);
    let after = m.applied(name, decision, now);
    assert forall|i: int, j: int|
        0 <= i < j < after.entries.len() && (#[trigger] after.entries[i]).used() && (
        #[trigger] after.entries[j]).used() implies after.entries[i].username
        != after.entries[j].username by {
        if m.slot_of(name) == m.entries.len() {
            assert(!is_name(m.entries[i]));
            assert(!is_name(m.entries[j]));
        }
    }
}

/// A cache that overflows keeps every entry and is no longer ready.
pub proof fn overflow_evicts_nobody(
    m: LockModel,
    name: [u8; LOCK_USERNAME_BYTES],
    expires_at: i64,
    now: i64,
)
    requires
        m.set_status(name, expires_at, now) is Overflowed,
    ensures
        m.with_lock(name, expires_at, now).entries == m.entries,
        m.with_lock(name, expires_at, now).readiness() is Overflow,
        forall|i: int| 0 <= i < m.entries.len() ==> (#[trigger] m.entries[i]).active(now),
{
    let is_free = |e: LockEntry| !e.active(now);
    search::first_index_found(m.entries, is_free);
    assert forall|i: int| 0 <= i < m.entries.len() implies (#[trigger] m.entries[i]).active(
        now,
    ) by {
        assert(!is_free(m.entries[i]));
    }
}

/// Hydration covers everybody it was given: when what is active fits, a name is locked afterwards
/// exactly when an active entry of it was prepared, and with that entry's expiry where the
/// prepared names are distinct.
pub proof fn hydration_is_complete(
    prepared: Seq<LockEntry>,
    m: LockModel,
    name: [u8; LOCK_USERNAME_BYTES],
    now: i64,
)
    requires
        m.entries == lock_cache::hydrated_entries(prepared, now),
        lock_cache::still_active(prepared, now).len() <= LOCK_CACHE_SIZE,
    ensures
        m.lockout(name, now) is Some <==> exists|i: int|
            0 <= i < prepared.len() && (#[trigger] prepared[i]).active(now) && prepared[i].username
                == name,
        forall|i: int|
            0 <= i < prepared.len() && (#[trigger] prepared[i]).active(now) && prepared[i].username
                == name && (forall|j: int|
                0 <= j < prepared.len() && j != i ==> (#[trigger] prepared[j]).username != name)
                ==> m.lockout(name, now) == Some(prepared[i].expires_at),
{
    let p = |e: LockEntry| e.active(now);
    let active = lock_cache::still_active(prepared, now);
    broadcast use vstd::seq_lib::group_filter_ensures;

    lockout_is_an_active_entry(m, name, now);
    if exists|i: int|
        0 <= i < prepared.len() && (#[trigger] prepared[i]).active(now) && prepared[i].username
            == name {
        let i = choose|i: int|
            0 <= i < prepared.len() && (#[trigger] prepared[i]).active(now) && prepared[i].username
                == name;
        assert(p(prepared[i]));
        assert(active.contains(prepared[i]));
        let k = choose|k: int| 0 <= k < active.len() && active[k] == prepared[i];
        assert(m.entries[k] == active[k]);
        assert(m.entries[k].active(now) && m.entries[k].username == name);
    }
    if m.lockout(name, now) is Some {
        let q = |e: LockEntry| e.active(now) && e.username == name;
        search::first_index_found(m.entries, q);
        let k = search::first_index(m.entries, q);
        assert(m.entries[k].active(now));
        if k >= active.len() {
            assert(m.entries[k] == LockEntry::blank());
            assert(false);
        }
        assert(active.contains(active[k]));
        prepared.lemma_filter_contains_rev(p, active[k]);
        let i = choose|i: int| 0 <= i < prepared.len() && prepared[i] == active[k];
        assert(prepared[i].active(now) && prepared[i].username == name);
        assert forall|n: int|
            0 <= n < prepared.len() && (#[trigger] prepared[n]).active(now) && prepared[n].username
                == name && (forall|j: int|
                0 <= j < prepared.len() && j != n ==> (#[trigger] prepared[j]).username
                    != name) implies m.lockout(name, now) == Some(prepared[n].expires_at) by {
            assert(i == n);
        }
    }
}

proof fn active_names_differ(prepared: Seq<LockEntry>, now: i64)
    requires
        forall|i: int, j: int|
            0 <= i < j < prepared.len() ==> (#[trigger] prepared[i]).username != (
            #[trigger] prepared[j]).username,
    ensures
        ({
            let active = lock_cache::still_active(prepared, now);
            forall|i: int, j: int|
                0 <= i < j < active.len() ==> (#[trigger] active[i]).username != (
                #[trigger] active[j]).username
        }),
    decreases prepared.len(),
{
    reveal(Seq::filter);
    if prepared.len() > 0 {
        let p = |e: LockEntry| e.active(now);
        let before = prepared.drop_last();
        let active = lock_cache::still_active(prepared, now);
        let earlier = lock_cache::still_active(before, now);
        active_names_differ(before, now);
        assert forall|i: int, j: int| 0 <= i < j < active.len() implies (
        #[trigger] active[i]).username != (#[trigger] active[j]).username by {
            assert(active[i] == earlier[i]);
            if j < earlier.len() {
                assert(active[j] == earlier[j]);
            } else {
                assert(earlier.contains(earlier[i]));
                before.lemma_filter_contains_rev(p, earlier[i]);
                let k = choose|k: int| 0 <= k < before.len() && before[k] == earlier[i];
                assert(prepared[k] == before[k]);
            }
        }
    }
}

/// Hydration from rows of different names leaves no name with two entries.
pub proof fn hydration_is_distinct(prepared: Seq<LockEntry>, m: LockModel, now: i64)
    requires
        m.entries == lock_cache::hydrated_entries(prepared, now),
        forall|i: int, j: int|
            0 <= i < j < prepared.len() ==> (#[trigger] prepared[i]).username != (
            #[trigger] prepared[j]).username,
    ensures
        distinct(m),
{
    active_names_differ(prepared, now);
    let active = lock_cache::still_active(prepared, now);
    assert forall|i: int, j: int|
        0 <= i < j < m.entries.len() && (#[trigger] m.entries[i]).used() && (
        #[trigger] m.entries[j]).used() implies m.entries[i].username
        != m.entries[j].username by {
        assert(j < active.len());
        assert(m.entries[i] == active[i] && m.entries[j] == active[j]);
    }
}

/// An empty cache locks nobody and its names are distinct.
pub proof fn empty_cache_is_open(m: LockModel, name: [u8; LOCK_USERNAME_BYTES], now: i64)
    requires
        forall|i: int| 0 <= i < m.entries.len() ==> #[trigger] m.entries[i] == LockEntry::blank(),
    ensures
        m.lockout(name, now) is None,
        distinct(m),
{
    no_lockout(m, name, now);
}

/// A readiness is read back as it was stored, and a number that stands for none is not ready.
pub proof fn readiness_is_read_back(state: CacheState, raw: i32, m: LockModel)
    ensures
        CacheState::of_raw(state.number()) == state,
        m.in_state(state).readiness() == state,
        m.in_state(state).entries == m.entries,
        raw < 0 || raw > 3 ==> CacheState::of_raw(raw) == CacheState::NotReady,
{
}

/// The database decides a lockout: one that is still ahead is installed with exactly its expiry, and
/// everything else clears the entry. Without a database nothing is decided.
pub proof fn database_decides(
    has_database: bool,
    lockout_until: Option<i64>,
    now: i64,
    r: Result<CacheDecision, &'static str>,
)
    requires
        call_ensures(lock_cache::decision_from_db, (has_database, lockout_until, now), r),
    ensures
        r is Ok <==> has_database,
        has_database && lockout_until is Some && lockout_until->0 > now ==> r == Ok::<
            CacheDecision,
            &'static str,
        >(CacheDecision::SetLock(lockout_until->0)),
        has_database && !(lockout_until is Some && lockout_until->0 > now) ==> r == Ok::<
            CacheDecision,
            &'static str,
        >(CacheDecision::ClearLock),
{
}

/// The cache overflows exactly when a lockout that is ahead finds neither an entry of its name nor one
/// that is not an active lockout. Otherwise it is applied, and the readiness and the numbers of the
/// last hydration stay; at most one entry differs, and it then is the lockout.
pub proof fn set_overflows_only_when_full(
    m: LockModel,
    name: [u8; LOCK_USERNAME_BYTES],
    expires_at: i64,
    now: i64,
)
    ensures
        ({
            let after = m.with_lock(name, expires_at, now);
            let overflowed = m.set_status(name, expires_at, now)
                == lock_cache::CacheOpStatus::Overflowed;
            &&& overflowed <==> {
                &&& expires_at > now
                &&& name@[0] != 0
                &&& forall|i: int|
                    0 <= i < m.entries.len() ==> {
                        &&& (#[trigger] m.entries[i]).username@[0] != 0
                        &&& m.entries[i].username != name
                        &&& m.entries[i].expires_at > now
                    }
            }
            &&& !overflowed ==> after.state == m.state
            &&& overflowed ==> after.state == 2
            &&& expires_at <= now ==> after == m
            &&& after.hydration_active_total == m.hydration_active_total
            &&& after.hydration_loaded == m.hydration_loaded
            &&& after.hydration_overflow == m.hydration_overflow
            &&& after.entries.len() == m.entries.len()
            &&& forall|i: int|
                0 <= i < m.entries.len() && #[trigger] after.entries[i] != m.entries[i]
                    ==> after.entries[i].username == name && after.entries[i].expires_at
                    == expires_at
        }),
{
    let is_name = |e: LockEntry| e.is_for(name);
    let is_free = |e: LockEntry| !e.active(now);
    search::first_index_found(m.entries, is_name);
    search::first_index_found(m.entries, is_free);
    let i = m.slot_of(name);
    let j = m.free_slot(now);
    if m.set_status(name, expires_at, now) == lock_cache::CacheOpStatus::Overflowed {
        assert forall|k: int| 0 <= k < m.entries.len() implies {
            &&& (#[trigger] m.entries[k]).username@[0] != 0
            &&& m.entries[k].username != name
            &&& m.entries[k].expires_at > now
        } by {
            assert(!is_name(m.entries[k]) && !is_free(m.entries[k]));
        }
    } else if i < m.entries.len() {
        assert(is_name(m.entries[i]));
    } else if j < m.entries.len() {
        assert(is_free(m.entries[j]));
    }
}

/// Clearing keeps the readiness and the numbers of the last hydration, and touches no entry of another
/// name.
pub proof fn clear_touches_only_its_entry(
    m: LockModel,
    name: [u8; LOCK_USERNAME_BYTES],
    i: int,
)
    requires
        0 <= i < m.entries.len(),
    ensures
        ({
            let after = m.without_lock(name);
            &&& after.state == m.state
            &&& after.hydration_active_total == m.hydration_active_total
            &&& after.hydration_loaded == m.hydration_loaded
            &&& after.hydration_overflow == m.hydration_overflow
            &&& after.entries.len() == m.entries.len()
            &&& m.entries[i].username != name ==> after.entries[i] == m.entries[i]
            &&& after.entries[i] != m.entries[i] ==> after.entries[i].username@[0] == 0
        }),
{
    let is_name = |e: LockEntry| e.is_for(name);
    search::first_index_found(m.entries, is_name);
}

/// An applied decision shows in the lookup: a lockout that was decided on is found with its expiry, a
/// cleared one is gone.
pub proof fn applied_decision_shows(
    m: LockModel,
    name: [u8; LOCK_USERNAME_BYTES],
    lockout_until: Option<i64>,
    now: i64,
)
    requires
        distinct(m),
        name@[0] != 0,
        exists|i: int| 0 <= i < m.entries.len() && !(#[trigger] m.entries[i]).active(now),
    ensures
        ({
            let after = m.applied(name, lock_cache::decision(lockout_until, now), now);
            &&& lockout_until is Some && lockout_until->0 > now ==> after.lockout(name, now)
                == lockout_until
            &&& !(lockout_until is Some && lockout_until->0 > now) ==> after.lockout(name, now)
                is None
            &&& after.readiness() == m.readiness()
        }),
{
    let i = choose|i: int| 0 <= i < m.entries.len() && !(#[trigger] m.entries[i]).active(now);
    let is_free = |e: LockEntry| !e.active(now);
    search::first_index_found(m.entries, is_free);
    assert(is_free(m.entries[i]));
    if lockout_until is Some && lockout_until->0 > now {
        set_is_found(m, name, lockout_until->0, now, now);
    } else {
        clear_is_gone(m, name, now);
    }
}

/// The row names a role and a lockout.
pub open spec fn complete(row: LockRow) -> bool {
    row.username is Some && row.username->0@.len() >= 1 && row.lockout_until is Some
}

/// Every complete row is prepared, with its role's name and its expiry, and nothing else is.
pub proof fn complete_rows_are_prepared(rows: Seq<LockRow>)
    ensures
        ({
            let prepared = lock_cache::prepared_of(rows);
            &&& prepared.len() == search::count_where(rows, |row: LockRow| complete(row))
            &&& forall|i: int|
                0 <= i < rows.len() && complete(#[trigger] rows[i]) ==> prepared.contains(
                    LockEntry {
                        username: username::encoded_name(rows[i].username->0@),
                        expires_at: rows[i].lockout_until->0,
                    },
                )
            &&& forall|k: int|
                0 <= k < prepared.len() ==> exists|i: int|
                    0 <= i < rows.len() && complete(#[trigger] rows[i]) && rows[i].lockout_until
                        == Some((#[trigger] prepared[k]).expires_at) && prepared[k].username
                        == username::encoded_name(rows[i].username->0@)
        }),
    decreases rows.len(),
{
    if rows.len() > 0 {
        let before = rows.drop_last();
        let earlier = lock_cache::prepared_of(before);
        let prepared = lock_cache::prepared_of(rows);
        complete_rows_are_prepared(before);
        assert forall|i: int| 0 <= i < rows.len() && complete(#[trigger] rows[i]) implies
            prepared.contains(
            LockEntry {
                username: username::encoded_name(rows[i].username->0@),
                expires_at: rows[i].lockout_until->0,
            },
        ) by {
            let e = LockEntry {
                username: username::encoded_name(rows[i].username->0@),
                expires_at: rows[i].lockout_until->0,
            };
            if i < before.len() {
                assert(before[i] == rows[i]);
                assert(earlier.contains(e));
                let k = choose|k: int| 0 <= k < earlier.len() && earlier[k] == e;
                assert(prepared[k] == e);
            } else {
                assert(prepared.last() == e);
            }
        }
        assert forall|k: int| 0 <= k < prepared.len() implies exists|i: int|
            0 <= i < rows.len() && complete(#[trigger] rows[i]) && rows[i].lockout_until == Some(
                (#[trigger] prepared[k]).expires_at,
            ) && prepared[k].username == username::encoded_name(rows[i].username->0@) by {
            if k < earlier.len() {
                assert(prepared[k] == earlier[k]);
                let i = choose|i: int|
                    0 <= i < before.len() && complete(#[trigger] before[i])
                        && before[i].lockout_until == Some(earlier[k].expires_at)
                        && earlier[k].username == username::encoded_name(before[i].username->0@);
                assert(rows[i] == before[i]);
            } else {
                assert(rows[rows.len() - 1] == rows.last());
            }
        }
    }
}

/// Hydration from rows is exact while what is active fits: a role whose row is still ahead is locked
/// afterwards, and whoever is locked has such a row. The cache is ready exactly when the table has no
/// more lockouts than the rows that were read.
pub proof fn hydration_follows_the_rows(total: i64, rows: Seq<LockRow>, m: LockModel, now: i64)
    requires
        m == lock_cache::hydrated(total, rows, now),
        rows.len() <= 2048,
    ensures
        forall|i: int|
            0 <= i < rows.len() && complete(#[trigger] rows[i]) && rows[i].lockout_until->0 > now
                && username::encoded_name(rows[i].username->0@)@[0] != 0 ==> m.lockout(
                username::encoded_name(rows[i].username->0@),
                now,
            ) is Some,
        forall|name: [u8; LOCK_USERNAME_BYTES]| #[trigger]
            m.lockout(name, now) is Some ==> exists|i: int|
                0 <= i < rows.len() && complete(#[trigger] rows[i]) && rows[i].lockout_until->0
                    > now && username::encoded_name(rows[i].username->0@) == name,
        m.readiness() == CacheState::Ready <==> total <= search::count_where(
            rows,
            |row: LockRow| complete(row),
        ),
        m.readiness() != CacheState::Ready ==> m.readiness() == CacheState::Overflow,
        m.hydration_active_total == total,
{
    let prepared = lock_cache::prepared_of(rows);
    complete_rows_are_prepared(rows);
    search::count_bounded(rows, |row: LockRow| complete(row));
    prepared.lemma_filter_len(|e: LockEntry| e.active(now));
    assert forall|i: int|
        0 <= i < rows.len() && complete(#[trigger] rows[i]) && rows[i].lockout_until->0 > now
            && username::encoded_name(rows[i].username->0@)@[0] != 0 implies m.lockout(
        username::encoded_name(rows[i].username->0@),
        now,
    ) is Some by {
        let e = LockEntry {
            username: username::encoded_name(rows[i].username->0@),
            expires_at: rows[i].lockout_until->0,
        };
        assert(prepared.contains(e));
        let k = choose|k: int| 0 <= k < prepared.len() && prepared[k] == e;
        hydration_is_complete(prepared, m, e.username, now);
        assert(prepared[k].active(now) && prepared[k].username == e.username);
    }
    assert forall|name: [u8; LOCK_USERNAME_BYTES]| #[trigger]
        m.lockout(name, now) is Some implies exists|i: int|
        0 <= i < rows.len() && complete(#[trigger] rows[i]) && rows[i].lockout_until->0 > now
            && username::encoded_name(rows[i].username->0@) == name by {
        hydration_is_complete(prepared, m, name, now);
        let k = choose|k: int|
            0 <= k < prepared.len() && (#[trigger] prepared[k]).active(now) && prepared[k].username
                == name;
        let i = choose|i: int|
            0 <= i < rows.len() && complete(#[trigger] rows[i]) && rows[i].lockout_until == Some(
                prepared[k].expires_at,
            ) && prepared[k].username == username::encoded_name(rows[i].username->0@);
        assert(complete(rows[i]));
    }
}

/// One more entry counts as used when it has a name, and as active when it is ahead besides; the
/// counts of the empty cache are zero.
pub proof fn counts_add_up(m: LockModel, more: LockModel, e: LockEntry, now: i64, c: lock_cache::LockCacheCounts, d: lock_cache::LockCacheCounts)
    requires
        more.entries == m.entries.push(e),
        lock_cache::counted(m, now, c),
        lock_cache::counted(more, now, d),
    ensures
        d.used == c.used + if e.username@[0] != 0 {
            1int
        } else {
            0
        },
        d.active == c.active + if e.username@[0] != 0 && e.expires_at > now {
            1int
        } else {
            0
        },
        m.entries.len() == 0 ==> c.used == 0 && c.active == 0,
        c.state == m.readiness().number(),
        c.hydration_active_total == m.hydration_active_total,
        c.hydration_loaded == m.hydration_loaded,
        c.hydration_overflow == m.hydration_overflow,
{
    assert(more.entries.drop_last() =~= m.entries);
    assert(more.entries.last() == e);
}

/// What a hydration reports as loaded is the number of prepared lockouts that are ahead, as far as there
/// are slots, and what it reports as left out is how many more the table has than were read complete.
pub proof fn hydration_numbers_are_exact(total: i64, rows: Seq<LockRow>, now: i64)
    ensures
        ({
            let m = lock_cache::hydrated(total, rows, now);
            let prepared = lock_cache::prepared_of(rows);
            let ahead = search::count_where(
                prepared,
                |e: LockEntry| e.username@[0] != 0 && e.expires_at > now,
            );
            let read = search::count_where(rows, |row: LockRow| complete(row));
            &&& ahead <= 2048 ==> m.hydration_loaded == ahead
            &&& ahead > 2048 ==> m.hydration_loaded == 2048
            &&& total > read ==> m.hydration_overflow == total - read
            &&& total <= read ==> m.hydration_overflow == 0
        }),
{
    let prepared = lock_cache::prepared_of(rows);
    let p = |e: LockEntry| e.active(now);
    let q = |e: LockEntry| e.username@[0] != 0 && e.expires_at > now;
    complete_rows_are_prepared(rows);
    search::count_is_what_a_filter_keeps(prepared, p);
    search::count_depends_on_the_elements(prepared, p, q);
}

/// What the functions about the cache answer.
pub proof fn answers_about_the_cache(
    cache: &LockCache,
    state: CacheState,
    no_state: CacheState,
    until: Option<i64>,
    now: i64,
    decision: CacheDecision,
    has_database: bool,
    has_cache: bool,
    may: Result<(), &'static str>,
)
    requires
        call_ensures(lock_cache::state, (Some(cache),), state),
        call_ensures(lock_cache::state, (None,), no_state),
        call_ensures(lock_cache::decision_for, (until, now), decision),
        call_ensures(lock_cache::hydration_ready, (has_database, has_cache), may),
    ensures
        state == CacheState::Ready <==> cache@.state == 1,
        state == CacheState::Overflow <==> cache@.state == 2,
        state == CacheState::WorkerFailed <==> cache@.state == 3,
        no_state == CacheState::NotReady,
        until is Some && until->0 > now ==> decision == CacheDecision::SetLock(until->0),
        until is None || until->0 <= now ==> decision == CacheDecision::ClearLock,
        may is Ok <==> has_database && has_cache,
{
}

/// An entry that is not in use holds nothing, and clearing leaves such a one.
pub proof fn cleared_entry_holds_nothing(
    m: LockModel,
    name: [u8; LOCK_USERNAME_BYTES],
    i: int,
    k: int,
)
    requires
        0 <= i < m.entries.len(),
        m.without_lock(name).entries[i] != m.entries[i],
        0 <= k < 64,
    ensures
        m.without_lock(name).entries[i].username@[k] == 0,
        m.without_lock(name).entries[i].expires_at == 0,
{
    let is_name = |e: LockEntry| e.is_for(name);
    search::first_index_found(m.entries, is_name);
}

} // verus!
