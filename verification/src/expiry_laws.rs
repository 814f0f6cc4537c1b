//! Laws of the expiry cache and of grace logins.

use crate::auth_event::{EventFlags, RingModel, EVENT_ID_BYTES};
use crate::expiry_cache;
use crate::expiry_cache::{
    ExpiryCache, ExpiryCacheState, ExpiryDecision, ExpiryEntry, ExpiryModel, ExpiryRow,
    ExpiryStats, GraceOutcome, EXPIRY_CACHE_SIZE,
};
use crate::lock_cache::CacheOpStatus;
use crate::search;
use crate::username;
use crate::username::LOCK_USERNAME_BYTES;
use crate::worker_health::WorkerHealth;
use vstd::prelude::*;

verus! {

/// No name has two entries.
pub open spec fn distinct(m: ExpiryModel) -> bool {
    forall|i: int, j: int|
        0 <= i < j < m.entries.len() && (#[trigger] m.entries[i]).used() && (
        #[trigger] m.entries[j]).used() ==> m.entries[i].username != m.entries[j].username
}

/// No allowance is negative.
pub open spec fn allowances_valid(m: ExpiryModel) -> bool {
    forall|i: int| 0 <= i < m.entries.len() ==> (#[trigger] m.entries[i]).grace_remaining >= 0
}

proof fn entry_is(m: ExpiryModel, name: [u8; LOCK_USERNAME_BYTES], at: int)
    requires
        0 <= at <= m.entries.len(),
        at < m.entries.len() ==> m.entries[at].is_for(name),
        forall|i: int| 0 <= i < at ==> !(#[trigger] m.entries[i]).is_for(name),
    ensures
        m.slot_of(name) == at,
        m.entry_of(name) == if at < m.entries.len() {
            Some(m.entries[at])
        } else {
            None::<ExpiryEntry>
        },
{
    let p = |e: ExpiryEntry| e.is_for(name);
    search::first_index_is(m.entries, p, at);
}

proof fn entry_found(m: ExpiryModel, name: [u8; LOCK_USERNAME_BYTES])
    ensures
        0 <= m.slot_of(name) <= m.entries.len(),
        m.slot_of(name) < m.entries.len() ==> m.entries[m.slot_of(name)].is_for(name),
        forall|i: int| 0 <= i < m.slot_of(name) ==> !(#[trigger] m.entries[i]).is_for(name),
{
    let p = |e: ExpiryEntry| e.is_for(name);
    search::first_index_found(m.entries, p);
    assert forall|i: int| 0 <= i < m.slot_of(name) implies !(#[trigger] m.entries[i]).is_for(
        name,
    ) by {
        assert(!p(m.entries[i]));
    }
}

proof fn free_found(m: ExpiryModel)
    ensures
        0 <= m.free_slot() <= m.entries.len(),
        m.free_slot() < m.entries.len() ==> !m.entries[m.free_slot()].used(),
        m.free_slot() == m.entries.len() ==> forall|i: int|
            0 <= i < m.entries.len() ==> (#[trigger] m.entries[i]).used(),
{
    let p = |e: ExpiryEntry| !e.used();
    search::first_index_found(m.entries, p);
    if m.free_slot() == m.entries.len() {
        assert forall|i: int| 0 <= i < m.entries.len() implies (
        #[trigger] m.entries[i]).used() by {
            assert(!p(m.entries[i]));
        }
    }
}

/// An entry that changed in a slot of another name leaves `name` alone.
proof fn other_slot_is_irrelevant(
    m: ExpiryModel,
    after: ExpiryModel,
    slot: int,
    name: [u8; LOCK_USERNAME_BYTES],
)
    requires
        0 <= slot < m.entries.len(),
        after.entries.len() == m.entries.len(),
        forall|i: int|
            0 <= i < m.entries.len() && i != slot ==> #[trigger] after.entries[i] == m.entries[i],
        !m.entries[slot].is_for(name),
        !after.entries[slot].is_for(name),
    ensures
        after.entry_of(name) == m.entry_of(name),
{
    entry_found(m, name);
    let k = m.slot_of(name);
    assert forall|i: int| 0 <= i < k implies !(#[trigger] after.entries[i]).is_for(name) by {
        if i != slot {
            assert(!m.entries[i].is_for(name));
        }
    }
    if k < m.entries.len() {
        assert(after.entries[k] == m.entries[k]);
    }
    entry_is(after, name, k);
}

/// An entry that was set is found, exactly as it was set.
pub proof fn set_is_found(
    m: ExpiryModel,
    name: [u8; LOCK_USERNAME_BYTES],
    must_change_by: i64,
    generation: i64,
    grace: i32,
)
    requires
        m.set_status(name) is Applied,
    ensures
        m.with_entry(name, must_change_by, generation, grace).entry_of(name) == Some(
            ExpiryEntry {
                username: name,
                must_change_by,
                generation,
                grace_remaining: expiry_cache::at_least_zero(grace),
            },
        ),
{
    let after = m.with_entry(name, must_change_by, generation, grace);
    entry_found(m, name);
    free_found(m);
    let i = m.slot_of(name);
    let at = if i < m.entries.len() {
        i
    } else {
        m.free_slot()
    };
    assert forall|k: int| 0 <= k < at implies !(#[trigger] after.entries[k]).is_for(name) by {
        assert(after.entries[k] == m.entries[k]);
        assert(k < i);
    }
    entry_is(after, name, at);
}

/// Setting one name leaves every other one alone.
pub proof fn set_spares_others(
    m: ExpiryModel,
    name: [u8; LOCK_USERNAME_BYTES],
    must_change_by: i64,
    generation: i64,
    grace: i32,
    other: [u8; LOCK_USERNAME_BYTES],
)
    requires
        other != name,
    ensures
        m.with_entry(name, must_change_by, generation, grace).entry_of(other) == m.entry_of(other),
{
    let after = m.with_entry(name, must_change_by, generation, grace);
    entry_found(m, name);
    free_found(m);
    if name@[0] == 0 {
    } else if m.slot_of(name) < m.entries.len() {
        other_slot_is_irrelevant(m, after, m.slot_of(name), other);
    } else if m.free_slot() < m.entries.len() {
        other_slot_is_irrelevant(m, after, m.free_slot(), other);
    }
}

/// A cleared name has no entry.
pub proof fn clear_is_gone(m: ExpiryModel, name: [u8; LOCK_USERNAME_BYTES])
    requires
        distinct(m),
    ensures
        m.without_entry(name).entry_of(name) is None,
{
    let after = m.without_entry(name);
    entry_found(m, name);
    let i = m.slot_of(name);
    assert forall|k: int| 0 <= k < after.entries.len() implies !(
    #[trigger] after.entries[k]).is_for(name) by {
        if k != i {
            assert(after.entries[k] == m.entries[k]);
        }
    }
    entry_is(after, name, after.entries.len() as int);
}

/// Clearing one name leaves every other one alone.
pub proof fn clear_spares_others(
    m: ExpiryModel,
    name: [u8; LOCK_USERNAME_BYTES],
    other: [u8; LOCK_USERNAME_BYTES],
)
    requires
        other != name,
    ensures
        m.without_entry(name).entry_of(other) == m.entry_of(other),
{
    entry_found(m, name);
    if m.slot_of(name) < m.entries.len() {
        other_slot_is_irrelevant(m, m.without_entry(name), m.slot_of(name), other);
    }
}

/// A full cache keeps every entry and is no longer ready.
pub proof fn overflow_evicts_nobody(
    m: ExpiryModel,
    name: [u8; LOCK_USERNAME_BYTES],
    must_change_by: i64,
    generation: i64,
    grace: i32,
)
    requires
        m.set_status(name) is Overflowed,
        name@[0] != 0,
    ensures
        m.with_entry(name, must_change_by, generation, grace).entries == m.entries,
        m.with_entry(name, must_change_by, generation, grace).readiness() is Overflow,
        forall|i: int| 0 <= i < m.entries.len() ==> (#[trigger] m.entries[i]).used(),
{
    entry_found(m, name);
    free_found(m);
}

/// Setting, clearing and using up grace logins keep the names distinct, the allowances valid and
/// the number of slots.
pub proof fn shape_is_kept(
    m: ExpiryModel,
    name: [u8; LOCK_USERNAME_BYTES],
    must_change_by: i64,
    generation: i64,
    grace: i32,
    now: i64,
    durable: bool,
)
    requires
        distinct(m),
        allowances_valid(m),
    ensures
        ({
            let set = m.with_entry(name, must_change_by, generation, grace);
            distinct(set) && allowances_valid(set) && set.entries.len() == m.entries.len()
        }),
        ({
            let cleared = m.without_entry(name);
            distinct(cleared) && allowances_valid(cleared) && cleared.entries.len()
                == m.entries.len()
        }),
        ({
            let used = m.after_grace(name, now, durable);
            distinct(used) && allowances_valid(used) && used.entries.len() == m.entries.len()
        }),
{
    entry_found(m, name);
    free_found(m);
    let set = m.with_entry(name, must_change_by, generation, grace);
    assert forall|i: int, j: int|
        0 <= i < j < set.entries.len() && (#[trigger] set.entries[i]).used() && (
        #[trigger] set.entries[j]).used() implies set.entries[i].username
        != set.entries[j].username by {
        if m.slot_of(name) == m.entries.len() {
            assert(!m.entries[i].is_for(name));
            assert(!m.entries[j].is_for(name));
        }
    }
    let used = m.after_grace(name, now, durable);
    assert forall|i: int, j: int|
        0 <= i < j < used.entries.len() && (#[trigger] used.entries[i]).used() && (
        #[trigger] used.entries[j]).used() implies used.entries[i].username
        != used.entries[j].username by {
        assert(used.entries[i].username == m.entries[i].username);
        assert(used.entries[j].username == m.entries[j].username);
    }
}

/// A grace login whose event is durable takes exactly one off the allowance and changes nothing
/// else of the entry.
pub proof fn consumed_grace_costs_one(m: ExpiryModel, name: [u8; LOCK_USERNAME_BYTES], now: i64)
    requires
        m.decision(name, now) is ExpiredWithGrace,
    ensures
        ({
            let before = m.entry_of(name)->0;
            m.after_grace(name, now, true).entry_of(name) == Some(
                ExpiryEntry { grace_remaining: (before.grace_remaining - 1) as i32, ..before },
            )
        }),
{
    let after = m.after_grace(name, now, true);
    entry_found(m, name);
    let i = m.slot_of(name);
    assert forall|k: int| 0 <= k < i implies !(#[trigger] after.entries[k]).is_for(name) by {
        assert(after.entries[k] == m.entries[k]);
    }
    entry_is(after, name, i);
}

/// Nothing is taken off for a login whose event is not durable.
pub proof fn unrecorded_grace_costs_nothing(
    m: ExpiryModel,
    name: [u8; LOCK_USERNAME_BYTES],
    now: i64,
)
    ensures
        m.after_grace(name, now, false) == m,
{
}

/// The grace login of one name leaves every other one alone.
pub proof fn grace_spares_others(
    m: ExpiryModel,
    name: [u8; LOCK_USERNAME_BYTES],
    now: i64,
    durable: bool,
    other: [u8; LOCK_USERNAME_BYTES],
)
    requires
        other != name,
    ensures
        m.after_grace(name, now, durable).entry_of(other) == m.entry_of(other),
{
    entry_found(m, name);
    if m.grace_outcome(name, now, durable) is Consumed {
        other_slot_is_irrelevant(m, m.after_grace(name, now, durable), m.slot_of(name), other);
    }
}

/// The cache after durable uses of a grace login at these times, one after the other.
pub open spec fn after_logins(
    m: ExpiryModel,
    name: [u8; LOCK_USERNAME_BYTES],
    times: Seq<i64>,
) -> ExpiryModel
    decreases times.len(),
{
    if times.len() == 0 {
        m
    } else {
        after_logins(m, name, times.drop_last()).after_grace(name, times.last(), true)
    }
}

/// An allowance is worth exactly as many logins as it says: after that many, whenever they come,
/// the next one finds none left.
pub proof fn grace_runs_out(
    m: ExpiryModel,
    name: [u8; LOCK_USERNAME_BYTES],
    times: Seq<i64>,
    now: i64,
)
    requires
        m.readiness() is Ready,
        m.entry_of(name) matches Some(e) && times.len() <= e.grace_remaining && e.must_change_by
            <= now && (forall|i: int|
            0 <= i < times.len() ==> e.must_change_by <= #[trigger] times[i]),
    ensures
        ({
            let e = m.entry_of(name)->0;
            let after = after_logins(m, name, times);
            &&& after.readiness() is Ready
            &&& after.entry_of(name) == Some(
                ExpiryEntry { grace_remaining: (e.grace_remaining - times.len()) as i32, ..e },
            )
            &&& after.decision(name, now) == if times.len() == e.grace_remaining {
                ExpiryDecision::ExpiredNoGrace
            } else {
                ExpiryDecision::ExpiredWithGrace
            }
        }),
    decreases times.len(),
{
    if times.len() > 0 {
        let e = m.entry_of(name)->0;
        let earlier = times.drop_last();
        assert forall|i: int| 0 <= i < earlier.len() implies e.must_change_by
            <= #[trigger] earlier[i] by {
            assert(earlier[i] == times[i]);
        }
        let before = after_logins(m, name, earlier);
        assert(times[times.len() - 1] == times.last());
        grace_runs_out(m, name, earlier, times.last());
        consumed_grace_costs_one(before, name, times.last());
    }
}

/// Hydration covers every prepared name: when they fit and are distinct, each is found exactly as
/// it was prepared, and nobody else is.
pub proof fn hydration_is_complete(
    prepared: Seq<ExpiryEntry>,
    m: ExpiryModel,
    name: [u8; LOCK_USERNAME_BYTES],
)
    requires
        m.entries == expiry_cache::hydrated_entries(prepared),
        expiry_cache::named(prepared).len() <= EXPIRY_CACHE_SIZE,
        forall|i: int, j: int|
            0 <= i < j < prepared.len() ==> (#[trigger] prepared[i]).username != (
            #[trigger] prepared[j]).username,
    ensures
        m.entry_of(name) is Some <==> exists|i: int|
            0 <= i < prepared.len() && (#[trigger] prepared[i]).is_for(name),
        forall|i: int|
            0 <= i < prepared.len() && (#[trigger] prepared[i]).is_for(name) ==> m.entry_of(name)
                == Some(prepared[i]),
{
    broadcast use vstd::seq_lib::group_filter_ensures;

    let p = |e: ExpiryEntry| e.used();
    let live = expiry_cache::named(prepared);
    entry_found(m, name);
    let k = m.slot_of(name);
    if k < m.entries.len() {
        if k >= live.len() {
            assert(m.entries[k] == ExpiryEntry::blank());
            assert(false);
        }
        assert(live.contains(live[k]));
        prepared.lemma_filter_contains_rev(p, live[k]);
        let i = choose|i: int| 0 <= i < prepared.len() && prepared[i] == live[k];
        assert(prepared[i].is_for(name));
        assert forall|n: int|
            0 <= n < prepared.len() && (#[trigger] prepared[n]).is_for(name) implies m.entry_of(
            name,
        ) == Some(prepared[n]) by {
            assert(prepared[n].username == prepared[i].username);
        }
    } else {
        assert forall|n: int| 0 <= n < prepared.len() implies !(
        #[trigger] prepared[n]).is_for(name) by {
            if prepared[n].is_for(name) {
                assert(p(prepared[n]));
                assert(live.contains(prepared[n]));
                let j = choose|j: int| 0 <= j < live.len() && live[j] == prepared[n];
                assert(m.entries[j] == live[j]);
                assert(false);
            }
        }
    }
}

proof fn used_names_differ(prepared: Seq<ExpiryEntry>)
    requires
        forall|i: int, j: int|
            0 <= i < j < prepared.len() ==> (#[trigger] prepared[i]).username != (
            #[trigger] prepared[j]).username,
    ensures
        ({
            let live = expiry_cache::named(prepared);
            forall|i: int, j: int|
                0 <= i < j < live.len() ==> (#[trigger] live[i]).username != (
                #[trigger] live[j]).username
        }),
    decreases prepared.len(),
{
    reveal(Seq::filter);
    if prepared.len() > 0 {
        let p = |e: ExpiryEntry| e.used();
        let before = prepared.drop_last();
        let live = expiry_cache::named(prepared);
        let earlier = expiry_cache::named(before);
        used_names_differ(before);
        assert forall|i: int, j: int| 0 <= i < j < live.len() implies (
        #[trigger] live[i]).username != (#[trigger] live[j]).username by {
            assert(live[i] == earlier[i]);
            if j < earlier.len() {
                assert(live[j] == earlier[j]);
            } else {
                assert(earlier.contains(earlier[i]));
                before.lemma_filter_contains_rev(p, earlier[i]);
                let k = choose|k: int| 0 <= k < before.len() && before[k] == earlier[i];
                assert(prepared[k] == before[k]);
            }
        }
    }
}

/// Hydration from rows of different names leaves no name with two entries.
pub proof fn hydration_is_distinct(prepared: Seq<ExpiryEntry>, m: ExpiryModel)
    requires
        m.entries == expiry_cache::hydrated_entries(prepared),
        forall|i: int, j: int|
            0 <= i < j < prepared.len() ==> (#[trigger] prepared[i]).username != (
            #[trigger] prepared[j]).username,
    ensures
        distinct(m),
{
    used_names_differ(prepared);
    let live = expiry_cache::named(prepared);
    assert forall|i: int, j: int|
        0 <= i < j < m.entries.len() && (#[trigger] m.entries[i]).used() && (
        #[trigger] m.entries[j]).used() implies m.entries[i].username
        != m.entries[j].username by {
        assert(j < live.len());
        assert(m.entries[i] == live[i] && m.entries[j] == live[j]);
    }
}

/// A name has an entry exactly when a slot in use bears it, and its entry is such a slot's.
pub proof fn entry_is_a_slot_of_its_name(m: ExpiryModel, name: [u8; LOCK_USERNAME_BYTES])
    ensures
        m.entry_of(name) is Some <==> exists|i: int|
            0 <= i < m.entries.len() && (#[trigger] m.entries[i]).username@[0] != 0
                && m.entries[i].username == name,
        m.entry_of(name) matches Some(e) ==> e.username == name && m.entries.contains(e),
{
    entry_found(m, name);
    if exists|i: int|
        0 <= i < m.entries.len() && (#[trigger] m.entries[i]).username@[0] != 0
            && m.entries[i].username == name {
        let i = choose|i: int|
            0 <= i < m.entries.len() && (#[trigger] m.entries[i]).username@[0] != 0
                && m.entries[i].username == name;
        assert(m.entries[i].is_for(name));
    }
    if m.entry_of(name) is Some {
        let k = m.slot_of(name);
        assert(m.entries[k].username == name);
        assert(m.entries[k].username@[0] != 0);
    }
}

/// A readiness is read back as it was stored, and a number that stands for none is not ready.
pub proof fn readiness_is_read_back(state: ExpiryCacheState, raw: i32, m: ExpiryModel)
    ensures
        ExpiryCacheState::of_raw(state.number()) == state,
        m.in_state(state).readiness() == state,
        m.in_state(state).entries == m.entries,
        raw < 0 || raw > 3 ==> ExpiryCacheState::of_raw(raw) == ExpiryCacheState::NotReady,
{
}

/// Only a ready cache answers, whatever it holds; a name without an entry has no expiry; a password
/// is good until its time, which itself is past it, and then for a login while grace logins are left.
pub proof fn answer_is_exact(m: ExpiryModel, name: [u8; LOCK_USERNAME_BYTES], now: i64)
    ensures
        ({
            let d = m.decision(name, now);
            let e = m.entry_of(name)->0;
            let known = m.state == 1 && m.entry_of(name) is Some;
            &&& d == ExpiryDecision::CacheUnavailable <==> m.state != 1
            &&& d == ExpiryDecision::NoRow <==> m.state == 1 && m.entry_of(name) is None
            &&& d == ExpiryDecision::NotExpired <==> known && now < e.must_change_by
            &&& d == ExpiryDecision::ExpiredWithGrace <==> known && now >= e.must_change_by
                && e.grace_remaining >= 1
            &&& d == ExpiryDecision::ExpiredNoGrace <==> known && now >= e.must_change_by
                && e.grace_remaining <= 0
        }),
{
}

/// What a lookup answers is the cache's answer for the role's name; without shared memory there is
/// none. A grace event is due exactly for an expired password with grace logins left, and it bears the
/// entry's generation.
pub proof fn lookup_answers_for_the_role(
    cache: &ExpiryCache,
    role: &str,
    now: i64,
    answer: ExpiryDecision,
    without: ExpiryDecision,
    due: Option<i64>,
)
    requires
        call_ensures(expiry_cache::lookup, (Some(cache), role, now), answer),
        call_ensures(expiry_cache::lookup, (None, role, now), without),
        call_ensures(expiry_cache::grace_event_generation, (cache, role, now), due),
    ensures
        ({
            let e = cache@.entry_of(username::encoded_name(role@));
            &&& without == ExpiryDecision::CacheUnavailable
            &&& answer == ExpiryDecision::CacheUnavailable <==> cache@.state != 1
            &&& answer == ExpiryDecision::ExpiredWithGrace <==> due is Some
            &&& due is Some <==> cache@.state == 1 && e is Some && now >= e->0.must_change_by
                && e->0.grace_remaining >= 1
            &&& due is Some ==> due == Some(e->0.generation)
        }),
{
}

/// A login uses up a grace login exactly when the password is expired, one is left and its event is
/// durable; a login that needs none is let through, one that has none left or is not recorded is not.
pub proof fn grace_outcome_is_exact(
    m: ExpiryModel,
    name: [u8; LOCK_USERNAME_BYTES],
    now: i64,
    durable: bool,
)
    ensures
        ({
            let outcome = m.grace_outcome(name, now, durable);
            let e = m.entry_of(name)->0;
            let expired = m.state == 1 && m.entry_of(name) is Some && now >= e.must_change_by;
            &&& outcome == GraceOutcome::Consumed <==> expired && e.grace_remaining >= 1 && durable
            &&& outcome == GraceOutcome::NoGrace <==> expired && e.grace_remaining <= 0
            &&& outcome == GraceOutcome::NotNeeded <==> m.state == 1 && !expired
            &&& outcome == GraceOutcome::Unavailable <==> m.state != 1 || (expired
                && e.grace_remaining >= 1 && !durable)
        }),
{
}

/// Using up a grace login keeps the readiness and the numbers of the last hydration.
pub proof fn grace_keeps_the_rest(
    m: ExpiryModel,
    name: [u8; LOCK_USERNAME_BYTES],
    now: i64,
    durable: bool,
)
    ensures
        ({
            let after = m.after_grace(name, now, durable);
            &&& after.state == m.state
            &&& after.hydration_rows == m.hydration_rows
            &&& after.hydration_overflow == m.hydration_overflow
            &&& after.entries.len() == m.entries.len()
        }),
{
    entry_found(m, name);
}

/// A grace login is taken off the cache exactly when its event went to the ring after a successful
/// append; the event tells the entry's name and generation, the time it was recorded and the flags.
/// An expired password's login that could not be recorded is a durable failure; no other is.
pub proof fn grace_is_recorded_before_it_counts(
    m: ExpiryModel,
    ring: RingModel,
    health: WorkerHealth,
    name: [u8; LOCK_USERNAME_BYTES],
    now: i64,
    flags: EventFlags,
    id: [u8; EVENT_ID_BYTES],
    recorded_at: i64,
    appended: bool,
)
    ensures
        ({
            let due = m.decision(name, now) == ExpiryDecision::ExpiredWithGrace;
            let event = expiry_cache::grace_event(m, name, flags, id, recorded_at);
            let with_id = expiry_cache::ring_after_grace(
                m,
                ring,
                name,
                now,
                flags,
                Some(id),
                recorded_at,
                appended,
            );
            let without_id = expiry_cache::ring_after_grace(
                m,
                ring,
                name,
                now,
                flags,
                None,
                recorded_at,
                appended,
            );
            &&& event.event_id == id
            &&& event.username == name
            &&& event.timestamp == recorded_at
            &&& event.kind == 3
            &&& event.flags == flags.0
            &&& m.entry_of(name) is Some ==> event.generation == m.entry_of(name)->0.generation
            &&& due ==> with_id == ring.recorded(event, appended)
            &&& !due ==> with_id == ring
            &&& without_id == ring
            &&& expiry_cache::health_after_grace(
                m,
                health,
                name,
                now,
                Some(id),
                recorded_at,
                appended,
            ) == if due && !appended {
                health.with_durable_failure(recorded_at)
            } else {
                health
            }
            &&& expiry_cache::health_after_grace(
                m,
                health,
                name,
                now,
                None,
                recorded_at,
                appended,
            ) == if due {
                health.with_durable_failure(recorded_at)
            } else {
                health
            }
        }),
{
}

/// An entry is refused only to the empty name and, when every slot is in use, to a name that has none;
/// only the latter overflows the cache. Setting keeps the readiness otherwise and the numbers of the
/// last hydration, and stores an allowance as it is, a negative one as none.
pub proof fn set_overflows_only_when_full(
    m: ExpiryModel,
    name: [u8; LOCK_USERNAME_BYTES],
    must_change_by: i64,
    generation: i64,
    grace: i32,
)
    ensures
        ({
            let after = m.with_entry(name, must_change_by, generation, grace);
            let full = forall|i: int|
                0 <= i < m.entries.len() ==> (#[trigger] m.entries[i]).username@[0] != 0
                    && m.entries[i].username != name;
            &&& m.set_status(name) == CacheOpStatus::Applied <==> name@[0] != 0 && !full
            &&& after.state == if name@[0] != 0 && full {
                2
            } else {
                m.state
            }
            &&& name@[0] != 0 && !full ==> {
                let e = after.entry_of(name)->0;
                &&& after.entry_of(name) is Some
                &&& e.must_change_by == must_change_by
                &&& e.generation == generation
                &&& grace >= 0 ==> e.grace_remaining == grace
                &&& grace < 0 ==> e.grace_remaining == 0
            }
            &&& after.hydration_rows == m.hydration_rows
            &&& after.hydration_overflow == m.hydration_overflow
        }),
{
    entry_found(m, name);
    free_found(m);
    let i = m.slot_of(name);
    let j = m.free_slot();
    if name@[0] != 0 {
        if i < m.entries.len() {
            assert(m.entries[i].username == name);
        } else if j < m.entries.len() {
            assert(m.entries[j].username@[0] == 0);
        } else {
            assert forall|k: int| 0 <= k < m.entries.len() implies (
            #[trigger] m.entries[k]).username@[0] != 0 && m.entries[k].username != name by {
                assert(!m.entries[k].is_for(name) && m.entries[k].used());
            }
        }
        if m.set_status(name) is Applied {
            set_is_found(m, name, must_change_by, generation, grace);
        }
    }
}

/// Clearing keeps the readiness and the numbers of the last hydration.
pub proof fn clear_keeps_the_rest(m: ExpiryModel, name: [u8; LOCK_USERNAME_BYTES])
    ensures
        m.without_entry(name).state == m.state,
        m.without_entry(name).hydration_rows == m.hydration_rows,
        m.without_entry(name).hydration_overflow == m.hydration_overflow,
        m.without_entry(name).entries.len() == m.entries.len(),
{
    entry_found(m, name);
}

/// A row stands for an entry exactly when it names a role and has both times; the entry has them as
/// they are, and the row's allowance, where a missing or negative one is none.
pub proof fn complete_row_is_an_entry(row: ExpiryRow)
    ensures
        ({
            let e = expiry_cache::entry_of_row(row);
            &&& e is Some <==> row.username is Some && row.username->0@.len() >= 1
                && row.must_change_by is Some && row.last_changed is Some
            &&& e is Some ==> {
                &&& e->0.username == username::encoded_name(row.username->0@)
                &&& row.must_change_by == Some(e->0.must_change_by)
                &&& row.last_changed == Some(e->0.generation)
                &&& row.grace_logins_remaining is None ==> e->0.grace_remaining == 0
                &&& row.grace_logins_remaining matches Some(g) ==> (g >= 0
                    ==> e->0.grace_remaining == g) && (g < 0 ==> e->0.grace_remaining == 0)
            }
        }),
{
}

/// Every complete row is prepared and nothing else is.
pub proof fn complete_rows_are_prepared(rows: Seq<ExpiryRow>)
    ensures
        ({
            let prepared = expiry_cache::prepared_of(rows);
            &&& prepared.len() <= rows.len()
            &&& forall|i: int|
                0 <= i < rows.len() && expiry_cache::entry_of_row(#[trigger] rows[i]) is Some
                    ==> prepared.contains(expiry_cache::entry_of_row(rows[i])->0)
            &&& forall|k: int|
                0 <= k < prepared.len() ==> exists|i: int|
                    0 <= i < rows.len() && expiry_cache::entry_of_row(#[trigger] rows[i]) == Some(
                        #[trigger] prepared[k],
                    )
            &&& (forall|i: int|
                0 <= i < rows.len() ==> expiry_cache::entry_of_row(#[trigger] rows[i]) is Some)
                ==> prepared.len() == rows.len()
            &&& prepared.len() == search::count_where(
                rows,
                |row: ExpiryRow|
                    row.username is Some && row.username->0@.len() >= 1 && row.must_change_by
                        is Some && row.last_changed is Some,
            )
        }),
    decreases rows.len(),
{
    if rows.len() > 0 {
        let before = rows.drop_last();
        let earlier = expiry_cache::prepared_of(before);
        let prepared = expiry_cache::prepared_of(rows);
        complete_rows_are_prepared(before);
        assert forall|i: int|
            0 <= i < rows.len() && expiry_cache::entry_of_row(#[trigger] rows[i]) is Some implies
            prepared.contains(expiry_cache::entry_of_row(rows[i])->0) by {
            let e = expiry_cache::entry_of_row(rows[i])->0;
            if i < before.len() {
                assert(before[i] == rows[i]);
                assert(earlier.contains(e));
                let k = choose|k: int| 0 <= k < earlier.len() && earlier[k] == e;
                assert(prepared[k] == e);
            } else {
                assert(prepared.last() == e);
            }
        }
        assert forall|k: int| 0 <= k < prepared.len() implies exists|i: int|
            0 <= i < rows.len() && expiry_cache::entry_of_row(#[trigger] rows[i]) == Some(
                #[trigger] prepared[k],
            ) by {
            if k < earlier.len() {
                assert(prepared[k] == earlier[k]);
                let i = choose|i: int|
                    0 <= i < before.len() && expiry_cache::entry_of_row(#[trigger] before[i])
                        == Some(earlier[k]);
                assert(rows[i] == before[i]);
            } else {
                assert(rows[rows.len() - 1] == rows.last());
            }
        }
        if forall|i: int|
            0 <= i < rows.len() ==> expiry_cache::entry_of_row(#[trigger] rows[i]) is Some {
            assert forall|i: int| 0 <= i < before.len() implies expiry_cache::entry_of_row(
                #[trigger] before[i],
            ) is Some by {
                assert(before[i] == rows[i]);
            }
            assert(expiry_cache::entry_of_row(rows[rows.len() - 1]) is Some);
        }
    }
}

/// Hydration from rows of different roles is exact while they fit: a role's entry is afterwards what
/// its row says, and whoever has an entry has a row. The cache is ready exactly when the table has no
/// more rows than were read complete.
pub proof fn hydration_follows_the_rows(total: i64, rows: Seq<ExpiryRow>, m: ExpiryModel)
    requires
        m == expiry_cache::hydrated(total, rows),
        rows.len() <= 2048,
        forall|i: int, j: int|
            0 <= i < j < expiry_cache::prepared_of(rows).len() ==> (
            #[trigger] expiry_cache::prepared_of(rows)[i]).username != (
            #[trigger] expiry_cache::prepared_of(rows)[j]).username,
    ensures
        forall|i: int|
            0 <= i < rows.len() && expiry_cache::entry_of_row(#[trigger] rows[i]) is Some
                && expiry_cache::entry_of_row(rows[i])->0.username@[0] != 0 ==> m.entry_of(
                expiry_cache::entry_of_row(rows[i])->0.username,
            ) == expiry_cache::entry_of_row(rows[i]),
        forall|name: [u8; LOCK_USERNAME_BYTES]| #[trigger]
            m.entry_of(name) is Some ==> exists|i: int|
                0 <= i < rows.len() && expiry_cache::entry_of_row(#[trigger] rows[i])
                    == m.entry_of(name),
        m.readiness() == ExpiryCacheState::Ready <==> total <= expiry_cache::prepared_of(
            rows,
        ).len(),
        m.readiness() != ExpiryCacheState::Ready ==> m.readiness() == ExpiryCacheState::Overflow,
        m.hydration_rows == total,
{
    let prepared = expiry_cache::prepared_of(rows);
    complete_rows_are_prepared(rows);
    prepared.lemma_filter_len(|e: ExpiryEntry| e.used());
    assert forall|i: int|
        0 <= i < rows.len() && expiry_cache::entry_of_row(#[trigger] rows[i]) is Some
            && expiry_cache::entry_of_row(rows[i])->0.username@[0] != 0 implies m.entry_of(
        expiry_cache::entry_of_row(rows[i])->0.username,
    ) == expiry_cache::entry_of_row(rows[i]) by {
        let e = expiry_cache::entry_of_row(rows[i])->0;
        assert(prepared.contains(e));
        let k = choose|k: int| 0 <= k < prepared.len() && prepared[k] == e;
        hydration_is_complete(prepared, m, e.username);
        assert(prepared[k].is_for(e.username));
    }
    assert forall|name: [u8; LOCK_USERNAME_BYTES]| #[trigger]
        m.entry_of(name) is Some implies exists|i: int|
        0 <= i < rows.len() && expiry_cache::entry_of_row(#[trigger] rows[i]) == m.entry_of(
            name,
        ) by {
        hydration_is_complete(prepared, m, name);
        let k = choose|k: int| 0 <= k < prepared.len() && (#[trigger] prepared[k]).is_for(name);
        assert(m.entry_of(name) == Some(prepared[k]));
        let i = choose|i: int|
            0 <= i < rows.len() && expiry_cache::entry_of_row(#[trigger] rows[i]) == Some(
                prepared[k],
            );
        assert(expiry_cache::entry_of_row(rows[i]) == m.entry_of(name));
    }
}

/// One more entry counts as used when it has a name, and what is used and what is free make up the
/// slots.
pub proof fn reported_numbers_add_up(
    m: ExpiryModel,
    more: ExpiryModel,
    e: ExpiryEntry,
    s: ExpiryStats,
    t: ExpiryStats,
)
    requires
        more.entries == m.entries.push(e),
        expiry_cache::reported(m, s),
        expiry_cache::reported(more, t),
    ensures
        t.used == s.used + if e.username@[0] != 0 {
            1int
        } else {
            0
        },
        m.entries.len() == 0 ==> s.used == 0,
        s.capacity == 2048,
        s.used + s.free == 2048,
        s.state == m.readiness().number(),
        s.hydration_rows == m.hydration_rows,
        s.hydration_overflow == m.hydration_overflow,
{
    assert(more.entries.drop_last() =~= m.entries);
    assert(more.entries.last() == e);
}

/// What a hydration reports is exact: what it left out is how many more rows the table has than were
/// read complete, and it installs every prepared name that is not empty, as far as there are slots.
pub proof fn hydration_numbers_are_exact(total: i64, rows: Seq<ExpiryRow>)
    ensures
        ({
            let m = expiry_cache::hydrated(total, rows);
            let prepared = expiry_cache::prepared_of(rows);
            let named = search::count_where(prepared, |e: ExpiryEntry| e.username@[0] != 0);
            &&& named <= 2048 ==> expiry_cache::hydrated_count(prepared) == named
            &&& named > 2048 ==> expiry_cache::hydrated_count(prepared) == 2048
            &&& total > prepared.len() ==> m.hydration_overflow == total - prepared.len()
            &&& total <= prepared.len() ==> m.hydration_overflow == 0
        }),
{
    let prepared = expiry_cache::prepared_of(rows);
    let p = |e: ExpiryEntry| e.used();
    let q = |e: ExpiryEntry| e.username@[0] != 0;
    complete_rows_are_prepared(rows);
    search::count_is_what_a_filter_keeps(prepared, p);
    search::count_depends_on_the_elements(prepared, p, q);
}

/// What the functions about the cache answer.
pub proof fn answers_about_the_cache(
    cache: &ExpiryCache,
    state: ExpiryCacheState,
    no_state: ExpiryCacheState,
    has_database: bool,
    may: Result<(), &'static str>,
    role: &str,
    must_change_by: i64,
    generation: i64,
    grace: i32,
    entry: ExpiryEntry,
    now: i64,
    verdict: ExpiryDecision,
)
    requires
        call_ensures(expiry_cache::state, (Some(cache),), state),
        call_ensures(expiry_cache::state, (None,), no_state),
        call_ensures(expiry_cache::hydration_ready, (has_database,), may),
        call_ensures(
            expiry_cache::prepared_entry,
            (role, must_change_by, generation, grace),
            entry,
        ),
        call_ensures(expiry_cache::classify, (&entry, now), verdict),
    ensures
        state == ExpiryCacheState::Ready <==> cache@.state == 1,
        state == ExpiryCacheState::Overflow <==> cache@.state == 2,
        state == ExpiryCacheState::WorkerFailed <==> cache@.state == 3,
        no_state == ExpiryCacheState::NotReady,
        may is Ok <==> has_database,
        entry.username == username::encoded_name(role@),
        entry.must_change_by == must_change_by,
        entry.generation == generation,
        grace >= 0 ==> entry.grace_remaining == grace,
        grace < 0 ==> entry.grace_remaining == 0,
        verdict == ExpiryDecision::NotExpired <==> now < must_change_by,
        verdict == ExpiryDecision::ExpiredWithGrace <==> now >= must_change_by && grace >= 1,
{
}

/// An entry that is not in use holds nothing, and clearing leaves such a one.
pub proof fn cleared_entry_holds_nothing(
    m: ExpiryModel,
    name: [u8; LOCK_USERNAME_BYTES],
    i: int,
    k: int,
)
    requires
        0 <= i < m.entries.len(),
        m.without_entry(name).entries[i] != m.entries[i],
        0 <= k < 64,
    ensures
        ({
            let e = m.without_entry(name).entries[i];
            &&& e.username@[k] == 0
            &&& e.must_change_by == 0
            &&& e.generation == 0
            &&& e.grace_remaining == 0
        }),
{
    entry_found(m, name);
}

} // verus!
