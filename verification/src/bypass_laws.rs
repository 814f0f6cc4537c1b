//! Laws of the bypass cache: who is exempt, and when the cache may say so.

use crate::bypass_cache;
use crate::bypass_cache::{
    BypassCache, BypassCacheState, BypassDecision, BypassModel, BypassStats,
};
use crate::lock_cache;
use crate::search;
use crate::username;
use crate::username::LOCK_USERNAME_BYTES;
use vstd::prelude::*;

verus! {

/// A readiness is read back as it was stored, and a number that stands for none is not ready.
pub proof fn readiness_is_read_back(state: BypassCacheState, raw: i32, m: BypassModel)
    ensures
        BypassCacheState::of_raw(state.number()) == state,
        m.in_state(state).readiness() == state,
        m.in_state(state).entries == m.entries,
        raw < 0 || raw > 3 ==> BypassCacheState::of_raw(raw) == BypassCacheState::NotReady,
{
}

/// A ready cache answers for every name: exempt is exactly who is listed. No other cache answers, and
/// none answers for the empty name.
pub proof fn answer_is_exact(m: BypassModel, name: [u8; LOCK_USERNAME_BYTES])
    ensures
        ({
            let listed = exists|i: int| 0 <= i < m.entries.len() && #[trigger] m.entries[i] == name;
            let d = m.decision(name);
            &&& d == BypassDecision::Bypassed <==> name@[0] != 0 && m.state == 1 && listed
            &&& d == BypassDecision::NotBypassed <==> name@[0] != 0 && m.state == 1 && !listed
            &&& d == BypassDecision::Unavailable <==> name@[0] == 0 || m.state != 1
        }),
{
}

/// A lookup is answered by the cache for the role's name; without shared memory there is no answer and
/// no readiness, and without a database no refresh.
pub proof fn lookup_answers_for_the_role(
    cache: &BypassCache,
    role: &str,
    answer: BypassDecision,
    without: BypassDecision,
    state: BypassCacheState,
    no_state: BypassCacheState,
    has_database: bool,
    may_refresh: Result<(), &'static str>,
)
    requires
        call_ensures(bypass_cache::lookup, (Some(cache), role), answer),
        call_ensures(bypass_cache::lookup, (None, role), without),
        call_ensures(bypass_cache::state, (Some(cache),), state),
        call_ensures(bypass_cache::state, (None,), no_state),
        call_ensures(bypass_cache::refresh_ready, (has_database,), may_refresh),
    ensures
        ({
            let name = username::encoded_name(role@);
            let listed = exists|i: int|
                0 <= i < cache@.entries.len() && #[trigger] cache@.entries[i] == name;
            &&& without == BypassDecision::Unavailable
            &&& no_state == BypassCacheState::NotReady
            &&& state == BypassCacheState::Ready <==> cache@.state == 1
            &&& answer == BypassDecision::Bypassed <==> name@[0] != 0 && cache@.state == 1
                && listed
            &&& answer == BypassDecision::Unavailable <==> name@[0] == 0 || cache@.state != 1
            &&& may_refresh is Ok <==> has_database
        }),
{
}

/// The row names a role.
pub open spec fn complete(row: Option<String>) -> bool {
    row is Some && row->0@.len() >= 1
}

/// Every row that names a role is prepared and nothing else is.
pub proof fn named_rows_are_prepared(rows: Seq<Option<String>>)
    ensures
        ({
            let prepared = bypass_cache::prepared_of(rows);
            &&& prepared.len() == search::count_where(rows, |row: Option<String>| complete(row))
            &&& prepared.len() <= rows.len()
            &&& forall|i: int|
                0 <= i < rows.len() && complete(#[trigger] rows[i]) ==> prepared.contains(
                    username::encoded_name(rows[i]->0@),
                )
            &&& forall|k: int|
                0 <= k < prepared.len() ==> exists|i: int|
                    0 <= i < rows.len() && complete(#[trigger] rows[i]) && username::encoded_name(
                        rows[i]->0@,
                    ) == #[trigger] prepared[k]
        }),
    decreases rows.len(),
{
    if rows.len() > 0 {
        let before = rows.drop_last();
        let earlier = bypass_cache::prepared_of(before);
        let prepared = bypass_cache::prepared_of(rows);
        named_rows_are_prepared(before);
        assert forall|i: int| 0 <= i < rows.len() && complete(#[trigger] rows[i]) implies
            prepared.contains(username::encoded_name(rows[i]->0@)) by {
            let e = username::encoded_name(rows[i]->0@);
            if i < before.len() {
                assert(before[i] == rows[i]);
                assert(earlier.contains(e));
                let k = choose|k: int| 0 <= k < earlier.len() && earlier[k] == e;
                assert(prepared[k] == e);
            } else {
                assert(prepared.last() == e);
            }
        }
        assert forall|k: int| 0 <= k < prepared.len() implies exists|i: int|
            0 <= i < rows.len() && complete(#[trigger] rows[i]) && username::encoded_name(
                rows[i]->0@,
            ) == #[trigger] prepared[k] by {
            if k < earlier.len() {
                assert(prepared[k] == earlier[k]);
                let i = choose|i: int|
                    0 <= i < before.len() && complete(#[trigger] before[i])
                        && username::encoded_name(before[i]->0@) == earlier[k];
                assert(rows[i] == before[i]);
            } else {
                assert(rows[rows.len() - 1] == rows.last());
            }
        }
    }
}

/// After a refresh from rows that fit, a role is exempt exactly when a row lists it, provided that the
/// table has no more roles than the rows that were read; otherwise the cache has overflowed and exempts
/// nobody.
pub proof fn refresh_follows_the_rows(
    total: i64,
    rows: Seq<Option<String>>,
    name: [u8; LOCK_USERNAME_BYTES],
)
    requires
        rows.len() <= 1024,
        name@[0] != 0,
    ensures
        ({
            let m = bypass_cache::refreshed(total, rows);
            let listed = exists|i: int|
                0 <= i < rows.len() && complete(#[trigger] rows[i]) && username::encoded_name(
                    rows[i]->0@,
                ) == name;
            let whole = total <= search::count_where(rows, |row: Option<String>| complete(row));
            &&& whole && listed ==> m.decision(name) == BypassDecision::Bypassed
            &&& whole && !listed ==> m.decision(name) == BypassDecision::NotBypassed
            &&& !whole ==> m.decision(name) == BypassDecision::Unavailable && m.state == 2
            &&& m.rows == total
            &&& m.overflow == lock_cache::rows_left_out(
                total,
                search::count_where(rows, |row: Option<String>| complete(row)),
            )
        }),
{
    let prepared = bypass_cache::prepared_of(rows);
    let m = bypass_cache::refreshed(total, rows);
    named_rows_are_prepared(rows);
    prepared.lemma_filter_len(|n: [u8; LOCK_USERNAME_BYTES]| bypass_cache::is_named(n));
    if m.readiness() is Ready {
        bypass_cache::refresh_decides_exemption(prepared, m, name);
    }
    if prepared.contains(name) {
        let k = choose|k: int| 0 <= k < prepared.len() && prepared[k] == name;
        let i = choose|i: int|
            0 <= i < rows.len() && complete(#[trigger] rows[i]) && username::encoded_name(
                rows[i]->0@,
            ) == prepared[k];
        assert(complete(rows[i]));
    }
}

/// What a bounded read left out is how many more there are than were read, and never less than none.
pub proof fn left_out_is_the_excess(total: i64, prepared: nat)
    ensures
        total > prepared ==> lock_cache::rows_left_out(total, prepared) + prepared == total,
        total <= prepared ==> lock_cache::rows_left_out(total, prepared) == 0,
{
}

/// One more slot counts as used when it has a name.
pub proof fn reported_numbers_add_up(
    m: BypassModel,
    more: BypassModel,
    name: [u8; LOCK_USERNAME_BYTES],
    s: BypassStats,
    t: BypassStats,
)
    requires
        more.entries == m.entries.push(name),
        bypass_cache::reported(m, s),
        bypass_cache::reported(more, t),
    ensures
        t.used == s.used + if name@[0] != 0 {
            1int
        } else {
            0
        },
        m.entries.len() == 0 ==> s.used == 0,
        s.capacity == 1024,
        s.state == m.readiness().number(),
        s.rows == m.rows,
        s.overflow == m.overflow,
{
    assert(more.entries.drop_last() =~= m.entries);
    assert(more.entries.last() == name);
}

/// A refresh installs every name that is not empty, as far as there are slots.
pub proof fn refresh_numbers_are_exact(prepared: Seq<[u8; LOCK_USERNAME_BYTES]>)
    ensures
        ({
            let named = search::count_where(
                prepared,
                |n: [u8; LOCK_USERNAME_BYTES]| n@[0] != 0,
            );
            &&& named <= 1024 ==> bypass_cache::refreshed_count(prepared) == named
            &&& named > 1024 ==> bypass_cache::refreshed_count(prepared) == 1024
        }),
{
    let p = |n: [u8; LOCK_USERNAME_BYTES]| bypass_cache::is_named(n);
    let q = |n: [u8; LOCK_USERNAME_BYTES]| n@[0] != 0;
    search::count_is_what_a_filter_keeps(prepared, p);
    search::count_depends_on_the_elements(prepared, p, q);
}

} // verus!
