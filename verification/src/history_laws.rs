//! Laws of recorded passwords: what the history remembers, and what a change does to the expiry row
//! and its allowance.

use crate::expiry_cache;
use crate::hashing;
use crate::history;
use crate::history::{ExpiryWrite, GracePersistence, GraceRow, WrittenExpiry};
use crate::pending_cache_op::ExpiryDecision;
use crate::policy;
use crate::username;
use vstd::prelude::*;
use vstd::utf8::*;

verus! {

/// History is recorded as soon as either kind of it is on.
pub proof fn either_history_records(history_count: i32, reuse_days: i32)
    ensures
        history_count >= 1 ==> history::recording_on(history_count, reuse_days),
        reuse_days >= 1 ==> history::recording_on(history_count, reuse_days),
        history_count <= 0 && reuse_days <= 0 ==> !history::recording_on(
            history_count,
            reuse_days,
        ),
{
}

/// While recording is on, a digest is due for every password that the latest one does not represent:
/// storing none is then no possible outcome, and without any digest one is always due. While it is
/// off, or the latest represents the password, none is stored and nothing fails.
pub proof fn unknown_password_is_due_a_digest(
    history_count: i32,
    reuse_days: i32,
    cost_setting: i32,
    password: Seq<char>,
    latest: Option<Seq<char>>,
    r: Result<Option<String>, String>,
)
    requires
        history::digest_outcome(history_count, reuse_days, cost_setting, password, latest, r),
    ensures
        ({
            let on = history_count >= 1 || reuse_days >= 1;
            let known = latest is Some && policy::stored_matches(password, latest->0);
            &&& on && !known ==> r != Ok::<Option<String>, String>(None)
            &&& !on || known ==> r == Ok::<Option<String>, String>(None)
        }),
{
}

/// Whatever a successful recording does, the latest digest represents the password afterwards, and
/// nothing that was remembered is forgotten: at most one digest is added, at the end.
pub proof fn recorded_password_is_the_latest(
    history_count: i32,
    reuse_days: i32,
    cost_setting: i32,
    password: Seq<char>,
    digests: Seq<Seq<char>>,
    stored: Option<String>,
)
    requires
        history_count >= 1 || reuse_days >= 1,
        history::digest_outcome(
            history_count,
            reuse_days,
            cost_setting,
            password,
            history::latest_of(digests),
            Ok(stored),
        ),
    ensures
        ({
            let after = history::digests_after(digests, stored);
            &&& after.len() > 0
            &&& policy::stored_matches(password, after.last())
            &&& digests.len() <= after.len() <= digests.len() + 1
            &&& digests =~= after.take(digests.len() as int)
        }),
{
}

/// The digests after passwords were recorded one after the other, each storing what it did.
pub open spec fn digests_after_all(stored: Seq<Option<String>>) -> Seq<Seq<char>>
    decreases stored.len(),
{
    if stored.len() == 0 {
        Seq::empty()
    } else {
        history::digests_after(digests_after_all(stored.drop_last()), stored.last())
    }
}

/// Each recording was a successful one of its password, on the digests before it.
pub open spec fn recorded_in_turn(
    history_count: i32,
    reuse_days: i32,
    cost_setting: i32,
    passwords: Seq<Seq<char>>,
    stored: Seq<Option<String>>,
) -> bool
    decreases stored.len(),
{
    passwords.len() == stored.len() && (stored.len() > 0 ==> {
        &&& recorded_in_turn(
            history_count,
            reuse_days,
            cost_setting,
            passwords.drop_last(),
            stored.drop_last(),
        )
        &&& history::digest_outcome(
            history_count,
            reuse_days,
            cost_setting,
            passwords.last(),
            history::latest_of(digests_after_all(stored.drop_last())),
            Ok(stored.last()),
        )
    })
}

/// Over any sequence of successful recordings, every password that was recorded is represented by one
/// of the digests, and the one recorded last by the latest.
pub proof fn every_recorded_password_is_remembered(
    history_count: i32,
    reuse_days: i32,
    cost_setting: i32,
    passwords: Seq<Seq<char>>,
    stored: Seq<Option<String>>,
    which: int,
)
    requires
        history_count >= 1 || reuse_days >= 1,
        recorded_in_turn(history_count, reuse_days, cost_setting, passwords, stored),
        0 <= which < passwords.len(),
    ensures
        ({
            let digests = digests_after_all(stored);
            &&& digests.len() > 0
            &&& policy::stored_matches(passwords.last(), digests.last())
            &&& exists|i: int|
                0 <= i < digests.len() && policy::stored_matches(
                    passwords[which],
                    #[trigger] digests[i],
                )
        }),
    decreases stored.len(),
{
    let before = digests_after_all(stored.drop_last());
    let digests = digests_after_all(stored);
    recorded_password_is_the_latest(
        history_count,
        reuse_days,
        cost_setting,
        passwords.last(),
        before,
        stored.last(),
    );
    if which < passwords.len() - 1 {
        every_recorded_password_is_remembered(
            history_count,
            reuse_days,
            cost_setting,
            passwords.drop_last(),
            stored.drop_last(),
            which,
        );
        let i = choose|i: int|
            0 <= i < before.len() && policy::stored_matches(passwords[which], #[trigger] before[i]);
        assert(digests.take(before.len() as int)[i] == before[i]);
        assert(digests[i] == before[i]);
    } else {
        assert(digests[digests.len() - 1] == digests.last());
    }
}

/// A stored digest represents a password when bcrypt accepts it, or when it is the password's MD5
/// digest in 32 hexadecimal digits; nothing else does.
pub proof fn digest_represents(password: Seq<char>, stored: Seq<char>)
    ensures
        hashing::bcrypt_verdict(password, stored) == Some(true) ==> policy::stored_matches(
            password,
            stored,
        ),
        policy::stored_matches(password, stored) && hashing::bcrypt_verdict(password, stored)
            != Some(true) ==> {
            &&& stored == hashing::md5_text(encode_utf8(password))
            &&& encode_utf8(stored).len() == 32
            &&& forall|i: int|
                0 <= i < stored.len() ==> ('0' <= #[trigger] stored[i] <= '9' || 'a' <= stored[i]
                    <= 'f' || 'A' <= stored[i] <= 'F')
        },
        stored == hashing::md5_text(encode_utf8(password)) && encode_utf8(stored).len() == 32 && (
        forall|i: int|
            0 <= i < stored.len() ==> ('0' <= #[trigger] stored[i] <= '9' || 'a' <= stored[i]
                <= 'f' || 'A' <= stored[i] <= 'F')) ==> policy::stored_matches(password, stored),
{
    if stored == hashing::md5_text(encode_utf8(password)) && encode_utf8(stored).len() == 32 && (
    forall|i: int|
        0 <= i < stored.len() ==> ('0' <= #[trigger] stored[i] <= '9' || 'a' <= stored[i] <= 'f'
            || 'A' <= stored[i] <= 'F')) {
        assert(crate::text::all_hex(stored));
    }
}

/// bcrypt is used with the configured cost where it allows that, else with the nearest it allows.
pub proof fn cost_is_the_nearest_allowed(setting: i32, other: int)
    requires
        4 <= other <= 31,
    ensures
        4 <= history::allowed_cost(setting) <= 31,
        4 <= setting <= 31 ==> history::allowed_cost(setting) == setting,
        setting < 4 ==> history::allowed_cost(setting) <= other,
        setting > 31 ==> history::allowed_cost(setting) >= other,
{
}

/// A change's generation is the clock's time, or where the clock is not past the previous one, the
/// next time after it.
pub proof fn generation_is_the_clock_or_the_next(clock: i64, previous: i64)
    ensures
        history::generation_after(clock, None) == clock,
        clock > previous ==> history::generation_after(clock, Some(previous)) == clock,
        clock <= previous && i64::MIN < previous < i64::MAX ==> history::generation_after(
            clock,
            Some(previous),
        ) == previous + 1,
{
}

/// Every change while passwords expire, a role's first as any later one, gets a row with the
/// configured days and the full allowance, and a generation that is never before the clock; while
/// they do not, it gets none.
pub proof fn every_change_gets_the_full_allowance(
    clock: i64,
    previous: Option<i64>,
    expiry_days: i32,
    grace_logins: i32,
)
    ensures
        ({
            let row = history::expiry_write(clock, previous, expiry_days, grace_logins);
            &&& row is Some <==> expiry_days >= 1
            &&& row is Some ==> {
                &&& row->0.valid_days == expiry_days
                &&& row->0.grace_logins == grace_logins
                &&& row->0.last_changed >= clock
                &&& previous is None ==> row->0.last_changed == clock
                &&& previous is Some && i64::MIN < previous->0 < i64::MAX ==> row->0.last_changed
                    > previous->0
            }
        }),
{
}

/// Whether a role had a row before makes no difference to the days and the allowance.
pub proof fn allowance_ignores_the_past(
    clock: i64,
    one: Option<i64>,
    other: Option<i64>,
    expiry_days: i32,
    grace_logins: i32,
)
    requires
        expiry_days > 0,
    ensures
        ({
            let a = history::expiry_write(clock, one, expiry_days, grace_logins)->0;
            let b = history::expiry_write(clock, other, expiry_days, grace_logins)->0;
            &&& a.valid_days == b.valid_days
            &&& a.grace_logins == b.grace_logins
        }),
{
}

/// What is staged for a change is exactly what was written, under the role's name and in the level
/// that recorded it, and it leaves the lock cache alone; where passwords do not expire the entry goes,
/// and a row that should have been written and was not stages nothing.
pub proof fn staged_expiry_is_the_written_row(
    expiry_days: i32,
    w: WrittenExpiry,
    name: Seq<char>,
    expiry: ExpiryDecision,
    subid: u32,
)
    ensures
        expiry_days >= 1 ==> history::recorded_expiry(expiry_days, Some(w)) == Some(
            ExpiryDecision::SetEntry {
                must_change_by: w.must_change_by,
                generation: w.last_changed,
                grace_remaining: w.grace_logins,
            },
        ),
        expiry_days >= 1 ==> history::recorded_expiry(expiry_days, None) is None,
        expiry_days <= 0 ==> history::recorded_expiry(expiry_days, None) == Some(
            ExpiryDecision::Clear,
        ),
        expiry_days <= 0 ==> history::recorded_expiry(expiry_days, Some(w)) == Some(
            ExpiryDecision::Clear,
        ),
        history::expiry_operation(name, expiry, subid).username == username::encoded_name(name),
        history::expiry_operation(name, expiry, subid).expiry == expiry,
        history::expiry_operation(name, expiry, subid).subid == subid,
        history::expiry_operation(name, expiry, subid).decision is None,
{
}

/// A row that is read back is staged as it is when it is complete, and otherwise the entry goes.
pub proof fn read_row_is_staged_as_it_is(must_change_by: i64, generation: i64, grace: i32)
    ensures
        history::expiry_of_row(Some(must_change_by), Some(generation), Some(grace))
            == (ExpiryDecision::SetEntry { must_change_by, generation, grace_remaining: grace }),
        history::expiry_of_row(None, Some(generation), Some(grace)) == ExpiryDecision::Clear,
        history::expiry_of_row(Some(must_change_by), None, Some(grace)) == ExpiryDecision::Clear,
        history::expiry_of_row(Some(must_change_by), Some(generation), None)
            == ExpiryDecision::Clear,
{
}

/// An admitted grace login takes one off a row of its own generation that has one, contradicts one
/// that has none left, and concerns no other row.
pub proof fn grace_is_taken_off_its_own_row(row: GraceRow, generation: i64)
    ensures
        history::persistence(None, generation) is Stale,
        history::persistence(Some(row), generation) is Decrement <==> {
            &&& row.last_changed == Some(generation)
            &&& row.grace_logins is Some
            &&& row.grace_logins->0 >= 1
        },
        history::persistence(Some(row), generation) is Contradiction <==> {
            &&& row.last_changed == Some(generation)
            &&& row.grace_logins is Some
            &&& row.grace_logins->0 <= 0
        },
{
}

/// A password is reported as expired exactly when passwords expire and its row says so.
pub proof fn expiry_is_reported(expiry_days: i32, expired: Option<bool>)
    ensures
        expiry_days != 0 && expired is Some && expired->0 ==> history::reported_expired(
            expiry_days,
            expired,
        ),
        !history::reported_expired(0, expired),
        !history::reported_expired(expiry_days, Some(false)),
        !history::reported_expired(expiry_days, None),
{
}

/// A password is valid until its time, which itself is past it, and then good for a login exactly
/// while grace logins are left.
pub proof fn password_is_valid_until_its_time(e: expiry_cache::ExpiryEntry, now: i64)
    ensures
        e.verdict(now) == expiry_cache::ExpiryDecision::NotExpired <==> now < e.must_change_by,
        e.verdict(now) == expiry_cache::ExpiryDecision::ExpiredWithGrace <==> now
            >= e.must_change_by && e.grace_remaining >= 1,
        e.verdict(now) == expiry_cache::ExpiryDecision::ExpiredNoGrace <==> now >= e.must_change_by
            && e.grace_remaining <= 0,
{
}

/// What [`history::history_digest`] returns: while recording is on, a digest for every password that the
/// latest one does not represent, made with the configured cost where bcrypt allows it, or its failure;
/// never nothing. Otherwise nothing.
pub proof fn digest_is_returned_when_due(
    history_count: i32,
    reuse_days: i32,
    cost: i32,
    password: &str,
    latest: &str,
    after_none: Result<Option<String>, String>,
    after_latest: Result<Option<String>, String>,
)
    requires
        call_ensures(
            history::history_digest,
            (history_count, reuse_days, cost, password, None),
            after_none,
        ),
        call_ensures(
            history::history_digest,
            (history_count, reuse_days, cost, password, Some(latest)),
            after_latest,
        ),
    ensures
        ({
            let on = history_count >= 1 || reuse_days >= 1;
            let known = policy::stored_matches(password@, latest@);
            &&& after_none == Ok::<Option<String>, String>(None) <==> !on
            &&& after_latest == Ok::<Option<String>, String>(None) <==> !on || known
            &&& after_latest matches Ok(Some(digest)) ==> policy::stored_matches(
                password@,
                digest@,
            )
            &&& after_none matches Ok(Some(digest)) ==> policy::stored_matches(password@, digest@)
        }),
{
}

/// A digest that is stored tells the cost it was made with: the configured one where bcrypt allows it.
pub proof fn digest_tells_its_cost(
    history_count: i32,
    reuse_days: i32,
    cost: i32,
    password: Seq<char>,
    latest: Option<Seq<char>>,
    digest: String,
)
    requires
        history::digest_outcome(history_count, reuse_days, cost, password, latest, Ok(Some(digest))),
        4 <= cost <= 31,
    ensures
        digest@.len() == 60,
        digest@[4] as int - '0' as int == cost / 10,
        digest@[5] as int - '0' as int == cost % 10,
{
}

/// What [`history::plan_expiry_row`] and its companions return, on every input.
pub proof fn planned_rows_have_the_full_allowance(
    clock: i64,
    previous: Option<i64>,
    expiry_days: i32,
    grace_logins: i32,
    row: Option<ExpiryWrite>,
    generation: i64,
    cost_setting: i32,
    cost: u32,
    history_count: i32,
    reuse_days: i32,
    recording: bool,
)
    requires
        call_ensures(
            history::plan_expiry_row,
            (clock, previous, expiry_days, grace_logins),
            row,
        ),
        call_ensures(history::next_generation, (clock, previous), generation),
        call_ensures(history::bcrypt_cost, (cost_setting,), cost),
        call_ensures(
            history::password_history_recording_enabled,
            (history_count, reuse_days),
            recording,
        ),
    ensures
        row is Some <==> expiry_days >= 1,
        row matches Some(w) ==> {
            &&& w.valid_days == expiry_days
            &&& w.grace_logins == grace_logins
            &&& w.last_changed == generation
        },
        previous is None ==> generation == clock,
        generation >= clock,
        previous is Some && i64::MIN < previous->0 < i64::MAX ==> generation == if clock
            > previous->0 {
            clock as int
        } else {
            previous->0 + 1
        },
        4 <= cost_setting <= 31 ==> cost == cost_setting,
        cost_setting < 4 ==> cost == 4,
        cost_setting > 31 ==> cost == 31,
        recording <==> history_count >= 1 || reuse_days >= 1,
{
}

/// A grace login is persisted against its own generation alone, never against an allowance that is used
/// up, and exactly one row must have been hit.
pub proof fn grace_is_persisted_once(
    row: GraceRow,
    generation: i64,
    r: Result<GracePersistence, &'static str>,
    none: Result<GracePersistence, &'static str>,
    updated: usize,
    hit: Result<(), String>,
)
    requires
        call_ensures(history::persist_grace_consumption, (Some(row), generation), r),
        call_ensures(history::persist_grace_consumption, (None, generation), none),
        call_ensures(history::expect_one_row, (updated,), hit),
    ensures
        ({
            let own = row.last_changed == Some(generation) && row.grace_logins is Some;
            &&& r is Err <==> own && row.grace_logins->0 <= 0
            &&& r == Ok::<GracePersistence, &'static str>(GracePersistence::Decrement) <==> own
                && row.grace_logins->0 >= 1
            &&& r == Ok::<GracePersistence, &'static str>(GracePersistence::Stale) <==> !own
            &&& none == Ok::<GracePersistence, &'static str>(GracePersistence::Stale)
            &&& hit is Ok <==> updated == 1
        }),
{
}

/// What was written is what was planned, with the time at which the password must be changed, and a
/// digest is stored as it was made.
pub proof fn written_row_is_the_planned_one(
    w: ExpiryWrite,
    must_change_by: i64,
    hashed: Result<String, bcrypt::BcryptError>,
    stored: Result<String, String>,
)
    requires
        call_ensures(history::digest_to_store, (hashed,), stored),
    ensures
        w.ending(must_change_by).must_change_by == must_change_by,
        w.ending(must_change_by).last_changed == w.last_changed,
        w.ending(must_change_by).grace_logins == w.grace_logins,
        stored is Ok <==> hashed is Ok,
        hashed is Ok ==> stored->Ok_0@ == hashed->Ok_0@,
{
}

} // verus!
