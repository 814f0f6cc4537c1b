//! Recording password changes: the history row, the expiry row and the cache decision that follow
//! from one change.

use crate::hashing;
use crate::pending_cache_op;
use crate::pending_cache_op::{ExpiryDecision, PendingEntry, PendingModel, PendingState};
use crate::pending_laws;
use crate::policy;
use crate::text;
use crate::username;
use crate::username::encode_username;
use vstd::prelude::*;
use vstd::string::*;

verus! {

/// Changes leave history rows.
pub open spec fn recording_on(history_count: i32, reuse_days: i32) -> bool {
    history_count > 0 || reuse_days > 0
}

/// Whether a change leaves a history row: both kinds of history read it, so either suffices.
pub fn password_history_recording_enabled(history_count: i32, reuse_days: i32) -> (r: bool)
    ensures
        r == recording_on(history_count, reuse_days),
{
    history_count > 0 || reuse_days > 0
}

/// A history row is due: recording is on, and the latest row does not represent the password
/// already.
pub open spec fn row_due(
    history_count: i32,
    reuse_days: i32,
    password: Seq<char>,
    latest: Option<Seq<char>>,
) -> bool {
    &&& recording_on(history_count, reuse_days)
    &&& !(latest matches Some(stored) && policy::stored_matches(password, stored))
}

/// The cost bcrypt is used with: the setting, brought into the range bcrypt allows.
pub open spec fn allowed_cost(setting: i32) -> u32 {
    if setting < 4 {
        4
    } else if setting > 31 {
        31
    } else {
        setting as u32
    }
}

/// The cost bcrypt is used with.
pub fn bcrypt_cost(setting: i32) -> (r: u32)
    ensures
        r == allowed_cost(setting),
        4 <= r <= 31,
{
    if setting < 4 {
        4
    } else if setting > 31 {
        31
    } else {
        setting as u32
    }
}

/// Turns bcrypt's answer into the digest to store, or into the error to report.
pub fn digest_to_store(hashed: Result<String, bcrypt::BcryptError>) -> (r: Result<String, String>)
    ensures
        r is Ok <==> hashed is Ok,
        (hashed, r) matches (Ok(a), Ok(b)) ==> b@ == a@,
        r matches Err(e) ==> text::begins_with(e@, "Failed to hash password: "@),
{
    match hashed {
        Ok(digest) => Ok(digest),
        Err(error) => {
            let mut m = "Failed to hash password: ".to_string();
            let ghost prefix = m@;
            m.append(hashing::bcrypt_error_text(&error).as_str());
            assert(m@.subrange(0, prefix.len() as int) =~= prefix);
            Err(m)
        },
    }
}

/// What recording a change comes to, given the role's latest digest: no digest when no row is due,
/// else one that represents the password and was made with the allowed cost, or bcrypt's failure.
pub open spec fn digest_outcome(
    history_count: i32,
    reuse_days: i32,
    cost_setting: i32,
    password: Seq<char>,
    latest: Option<Seq<char>>,
    r: Result<Option<String>, String>,
) -> bool {
    let due = row_due(history_count, reuse_days, password, latest);
    match r {
        Ok(None) => !due,
        Ok(Some(digest)) => {
            &&& due
            &&& policy::stored_matches(password, digest@)
            &&& hashing::made_with_cost(digest@, allowed_cost(cost_setting) as int)
        },
        Err(e) => due && text::begins_with(e@, "Failed to hash password: "@),
    }
}

/// The digest to store for a change, when a history row is due. `latest` is the role's latest
/// digest. The same password recorded twice in a row is hashed and stored once.
pub fn history_digest(
    history_count: i32,
    reuse_days: i32,
    cost_setting: i32,
    password: &str,
    latest: Option<&str>,
) -> (r: Result<Option<String>, String>)
    ensures
        digest_outcome(
            history_count,
            reuse_days,
            cost_setting,
            password@,
            match latest {
                Some(stored) => Some(stored@),
                None => None,
            },
            r,
        ),
{
    if !password_history_recording_enabled(history_count, reuse_days) {
        return Ok(None);
    }
    match latest {
        Some(stored) => {
            if policy::stored_hash_matches(password, stored) {
                return Ok(None);
            }
        },
        None => {},
    }
    let hashed = hashing::bcrypt_hash(password, bcrypt_cost(cost_setting));
    match digest_to_store(hashed) {
        Ok(digest) => Ok(Some(digest)),
        Err(e) => Err(e),
    }
}

/// The generation of a password changed at `clock`, after one of generation `previous`. The two
/// infinities, at the ends of the range, are not moved.
pub open spec fn generation_after(clock: i64, previous: Option<i64>) -> i64 {
    match previous {
        Some(p) => {
            let floor = if p == i64::MAX || p == i64::MIN {
                p as int
            } else {
                p + 1
            };
            if clock > floor {
                clock
            } else {
                floor as i64
            }
        },
        None => clock,
    }
}

/// Chooses the generation of a new password: the clock's time, but always later than the previous
/// generation, even when two changes fall into one microsecond or the clock went back.
pub fn next_generation(clock: i64, previous: Option<i64>) -> (r: i64)
    ensures
        r == generation_after(clock, previous),
{
    match previous {
        Some(p) => {
            let floor: i64 = if p == i64::MAX || p == i64::MIN {
                p
            } else {
                p + 1
            };
            if clock > floor {
                clock
            } else {
                floor
            }
        },
        None => clock,
    }
}

/// A new password's generation is later than that of the one it replaces, so an event about the
/// old one is recognized as stale.
pub proof fn generations_increase(clock: i64, previous: i64)
    requires
        previous != i64::MAX,
        !(previous == i64::MIN && clock == i64::MIN),
    ensures
        generation_after(clock, Some(previous)) > previous,
        generation_after(clock, Some(previous)) >= clock,
{
}

/// The expiry row to write for a change. The password must be changed `valid_days` calendar days
/// after `last_changed`; the database adds them, in its own time zone.
#[derive(Clone, Copy, PartialEq, Eq, Debug, Structural)]
pub struct ExpiryWrite {
    pub last_changed: i64,
    pub valid_days: i32,
    pub grace_logins: i32,
}

/// The expiry row a change calls for; `None` when passwords do not expire and the row goes.
pub open spec fn expiry_write(
    clock: i64,
    previous: Option<i64>,
    expiry_days: i32,
    grace_logins: i32,
) -> Option<ExpiryWrite> {
    if expiry_days > 0 {
        Some(
            ExpiryWrite {
                last_changed: generation_after(clock, previous),
                valid_days: expiry_days,
                grace_logins,
            },
        )
    } else {
        None
    }
}

/// Decides about the expiry row of a change at `clock`, where `previous` is the generation the role's
/// row holds: every change starts a new generation with the full allowance.
pub fn plan_expiry_row(
    clock: i64,
    previous: Option<i64>,
    expiry_days: i32,
    grace_logins: i32,
) -> (r: Option<ExpiryWrite>)
    ensures
        r == expiry_write(clock, previous, expiry_days, grace_logins),
{
    if expiry_days > 0 {
        Some(
            ExpiryWrite {
                last_changed: next_generation(clock, previous),
                valid_days: expiry_days,
                grace_logins,
            },
        )
    } else {
        None
    }
}

/// What was written to the expiry row: its time of change, when the password must be changed, and
/// the allowance.
#[derive(Clone, Copy, PartialEq, Eq, Debug, Structural)]
pub struct WrittenExpiry {
    pub last_changed: i64,
    pub must_change_by: i64,
    pub grace_logins: i32,
}

impl ExpiryWrite {
    /// What the row holds once it is written and its days end at `must_change_by`.
    pub open spec fn ending(self, must_change_by: i64) -> WrittenExpiry {
        WrittenExpiry {
            last_changed: self.last_changed,
            must_change_by,
            grace_logins: self.grace_logins,
        }
    }
}

/// The expiry decision of a recorded change: what was written, or the removal when passwords do
/// not expire. `None` when a row should have been written and was not.
pub open spec fn recorded_expiry(expiry_days: i32, written: Option<WrittenExpiry>) -> Option<
    ExpiryDecision,
> {
    if expiry_days > 0 {
        match written {
            Some(w) => Some(
                ExpiryDecision::SetEntry {
                    must_change_by: w.must_change_by,
                    generation: w.last_changed,
                    grace_remaining: w.grace_logins,
                },
            ),
            None => None,
        }
    } else {
        Some(ExpiryDecision::Clear)
    }
}

/// The operation that stages the expiry decision of a recorded change. It leaves the lock cache
/// alone.
pub open spec fn expiry_operation(
    name: Seq<char>,
    expiry: ExpiryDecision,
    subid: u32,
) -> PendingEntry {
    PendingEntry { username: username::encoded_name(name), decision: None, expiry, subid }
}

/// Stages the expiry decision of a recorded change.
pub fn stage_recorded_expiry(
    pending: &mut PendingState,
    subid: u32,
    username: &str,
    expiry_days: i32,
    written: Option<WrittenExpiry>,
) -> (r: Result<(), String>)
    ensures
        match recorded_expiry(expiry_days, written) {
            None => {
                &&& r matches Err(e)
                &&& e@
                    == "password_profile: password expiry row was not written; refusing the change"@
                &&& final(pending)@ == old(pending)@
            },
            Some(expiry) => match pending_cache_op::staged(
                old(pending)@.ops,
                expiry_operation(username@, expiry, subid),
            ) {
                Some(ops) => r is Ok && final(pending)@ == (PendingModel { ops, ..old(pending)@ }),
                None => {
                    &&& r matches Err(e)
                    &&& e@ == pending_cache_op::capacity_message()
                    &&& final(pending)@ == old(pending)@
                },
            },
        },
{
    let name = encode_username(username);
    if expiry_days > 0 {
        match written {
            Some(w) => pending_cache_op::stage_expiry(
                pending,
                name,
                ExpiryDecision::SetEntry {
                    must_change_by: w.must_change_by,
                    generation: w.last_changed,
                    grace_remaining: w.grace_logins,
                },
                subid,
            ),
            None => Err(
                "password_profile: password expiry row was not written; refusing the change".to_string(),
            ),
        }
    } else {
        pending_cache_op::stage_expiry(pending, name, ExpiryDecision::Clear, subid)
    }
}

/// What to tell somebody who recorded a change.
pub fn record_password_change_reply(inserted: bool) -> (r: &'static str)
    ensures
        r@ == if inserted {
            "Password change recorded"@
        } else {
            "Password already recorded; expiry metadata refreshed"@
        },
{
    if inserted {
        "Password change recorded"
    } else {
        "Password already recorded; expiry metadata refreshed"
    }
}

/// The expiry row of a role, any column of which may be NULL.
#[derive(Clone, Copy, PartialEq, Eq, Debug, Structural)]
pub struct GraceRow {
    pub last_changed: Option<i64>,
    pub grace_logins: Option<i64>,
}

/// What a recorded grace login does to the role's expiry row.
#[derive(Clone, Copy, PartialEq, Eq, Debug, Structural)]
pub enum GracePersistence {
    /// It belongs to a password that is gone: nothing.
    Stale,
    /// Take one off the allowance.
    Decrement,
    /// The row has none left, although one was admitted.
    Contradiction,
}

/// What a grace login of this generation does. A row without an allowance is as good as none; one
/// whose allowance is used up contradicts the login that was admitted.
pub open spec fn persistence(row: Option<GraceRow>, generation: i64) -> GracePersistence {
    match row {
        Some(r) => if r.last_changed != Some(generation) {
            GracePersistence::Stale
        } else {
            match r.grace_logins {
                Some(n) => if n > 0 {
                    GracePersistence::Decrement
                } else {
                    GracePersistence::Contradiction
                },
                None => GracePersistence::Stale,
            }
        },
        None => GracePersistence::Stale,
    }
}

/// Decides what a recorded grace login does to the role's expiry row, if it has one.
pub fn persist_grace_consumption(row: Option<GraceRow>, generation: i64) -> (r: Result<
    GracePersistence,
    &'static str,
>)
    ensures
        match r {
            Ok(p) => p == persistence(row, generation) && !(p is Contradiction),
            Err(e) => {
                &&& persistence(row, generation) is Contradiction
                &&& e@
                    == "password_profile: grace login was admitted but the authoritative row has none left; refusing to acknowledge the event"@
            },
        },
{
    match row {
        None => Ok(GracePersistence::Stale),
        Some(r) => {
            let same = match r.last_changed {
                Some(t) => t == generation,
                None => false,
            };
            if !same {
                return Ok(GracePersistence::Stale);
            }
            match r.grace_logins {
                None => Ok(GracePersistence::Stale),
                Some(n) => {
                    if n > 0 {
                        Ok(GracePersistence::Decrement)
                    } else {
                        Err(
                            "password_profile: grace login was admitted but the authoritative row has none left; refusing to acknowledge the event",
                        )
                    }
                },
            }
        },
    }
}

/// A grace login taken from an old password never touches the allowance of a newer one.
pub proof fn stale_grace_spares_new_allowance(row: GraceRow, generation: i64)
    requires
        row.last_changed != Some(generation),
    ensures
        persistence(Some(row), generation) is Stale,
{
}

/// A grace login that was admitted is never acknowledged against a row of its own generation that
/// has none left.
pub proof fn used_up_allowance_is_a_contradiction(generation: i64, left: i64)
    requires
        left <= 0,
    ensures
        persistence(
            Some(GraceRow { last_changed: Some(generation), grace_logins: Some(left) }),
            generation,
        ) is Contradiction,
{
}

/// The complaint about a decrement that did not hit exactly one row.
pub open spec fn decrement_message(updated: int) -> Seq<char> {
    "password_profile: grace decrement affected "@ + text::decimal(updated)
        + " rows for one username; refusing to acknowledge the event"@
}

/// Checks that a decrement hit exactly one row.
pub fn expect_one_row(updated: usize) -> (r: Result<(), String>)
    ensures
        match r {
            Ok(()) => updated == 1,
            Err(e) => updated != 1 && e@ == decrement_message(updated as int),
        },
{
    if updated == 1 {
        return Ok(());
    }
    let mut m = "password_profile: grace decrement affected ".to_string();
    text::append_count(&mut m, updated as u64);
    m.append(" rows for one username; refusing to acknowledge the event");
    Err(m)
}

/// The expiry decision a role's row stands for.
pub open spec fn expiry_of_row(
    must_change_by: Option<i64>,
    last_changed: Option<i64>,
    grace_remaining: Option<i32>,
) -> ExpiryDecision {
    match (must_change_by, last_changed, grace_remaining) {
        (Some(must_change_by), Some(generation), Some(grace_remaining)) => {
            ExpiryDecision::SetEntry { must_change_by, generation, grace_remaining }
        },
        _ => ExpiryDecision::Clear,
    }
}

/// The expiry decision a role's row stands for; without a complete row the entry goes.
pub fn expiry_decision_from_db(
    must_change_by: Option<i64>,
    last_changed: Option<i64>,
    grace_remaining: Option<i32>,
) -> (r: ExpiryDecision)
    ensures
        r == expiry_of_row(must_change_by, last_changed, grace_remaining),
{
    match (must_change_by, last_changed, grace_remaining) {
        (Some(must_change_by), Some(generation), Some(grace_remaining)) => {
            ExpiryDecision::SetEntry { must_change_by, generation, grace_remaining }
        },
        _ => ExpiryDecision::Clear,
    }
}

/// A password with this row is reported as expired.
pub open spec fn reported_expired(expiry_days: i32, expired: Option<bool>) -> bool {
    expiry_days != 0 && expired == Some(true)
}

/// Reports a password's expiry from its row: whether it is expired, NULL without a row, and the
/// allowance. It uses up nothing.
pub fn check_password_expiry(
    expiry_days: i32,
    expired: Option<bool>,
    grace_logins: Option<i32>,
) -> (r: Result<String, String>)
    ensures
        r is Err <==> reported_expired(expiry_days, expired),
        match r {
            Ok(words) => if expiry_days == 0 {
                words@ == "Password expiry disabled"@
            } else if expired is None {
                words@ == "No password expiry record"@
            } else {
                expired == Some(false) && words@ == "Password valid"@
            },
            Err(words) => {
                &&& expiry_days != 0
                &&& expired == Some(true)
                &&& if grace_logins is Some && grace_logins->0 > 0 {
                    words@ == "Password expired! "@ + text::decimal(grace_logins->0 as int)
                        + " grace login(s) remaining."@
                } else {
                    words@ == "Password expired! No grace logins remaining."@
                }
            },
        },
{
    if expiry_days == 0 {
        return Ok("Password expiry disabled".to_string());
    }
    match expired {
        None => Ok("No password expiry record".to_string()),
        Some(false) => Ok("Password valid".to_string()),
        Some(true) => {
            match grace_logins {
                Some(grace) => {
                    if grace > 0 {
                        let mut m = "Password expired! ".to_string();
                        text::append_decimal(&mut m, grace as i64);
                        m.append(" grace login(s) remaining.");
                        return Err(m);
                    }
                },
                None => {},
            }
            Err("Password expired! No grace logins remaining.".to_string())
        },
    }
}

/// `n` in words, or 0 without one.
pub open spec fn number_or_zero(n: Option<i64>) -> Seq<char> {
    match n {
        Some(k) => text::decimal(k as int),
        None => text::decimal(0),
    }
}

/// A role's numbers in words: its history rows, the days until its password expires, and its
/// failed attempts. What has no row reads `0`, or `N/A` for the days.
pub fn get_password_stats(
    history_count: Option<i64>,
    days_until_expiry: Option<i32>,
    failed_attempts: Option<i32>,
) -> (r: String)
    ensures
        r@ == "Password History: "@ + number_or_zero(history_count)
            + " changes | Days until expiry: "@ + (match days_until_expiry {
            Some(d) => text::decimal(d as int),
            None => "N/A"@,
        }) + " | Failed attempts: "@ + (match failed_attempts {
            Some(f) => text::decimal(f as int),
            None => text::decimal(0),
        }),
{
    let mut m = "Password History: ".to_string();
    text::append_decimal(
        &mut m,
        match history_count {
            Some(k) => k,
            None => 0,
        },
    );
    m.append(" changes | Days until expiry: ");
    match days_until_expiry {
        Some(d) => {
            text::append_decimal(&mut m, d as i64);
        },
        None => {
            m.append("N/A");
        },
    }
    m.append(" | Failed attempts: ");
    text::append_decimal(
        &mut m,
        match failed_attempts {
            Some(f) => f as i64,
            None => 0,
        },
    );
    m
}

/// Recording is idempotent: once the digest that a recording stored is the latest, recording the
/// same password again is due no row.
pub proof fn recording_is_idempotent(
    history_count: i32,
    reuse_days: i32,
    password: Seq<char>,
    stored: Seq<char>,
)
    requires
        policy::stored_matches(password, stored),
    ensures
        !row_due(history_count, reuse_days, password, Some(stored)),
{
}

/// A role's digests, oldest first, after a recording stored `digest`.
pub open spec fn digests_after(digests: Seq<Seq<char>>, digest: Option<String>) -> Seq<Seq<char>> {
    match digest {
        Some(d) => digests.push(d@),
        None => digests,
    }
}

/// The latest of a role's digests.
pub open spec fn latest_of(digests: Seq<Seq<char>>) -> Option<Seq<char>> {
    if digests.len() == 0 {
        None
    } else {
        Some(digests.last())
    }
}

/// Recording the same password twice in a row only refreshes the expiry. `first` is what the first
/// recording came to on the role's digests, at the clock time `clock` and after the generation
/// `previous`; `second` is what the next one comes to, at `later_clock`. That one stores no digest
/// and leaves the digests as they are; its row has a strictly later generation, the full number of
/// days from there, which end at `must_change_by`, and the full allowance; and what is staged last
/// for the role is exactly that row, with no decision about the lock cache.
pub proof fn second_recording_only_refreshes(
    history_count: i32,
    reuse_days: i32,
    cost_setting: i32,
    password: Seq<char>,
    digests: Seq<Seq<char>>,
    first: Option<String>,
    second: Result<Option<String>, String>,
    clock: i64,
    previous: Option<i64>,
    later_clock: i64,
    expiry_days: i32,
    must_change_by: i64,
    grace_logins: i32,
    name: Seq<char>,
    subid: u32,
    ops: Seq<PendingEntry>,
)
    requires
        digest_outcome(
            history_count,
            reuse_days,
            cost_setting,
            password,
            latest_of(digests),
            Ok(first),
        ),
        digest_outcome(
            history_count,
            reuse_days,
            cost_setting,
            password,
            latest_of(digests_after(digests, first)),
            second,
        ),
        generation_after(clock, previous) != i64::MAX,
        !(generation_after(clock, previous) == i64::MIN && later_clock == i64::MIN),
        expiry_days > 0,
    ensures
        second matches Ok(stored) && stored is None && digests_after(
            digests_after(digests, first),
            stored,
        ) == digests_after(digests, first),
        ({
            let old_row = expiry_write(clock, previous, expiry_days, grace_logins)->0;
            let row = expiry_write(
                later_clock,
                Some(old_row.last_changed),
                expiry_days,
                grace_logins,
            )->0;
            let expiry = recorded_expiry(expiry_days, Some(row.ending(must_change_by)));
            &&& row.last_changed > old_row.last_changed
            &&& row.valid_days == expiry_days
            &&& row.grace_logins == grace_logins
            &&& expiry == Some(
                ExpiryDecision::SetEntry {
                    must_change_by,
                    generation: row.last_changed,
                    grace_remaining: grace_logins,
                },
            )
            &&& pending_cache_op::staged(
                ops,
                expiry_operation(name, expiry->0, subid),
            ) matches Some(after) ==> {
                let at = pending_cache_op::last_of(after, username::encoded_name(name), subid);
                &&& 0 <= at < after.len()
                &&& after[at] == expiry_operation(name, expiry->0, subid)
                &&& after[at].decision is None
            }
        }),
{
    generations_increase(later_clock, generation_after(clock, previous));
    let generation = generation_after(clock, previous);
    let row = expiry_write(later_clock, Some(generation), expiry_days, grace_logins)->0;
    let expiry = recorded_expiry(expiry_days, Some(row.ending(must_change_by)))->0;
    let op = expiry_operation(name, expiry, subid);
    pending_laws::staged_operation_is_the_last(ops, op);
}

/// What was recorded cannot be used again: as long as its digest is among those that are compared,
/// by number or by age, the password is refused, unless the role is exempt.
pub proof fn recorded_password_is_refused(
    username: Seq<char>,
    password: Seq<char>,
    facts: policy::PasswordFacts,
    digest: String,
)
    requires
        !facts.bypassed,
        policy::stored_matches(password, digest@),
        (facts.history_count > 0 && facts.history@.contains(digest)) || (facts.reuse_days > 0
            && facts.recent@.contains(digest)),
    ensures
        policy::verdict(policy::findings(username, password, facts)) is Err,
{
    if facts.history@.contains(digest) {
        assert(policy::any_matches(password, facts.history@));
    }
    if facts.recent@.contains(digest) {
        assert(policy::any_matches(password, facts.recent@));
    }
}

} // verus!
