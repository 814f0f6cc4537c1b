//! Laws of renamed and dropped roles and of the locks on them.

use crate::expiry_cache::ExpiryModel;
use crate::expiry_laws;
use crate::hashing;
use crate::lock_cache::{CacheDecision, LockModel};
use crate::lock_laws;
use crate::pending_cache_op;
use crate::pending_cache_op::{ExpiryDecision, PendingEntry};
use crate::pending_laws;
use crate::roles;
use crate::roles::RenameGate;
use crate::username;
use vstd::prelude::*;
use vstd::utf8::*;

verus! {

/// An advisory key is the signed number with the low 32 bits of its digest: the two differ by a
/// multiple of 4294967296, and digests with the same low bits alone share a key.
pub proof fn key_has_the_low_bits(digest: u64, other: u64)
    ensures
        (roles::key_of_digest(digest) - digest) % 0x1_0000_0000 == 0,
        roles::key_of_digest(digest) == roles::key_of_digest(other) <==> digest % 0x1_0000_0000
            == other % 0x1_0000_0000,
{
}

/// Every process derives the same key from a name: it is that of the name's digest under fixed words.
pub proof fn key_depends_on_the_name(name: &str, key: i32)
    requires
        call_ensures(roles::username_advisory_key, (name,), key),
    ensures
        key == roles::key_of_digest(
            hashing::siphash13(0x7061_7373_776F_7264, 0x5F70_726F_6669_6C65, encode_utf8(name@)),
        ),
{
}

/// Byte strings are ordered by the first byte in which they differ, and a beginning comes before what
/// it begins.
pub proof fn order_is_by_the_first_difference(
    common: Seq<u8>,
    a: u8,
    b: u8,
    rest: Seq<u8>,
    other: Seq<u8>,
)
    requires
        a != b,
    ensures
        roles::comes_before(common + seq![a] + rest, common + seq![b] + other) <==> a < b,
        roles::comes_before(common, common + seq![b] + other),
        !roles::comes_before(common + seq![b] + other, common),
        !roles::comes_before(common, common),
    decreases common.len(),
{
    let x = common + seq![a] + rest;
    let y = common + seq![b] + other;
    if common.len() > 0 {
        let tail = common.drop_first();
        order_is_by_the_first_difference(tail, a, b, rest, other);
        assert(x.drop_first() =~= tail + seq![a] + rest);
        assert(y.drop_first() =~= tail + seq![b] + other);
    } else {
        assert(x[0] == a && y[0] == b);
    }
}

/// The locks of one or two roles are taken each once, the one whose name comes first before the other.
pub proof fn each_lock_is_taken_once(first: Seq<char>, second: Seq<char>)
    ensures
        roles::lock_order(first, None) == seq![first],
        ({
            let order = roles::lock_order(first, Some(second));
            &&& order.contains(first)
            &&& order.contains(second)
            &&& order.no_duplicates()
            &&& order.len() == if first == second {
                1int
            } else {
                2
            }
            &&& order.len() == 2 ==> roles::comes_before(
                encode_utf8(order[0]),
                encode_utf8(order[1]),
            )
        }),
{
    let order = roles::lock_order(first, Some(second));
    if first != second {
        if encode_utf8(first) == encode_utf8(second) {
            username::utf8_is_injective(first, second);
        }
        roles::order_is_total(encode_utf8(first), encode_utf8(second));
        assert(order[0] == first || order[0] == second);
        assert(order[1] == first || order[1] == second);
        assert(order[0] != order[1]);
    } else {
        assert(order[0] == first);
    }
}

/// State is moved only for a superuser who names two different roles, and nothing is done for one who
/// names the same twice; the role must have been renamed before, and the new name must be free.
pub proof fn renaming_is_guarded(
    superuser: bool,
    old_name: &str,
    new_name: &str,
    old_exists: bool,
    new_exists: bool,
    taken: bool,
    who: Result<RenameGate, &'static str>,
    done: Result<(), &'static str>,
    free: Result<(), &'static str>,
)
    requires
        call_ensures(roles::check_rename, (superuser, old_name, new_name), who),
        call_ensures(roles::check_role_renamed, (old_exists, new_exists), done),
        call_ensures(roles::check_rename_target, (taken,), free),
    ensures
        who is Ok <==> superuser && old_name@.len() >= 1 && new_name@.len() >= 1,
        who matches Ok(gate) ==> (gate == RenameGate::Unchanged <==> old_name@ == new_name@),
        done is Ok <==> !old_exists && new_exists,
        free is Ok <==> !taken,
{
}

/// State is removed only for a superuser, and only of a role that is named and gone.
pub proof fn removal_is_guarded(
    superuser: bool,
    name: &str,
    exists_still: bool,
    r: Result<(), &'static str>,
)
    requires
        call_ensures(roles::check_removal, (superuser, name, exists_still), r),
    ensures
        r is Ok <==> superuser && name@.len() >= 1 && !exists_still,
{
}

/// A removed role is in neither cache after the commit, and nobody else's entry is touched.
pub proof fn removed_role_is_forgotten(
    lock: LockModel,
    expiry: ExpiryModel,
    name: Seq<char>,
    subid: u32,
    now: i64,
)
    requires
        lock_laws::distinct(lock),
        expiry_laws::distinct(expiry),
    ensures
        ({
            let op = roles::removal(name, subid);
            let stored = username::encoded_name(name);
            let l = pending_cache_op::lock_after(lock, op, now);
            let e = pending_cache_op::expiry_after(expiry, op);
            &&& l.lockout(stored, now) is None
            &&& e.entry_of(stored) is None
            &&& forall|other: [u8; 64]|
                other != stored ==> #[trigger] l.lockout(other, now) == lock.lockout(other, now)
            &&& forall|other: [u8; 64]|
                other != stored ==> #[trigger] e.entry_of(other) == expiry.entry_of(other)
            &&& op.subid == subid
        }),
{
    let op = roles::removal(name, subid);
    let stored = username::encoded_name(name);
    let l = pending_cache_op::lock_after(lock, op, now);
    let e = pending_cache_op::expiry_after(expiry, op);
    lock_laws::clear_is_gone(lock, stored, now);
    expiry_laws::clear_is_gone(expiry, stored);
    assert forall|other: [u8; 64]| other != stored implies #[trigger] l.lockout(other, now)
        == lock.lockout(other, now) by {
        lock_laws::clear_spares_others(lock, stored, other, now);
    }
    assert forall|other: [u8; 64]| other != stored implies #[trigger] e.entry_of(other)
        == expiry.entry_of(other) by {
        expiry_laws::clear_spares_others(expiry, stored, other);
    }
}

/// A rename is staged whole or refused, and once staged the old name is to be cleared and the new one to
/// get what its rows stand for.
pub proof fn renamed_role_takes_its_state_along(
    ops: Seq<PendingEntry>,
    old_name: Seq<char>,
    new_name: Seq<char>,
    lock: CacheDecision,
    expiry: ExpiryDecision,
    subid: u32,
)
    requires
        pending_laws::nested(ops),
        pending_laws::innermost(ops, subid),
        username::encoded_name(old_name) != username::encoded_name(new_name),
    ensures
        ({
            let after = roles::renamed(ops, old_name, new_name, lock, expiry, subid);
            &&& ops.len() + 2 <= 16 ==> after is Some
            &&& after is Some ==> pending_cache_op::resolution(
                after->0,
                username::encoded_name(old_name),
            ) == Some(Some(CacheDecision::ClearLock))
            &&& after is Some ==> pending_cache_op::resolution(
                after->0,
                username::encoded_name(new_name),
            ) == Some(Some(lock))
            &&& after is Some ==> after->0.contains(
                PendingEntry {
                    username: username::encoded_name(old_name),
                    decision: Some(CacheDecision::ClearLock),
                    expiry: ExpiryDecision::Clear,
                    subid,
                },
            )
            &&& after is Some ==> after->0.contains(
                PendingEntry {
                    username: username::encoded_name(new_name),
                    decision: Some(lock),
                    expiry,
                    subid,
                },
            )
        }),
{
    let gone = roles::removal(old_name, subid);
    let come = roles::installation(new_name, lock, expiry, subid);
    pending_laws::refusal_only_when_full(ops, gone);
    crate::staging_laws::staging_is_exact(ops, gone);
    if let Some(first) = pending_cache_op::staged(ops, gone) {
        pending_laws::refusal_only_when_full(first, come);
        crate::staging_laws::staging_is_exact(first, come);
        pending_laws::staging_decides(ops, gone);
        pending_laws::nesting_is_kept(ops, gone, subid, subid);
        assert(pending_laws::innermost(first, subid)) by {
            assert forall|i: int| 0 <= i < first.len() implies (
            #[trigger] first[i]).subid <= subid by {
                if i < ops.len() {
                    assert(first[i] == ops[i] || first[i] == gone);
                }
            }
        }
        if let Some(second) = pending_cache_op::staged(first, come) {
            pending_laws::staging_decides(first, come);
            pending_laws::staging_spares_others(first, come, gone.username);
            let k = choose|k: int| 0 <= k < first.len() && first[k] == gone;
            assert(second[k] == first[k]);
        }
    }
}

} // verus!
