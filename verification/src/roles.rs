//! Keeping the state of renamed and dropped roles in step, and the locks that serialize work on a
//! role.

use crate::hashing;
use crate::lock_cache::CacheDecision;
use crate::pending_cache_op;
use crate::pending_cache_op::{ExpiryDecision, PendingEntry, PendingModel, PendingState};
use crate::text::same_text;
use crate::username;
use crate::username::encode_username;
use vstd::prelude::*;
use vstd::string::*;
use vstd::utf8::*;

verus! {

/// Advisory-lock namespace of failed attempts.
pub const LOGIN_ATTEMPT_LOCK_NAMESPACE: i32 = 0x7057_1EAF;

/// Advisory-lock namespace of password history. Recording a change and counting a failure do not
/// wait for each other.
pub const PASSWORD_HISTORY_LOCK_NAMESPACE: i32 = 0x7057_2D15;

/// First key word of the advisory key. It never changes: every process derives the key by itself.
pub const LOGIN_ATTEMPT_LOCK_K0: u64 = 0x7061_7373_776F_7264;

/// Second key word of the advisory key.
pub const LOGIN_ATTEMPT_LOCK_K1: u64 = 0x5F70_726F_6669_6C65;

/// The advisory key of a role: the low 32 bits of the digest of its name.
pub open spec fn advisory_key(username: Seq<char>) -> i32 {
    key_of_digest(
        hashing::siphash13(LOGIN_ATTEMPT_LOCK_K0, LOGIN_ATTEMPT_LOCK_K1, encode_utf8(username)),
    )
}

/// The low 32 bits of a digest, read as a signed number.
pub open spec fn key_of_digest(digest: u64) -> i32 {
    let low = digest % 0x1_0000_0000;
    if low >= 0x8000_0000 {
        (low - 0x1_0000_0000) as i32
    } else {
        low as i32
    }
}

/// The low 32 bits of a digest, read as a signed number.
pub fn advisory_key_from_digest(digest: u64) -> (r: i32)
    ensures
        r == key_of_digest(digest),
{
    let low: u64 = digest % 0x1_0000_0000;
    if low >= 0x8000_0000 {
        (low as i64 - 0x1_0000_0000) as i32
    } else {
        low as i32
    }
}

/// The advisory key of a role. Two roles that share one wait for each other, which costs time and
/// nothing else.
pub fn username_advisory_key(username: &str) -> (r: i32)
    ensures
        r == advisory_key(username@),
{
    advisory_key_from_digest(
        hashing::siphash(LOGIN_ATTEMPT_LOCK_K0, LOGIN_ATTEMPT_LOCK_K1, username.as_bytes()),
    )
}

/// `a` comes before `b` byte by byte, a prefix before what it begins.
pub open spec fn comes_before(a: Seq<u8>, b: Seq<u8>) -> bool
    decreases a.len(),
{
    if b.len() == 0 {
        false
    } else if a.len() == 0 {
        true
    } else if a[0] != b[0] {
        a[0] < b[0]
    } else {
        comes_before(a.drop_first(), b.drop_first())
    }
}

/// Of two different byte strings exactly one comes first.
pub proof fn order_is_total(a: Seq<u8>, b: Seq<u8>)
    ensures
        a != b ==> comes_before(a, b) != comes_before(b, a),
        a == b ==> !comes_before(a, b),
    decreases a.len(),
{
    if a.len() > 0 && b.len() > 0 && a[0] == b[0] {
        order_is_total(a.drop_first(), b.drop_first());
        if a.drop_first() == b.drop_first() {
            assert(a =~= seq![a[0]] + a.drop_first());
            assert(b =~= seq![b[0]] + b.drop_first());
        }
    } else if a.len() == 0 && b.len() == 0 {
        assert(a =~= b);
    }
}

fn bytes_before(a: &[u8], b: &[u8]) -> (r: bool)
    ensures
        r == comes_before(a@, b@),
{
    let mut i: usize = 0;
    assert(a@.skip(0) =~= a@);
    assert(b@.skip(0) =~= b@);
    while i < a.len() && i < b.len()
        invariant
            i <= a@.len(),
            i <= b@.len(),
            comes_before(a@, b@) == comes_before(a@.skip(i as int), b@.skip(i as int)),
        decreases a.len() - i,
    {
        let ghost x = a@.skip(i as int);
        let ghost y = b@.skip(i as int);
        assert(x[0] == a@[i as int] && y[0] == b@[i as int]);
        if a[i] != b[i] {
            return a[i] < b[i];
        }
        assert(x.drop_first() =~= a@.skip(i + 1));
        assert(y.drop_first() =~= b@.skip(i + 1));
        i = i + 1;
    }
    i < b.len()
}

/// The names in the order in which their locks are taken.
pub open spec fn lock_order(first: Seq<char>, second: Option<Seq<char>>) -> Seq<Seq<char>> {
    match second {
        Some(other) => if other == first {
            seq![first]
        } else if comes_before(encode_utf8(other), encode_utf8(first)) {
            seq![other, first]
        } else {
            seq![first, other]
        },
        None => seq![first],
    }
}

/// The names whose locks an operation on one or two roles takes, each once, in an order that does
/// not depend on which is named first.
pub fn lock_role_state_names<'a>(first: &'a str, second: Option<&'a str>) -> (r: Vec<&'a str>)
    ensures
        r@.map_values(|s: &'a str| s@) == lock_order(
            first@,
            match second {
                Some(s) => Some(s@),
                None => None,
            },
        ),
{
    let mut names: Vec<&'a str> = Vec::new();
    match second {
        Some(other) => {
            if same_text(other, first) {
                names.push(first);
            } else if bytes_before(other.as_bytes(), first.as_bytes()) {
                names.push(other);
                names.push(first);
            } else {
                names.push(first);
                names.push(other);
            }
        },
        None => {
            names.push(first);
        },
    }
    assert(names@.map_values(|s: &'a str| s@) =~= lock_order(
        first@,
        match second {
            Some(s) => Some(s@),
            None => None,
        },
    ));
    names
}

/// Two operations on the same two roles take their locks in the same order, whichever role each
/// names first, so they cannot wait for each other in a circle.
pub proof fn lock_order_is_agreed(a: Seq<char>, b: Seq<char>)
    ensures
        lock_order(a, Some(b)) == lock_order(b, Some(a)),
{
    order_is_total(encode_utf8(a), encode_utf8(b));
    if a != b {
        if encode_utf8(a) == encode_utf8(b) {
            username::utf8_is_injective(a, b);
        }
    }
    assert(lock_order(a, Some(b)) =~= lock_order(b, Some(a)));
}

/// Whether the state of a role may be moved.
#[derive(Clone, Copy, PartialEq, Eq, Debug, Structural)]
pub enum RenameGate {
    /// Both names are the same: there is nothing to do.
    Unchanged,
    Proceed,
}

/// Checks who asks for what: only superusers move state, and both names must be there.
pub fn check_rename(is_superuser: bool, old_username: &str, new_username: &str) -> (r: Result<
    RenameGate,
    &'static str,
>)
    ensures
        match r {
            Ok(gate) => {
                &&& is_superuser
                &&& old_username@.len() > 0 && new_username@.len() > 0
                &&& gate == if old_username@ == new_username@ {
                    RenameGate::Unchanged
                } else {
                    RenameGate::Proceed
                }
            },
            Err(e) => if !is_superuser {
                e@ == "permission denied: superuser is required to move role state"@
            } else {
                &&& old_username@.len() == 0 || new_username@.len() == 0
                &&& e@ == "role names must not be empty"@
            },
        },
{
    if !is_superuser {
        return Err("permission denied: superuser is required to move role state");
    }
    if old_username.unicode_len() == 0 || new_username.unicode_len() == 0 {
        return Err("role names must not be empty");
    }
    if same_text(old_username, new_username) {
        return Ok(RenameGate::Unchanged);
    }
    Ok(RenameGate::Proceed)
}

/// Checks that PostgreSQL has renamed the role: the old name is gone and the new one exists.
pub fn check_role_renamed(old_role_exists: bool, new_role_exists: bool) -> (r: Result<
    (),
    &'static str,
>)
    ensures
        match r {
            Ok(()) => !old_role_exists && new_role_exists,
            Err(e) => {
                &&& old_role_exists || !new_role_exists
                &&& e@
                    == "rename the PostgreSQL role first and call rename_role_state in the same transaction"@
            },
        },
{
    if old_role_exists || !new_role_exists {
        return Err(
            "rename the PostgreSQL role first and call rename_role_state in the same transaction",
        );
    }
    Ok(())
}

/// Checks that the new name has no state of its own.
pub fn check_rename_target(target_has_state: bool) -> (r: Result<(), &'static str>)
    ensures
        match r {
            Ok(()) => !target_has_state,
            Err(e) => target_has_state && e@
                == "target role name already has password_profile state; remove it first"@,
        },
{
    if target_has_state {
        return Err("target role name already has password_profile state; remove it first");
    }
    Ok(())
}

/// The operation that removes a role from both caches.
pub open spec fn removal(name: Seq<char>, subid: u32) -> PendingEntry {
    PendingEntry {
        username: username::encoded_name(name),
        decision: Some(CacheDecision::ClearLock),
        expiry: ExpiryDecision::Clear,
        subid,
    }
}

/// The operation that installs a role in both caches.
pub open spec fn installation(
    name: Seq<char>,
    lock: CacheDecision,
    expiry: ExpiryDecision,
    subid: u32,
) -> PendingEntry {
    PendingEntry { username: username::encoded_name(name), decision: Some(lock), expiry, subid }
}

/// The operations after a rename was staged; `None` when there is no room.
pub open spec fn renamed(
    ops: Seq<PendingEntry>,
    old_name: Seq<char>,
    new_name: Seq<char>,
    lock: CacheDecision,
    expiry: ExpiryDecision,
    subid: u32,
) -> Option<Seq<PendingEntry>> {
    match pending_cache_op::staged(ops, removal(old_name, subid)) {
        Some(first) => pending_cache_op::staged(
            first,
            installation(new_name, lock, expiry, subid),
        ),
        None => None,
    }
}

/// Stages a rename for the caches: the old name goes, and the new one gets what its rows, which
/// were moved before, stand for.
pub fn rename_role_state(
    pending: &mut PendingState,
    subid: u32,
    old_username: &str,
    new_username: &str,
    new_lock: CacheDecision,
    new_expiry: ExpiryDecision,
) -> (r: Result<&'static str, String>)
    ensures
        ({
            let after = renamed(
                old(pending)@.ops,
                old_username@,
                new_username@,
                new_lock,
                new_expiry,
                subid,
            );
            &&& r is Ok <==> after is Some
            &&& after is Some ==> final(pending)@.ops == after->0
            &&& final(pending)@.ack == old(pending)@.ack
        }),
        ({
            let first = pending_cache_op::staged(
                old(pending)@.ops,
                removal(old_username@, subid),
            );
            let second = pending_cache_op::staged(
                first->0,
                installation(new_username@, new_lock, new_expiry, subid),
            );
            match r {
                Ok(words) => {
                    &&& first is Some && second is Some
                    &&& words@ == "Role state renamed"@
                    &&& final(pending)@ == (PendingModel { ops: second->0, ..old(pending)@ })
                },
                Err(e) => {
                    &&& first is None || second is None
                    &&& e@ == pending_cache_op::capacity_message()
                    &&& final(pending)@ == if first is None {
                        old(pending)@
                    } else {
                        PendingModel { ops: first->0, ..old(pending)@ }
                    }
                },
            }
        }),
{
    match pending_cache_op::stage_combined(
        pending,
        encode_username(old_username),
        CacheDecision::ClearLock,
        ExpiryDecision::Clear,
        subid,
    ) {
        Ok(()) => {},
        Err(e) => {
            return Err(e);
        },
    }
    match pending_cache_op::stage_combined(
        pending,
        encode_username(new_username),
        new_lock,
        new_expiry,
        subid,
    ) {
        Ok(()) => Ok("Role state renamed"),
        Err(e) => Err(e),
    }
}

/// Checks whether the state of a role may be removed: only superusers remove it, and only after
/// PostgreSQL has dropped the role.
pub fn check_removal(is_superuser: bool, username: &str, role_exists: bool) -> (r: Result<
    (),
    &'static str,
>)
    ensures
        match r {
            Ok(()) => is_superuser && username@.len() > 0 && !role_exists,
            Err(e) => if !is_superuser {
                e@ == "permission denied: superuser is required to remove role state"@
            } else if username@.len() == 0 {
                e@ == "role name must not be empty"@
            } else {
                &&& role_exists
                &&& e@
                    == "drop the PostgreSQL role first and call remove_role_state in the same transaction"@
            },
        },
{
    if !is_superuser {
        return Err("permission denied: superuser is required to remove role state");
    }
    if username.unicode_len() == 0 {
        return Err("role name must not be empty");
    }
    if role_exists {
        return Err(
            "drop the PostgreSQL role first and call remove_role_state in the same transaction",
        );
    }
    Ok(())
}

/// Stages a removal for the caches.
pub fn remove_role_state(pending: &mut PendingState, subid: u32, username: &str) -> (r: Result<
    &'static str,
    String,
>)
    ensures
        match pending_cache_op::staged(old(pending)@.ops, removal(username@, subid)) {
            Some(ops) => {
                &&& r matches Ok(words)
                &&& words@ == "Role state removed"@
                &&& final(pending)@ == (PendingModel { ops, ..old(pending)@ })
            },
            None => {
                &&& r matches Err(e)
                &&& e@ == pending_cache_op::capacity_message()
                &&& final(pending)@ == old(pending)@
            },
        },
{
    match pending_cache_op::stage_combined(
        pending,
        encode_username(username),
        CacheDecision::ClearLock,
        ExpiryDecision::Clear,
        subid,
    ) {
        Ok(()) => Ok("Role state removed"),
        Err(e) => Err(e),
    }
}

} // verus!
