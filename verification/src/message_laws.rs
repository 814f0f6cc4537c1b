//! Laws of messages: the numbers and names they are about can be read from them.

use crate::admin;
use crate::attempts;
use crate::attempts::ClearOutcome;
use crate::history;
use crate::pending_cache_op;
use crate::policy;
use crate::policy::{PasswordRejection, ValidationOutcome};
use crate::text;
use crate::text_laws;
use vstd::prelude::*;

verus! {

/// `part` stands somewhere in `words`.
pub open spec fn tells(words: Seq<char>, part: Seq<char>) -> bool {
    exists|from: int|
        {
            &&& 0 <= from
            &&& from + part.len() <= words.len()
            &&& #[trigger] words.subrange(from, from + part.len()) == part
        }
}

proof fn middle_is_told(before: Seq<char>, part: Seq<char>, after: Seq<char>)
    ensures
        tells(before + part + after, part),
{
    let words = before + part + after;
    let from = before.len() as int;
    assert(words.subrange(from, from + part.len()) =~= part);
}

proof fn end_is_told(before: Seq<char>, part: Seq<char>)
    ensures
        tells(before + part, part),
{
    let words = before + part;
    let from = before.len() as int;
    assert(words.subrange(from, from + part.len()) =~= part);
}

proof fn told_before_more(words: Seq<char>, part: Seq<char>, more: Seq<char>)
    requires
        tells(words, part),
    ensures
        tells(words + more, part),
{
    let from = choose|from: int|
        {
            &&& 0 <= from
            &&& from + part.len() <= words.len()
            &&& #[trigger] words.subrange(from, from + part.len()) == part
        };
    assert((words + more).subrange(from, from + part.len()) =~= part);
}

/// The middle between two fixed texts decides the whole.
proof fn middles_decide(before: Seq<char>, a: Seq<char>, b: Seq<char>, after: Seq<char>)
    requires
        before + a + after == before + b + after,
    ensures
        a == b,
{
    let x = before + a + after;
    let y = before + b + after;
    assert(a =~= x.subrange(before.len() as int, x.len() - after.len()));
    assert(b =~= y.subrange(before.len() as int, y.len() - after.len()));
}

/// A refusal for reuse tells how many passwords or days are meant: different numbers, different words.
pub proof fn refusals_tell_their_numbers(a: i32, b: i32)
    ensures
        tells(PasswordRejection::UsedRecently(a).words(), text::decimal(a as int)),
        tells(PasswordRejection::UsedWithinDays(a).words(), text::decimal(a as int)),
        PasswordRejection::UsedRecently(a).words() == PasswordRejection::UsedRecently(b).words()
            ==> a == b,
        PasswordRejection::UsedWithinDays(a).words() == PasswordRejection::UsedWithinDays(b).words()
            ==> a == b,
{
    let recently = "Password was used recently. Cannot reuse last "@;
    let within = "Password was used within last "@;
    middle_is_told(recently, text::decimal(a as int), " passwords."@);
    middle_is_told(within, text::decimal(a as int), " days"@);
    if PasswordRejection::UsedRecently(a).words() == PasswordRejection::UsedRecently(b).words() {
        middles_decide(
            recently,
            text::decimal(a as int),
            text::decimal(b as int),
            " passwords."@,
        );
        text_laws::numbers_are_told_apart(a as int, b as int);
    }
    if PasswordRejection::UsedWithinDays(a).words() == PasswordRejection::UsedWithinDays(
        b,
    ).words() {
        middles_decide(within, text::decimal(a as int), text::decimal(b as int), " days"@);
        text_laws::numbers_are_told_apart(a as int, b as int);
    }
}

/// What a custom check said is repeated as it is.
pub proof fn objections_are_repeated(message: String)
    ensures
        PasswordRejection::Custom(message).words() == message@,
{
}

/// A lockout is told in whole minutes and the seconds that are left over.
pub proof fn lockouts_are_told(minutes: int, rest: int)
    requires
        minutes >= 0,
        0 <= rest < 60,
    ensures
        ({
            let words = attempts::locked_message(60 * minutes + rest);
            let m = text::decimal(minutes);
            let s = text::decimal(rest);
            &&& tells(words, m)
            &&& tells(words, s)
            &&& tells(words, m + " minute(s) and "@ + s + " second(s)."@)
        }),
{
    let head = "Account locked! Please wait "@;
    let middle = " minute(s) and "@;
    let tail = " second(s). Too many failed login attempts."@;
    let m = text::decimal(minutes);
    let s = text::decimal(rest);
    assert((60 * minutes + rest) / 60 == minutes && (60 * minutes + rest) % 60 == rest);
    middle_is_told(head, m, middle);
    told_before_more(head + m + middle, m, s);
    told_before_more(head + m + middle + s, m, tail);
    middle_is_told(head + m + middle, s, tail);
    reveal_strlit(" second(s). Too many failed login attempts.");
    reveal_strlit(" second(s).");
    let part = m + middle + s + " second(s)."@;
    let rest_of_tail = tail.skip(11);
    assert(tail =~= " second(s)."@ + rest_of_tail);
    middle_is_told(head, part, rest_of_tail);
    assert(head + m + middle + s + tail =~= head + part + rest_of_tail);
}

/// Complaints about rows tell how many there were.
pub proof fn complaints_tell_the_rows(o: ClearOutcome, n: int)
    ensures
        tells(attempts::forced_message(n), text::decimal(n)),
        tells(history::decrement_message(n), text::decimal(n)),
        tells(attempts::inconsistent_message(o), text::decimal(o.deleted as int)),
        tells(attempts::inconsistent_message(o), text::decimal(o.active as int)),
        tells(pending_cache_op::capacity_message(), text::decimal(16)),
{
    middle_is_told(
        "password_profile: forced clear affected "@,
        text::decimal(n),
        " login_attempts rows for one username; refusing to update the lock cache"@,
    );
    middle_is_told(
        "password_profile: grace decrement affected "@,
        text::decimal(n),
        " rows for one username; refusing to acknowledge the event"@,
    );
    middle_is_told(
        "password_profile: more than "@,
        text::decimal(16),
        " pending lock cache operations in one transaction; aborting the transaction rather than dropping a lockout update"@,
    );
    let head =
        "password_profile: inconsistent login_attempts state for one username (deleted="@;
    let d = text::decimal(o.deleted as int);
    let a = text::decimal(o.active as int);
    let tail = "); refusing to update the lock cache"@;
    middle_is_told(head, d, ", active="@);
    told_before_more(head + d + ", active="@, d, a);
    told_before_more(head + d + ", active="@ + a, d, tail);
    middle_is_told(head + d + ", active="@, a, tail);
}

/// The report of a loaded blacklist tells both numbers and the file.
pub proof fn loading_is_told(loaded: u64, path: &str, errors: u64, r: String)
    requires
        call_ensures(admin::load_blacklist_reply, (loaded, path, errors), r),
    ensures
        tells(r@, text::decimal(loaded as int)),
        tells(r@, path@),
        tells(r@, text::decimal(errors as int)),
{
    let l = text::decimal(loaded as int);
    let e = text::decimal(errors as int);
    let a = "Loaded "@;
    let b = " passwords from '"@;
    let c = "' ("@;
    let d = " errors)"@;
    middle_is_told(a, l, b);
    told_before_more(a + l + b, l, path@);
    told_before_more(a + l + b + path@, l, c);
    told_before_more(a + l + b + path@ + c, l, e);
    told_before_more(a + l + b + path@ + c + e, l, d);
    middle_is_told(a + l + b, path@, c);
    told_before_more(a + l + b + path@ + c, path@, e);
    told_before_more(a + l + b + path@ + c + e, path@, d);
    middle_is_told(a + l + b + path@ + c, e, d);
}

/// An expired password is reported as an error with the grace logins that are left, a valid one and one
/// without a row are not.
pub proof fn expiry_is_told(
    days: i32,
    grace: i32,
    expired: Result<String, String>,
    used_up: Result<String, String>,
    valid: Result<String, String>,
    unknown: Result<String, String>,
    off: Result<String, String>,
)
    requires
        days != 0,
        grace >= 1,
        call_ensures(history::check_password_expiry, (days, Some(true), Some(grace)), expired),
        call_ensures(history::check_password_expiry, (days, Some(true), Some(0)), used_up),
        call_ensures(history::check_password_expiry, (days, Some(false), Some(grace)), valid),
        call_ensures(history::check_password_expiry, (days, None, None), unknown),
        call_ensures(history::check_password_expiry, (0, Some(true), Some(grace)), off),
    ensures
        expired is Err,
        used_up is Err,
        valid is Ok,
        unknown is Ok,
        off is Ok,
        tells(expired->Err_0@, text::decimal(grace as int)),
{
    middle_is_told(
        "Password expired! "@,
        text::decimal(grace as int),
        " grace login(s) remaining."@,
    );
}

/// A role's numbers are told as they are.
pub proof fn numbers_of_a_role_are_told(history: i64, days: i32, failed: i32, r: String)
    requires
        call_ensures(
            history::get_password_stats,
            (Some(history), Some(days), Some(failed)),
            r,
        ),
    ensures
        tells(r@, text::decimal(history as int)),
        tells(r@, text::decimal(days as int)),
        tells(r@, text::decimal(failed as int)),
{
    let a = "Password History: "@;
    let h = text::decimal(history as int);
    let b = " changes | Days until expiry: "@;
    let d = text::decimal(days as int);
    let c = " | Failed attempts: "@;
    let f = text::decimal(failed as int);
    middle_is_told(a, h, b);
    told_before_more(a + h + b, h, d);
    told_before_more(a + h + b + d, h, c);
    told_before_more(a + h + b + d + c, h, f);
    middle_is_told(a + h + b, d, c);
    told_before_more(a + h + b + d + c, d, f);
    end_is_told(a + h + b + d + c, f);
}

/// Somebody who only asks is told an exemption apart from an acceptance, and a first recording apart from
/// a repeated one.
pub proof fn answers_are_told_apart(
    accepted: &'static str,
    bypassed: &'static str,
    first: &'static str,
    again: &'static str,
)
    requires
        call_ensures(policy::check_password_reply, (ValidationOutcome::Accepted,), accepted),
        call_ensures(policy::check_password_reply, (ValidationOutcome::Bypassed,), bypassed),
        call_ensures(history::record_password_change_reply, (true,), first),
        call_ensures(history::record_password_change_reply, (false,), again),
    ensures
        accepted@ != bypassed@,
        first@ != again@,
{
    reveal_strlit("Password accepted (bypassed)");
    reveal_strlit("Password accepted");
    reveal_strlit("Password change recorded");
    reveal_strlit("Password already recorded; expiry metadata refreshed");
    assert(accepted@.len() != bypassed@.len());
    assert(first@.len() != again@.len());
}

} // verus!
