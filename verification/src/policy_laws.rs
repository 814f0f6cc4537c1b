//! Laws of the password policy: what each rule asks by itself, and what it takes to be accepted.

use crate::policy;
use crate::policy::{
    ChangeGate, Findings, HistoryLimits, PasswordFacts, PasswordPolicy, PasswordRead,
    PasswordRejection, PasswordTraits, ReadReply, ValidationOutcome, ValidationStep,
};
use crate::search;
use crate::text;
use vstd::prelude::*;
use vstd::utf8::*;

verus! {

/// Each rule counts by itself: nothing is said against a password if and only if it is long enough and
/// every rule that is on is met, whatever the other rules are.
pub proof fn each_rule_counts_by_itself(policy: PasswordPolicy, traits: PasswordTraits)
    ensures
        policy::complexity_complaint(policy, traits) is None <==> {
            &&& 0 <= policy.min_length <= traits.length
            &&& policy.require_uppercase ==> traits.has_uppercase
            &&& policy.require_lowercase ==> traits.has_lowercase
            &&& policy.require_digit ==> traits.has_digit
            &&& policy.require_special ==> traits.has_special
            &&& policy.prevent_username ==> !traits.contains_username
        },
{
}

/// A complaint is never made up: the rule it names is on and not met.
pub proof fn complaint_is_justified(policy: PasswordPolicy, traits: PasswordTraits)
    ensures
        policy::complexity_complaint(policy, traits) matches Some(complaint) ==> match complaint {
            PasswordRejection::TooShort => policy.min_length < 0 || traits.length
                < policy.min_length,
            PasswordRejection::NoUppercase => policy.require_uppercase && !traits.has_uppercase,
            PasswordRejection::NoLowercase => policy.require_lowercase && !traits.has_lowercase,
            PasswordRejection::NoDigit => policy.require_digit && !traits.has_digit,
            PasswordRejection::NoSpecial => policy.require_special && !traits.has_special,
            PasswordRejection::ContainsUsername => policy.prevent_username
                && traits.contains_username,
            _ => false,
        },
{
}

/// `b` asks for everything that `a` asks for.
pub open spec fn stricter(a: PasswordPolicy, b: PasswordPolicy) -> bool {
    &&& 0 <= a.min_length <= b.min_length
    &&& a.require_uppercase ==> b.require_uppercase
    &&& a.require_lowercase ==> b.require_lowercase
    &&& a.require_digit ==> b.require_digit
    &&& a.require_special ==> b.require_special
    &&& a.prevent_username ==> b.prevent_username
}

/// A stricter policy accepts nothing that a laxer one refuses.
pub proof fn stricter_policy_accepts_less(
    a: PasswordPolicy,
    b: PasswordPolicy,
    traits: PasswordTraits,
)
    requires
        stricter(a, b),
        policy::complexity_complaint(b, traits) is None,
    ensures
        policy::complexity_complaint(a, traits) is None,
{
}

/// The order of complaints: with several rules broken, length is complained about first, then the
/// letters, the digit, the special character and last the role's name.
pub proof fn complaints_have_an_order(policy: PasswordPolicy, traits: PasswordTraits)
    requires
        policy.min_length >= 0,
    ensures
        ({
            let complaint = policy::complexity_complaint(policy, traits);
            let short = traits.length < policy.min_length;
            let upper = policy.require_uppercase && !traits.has_uppercase;
            let lower = policy.require_lowercase && !traits.has_lowercase;
            let digit = policy.require_digit && !traits.has_digit;
            let special = policy.require_special && !traits.has_special;
            &&& short ==> complaint == Some(PasswordRejection::TooShort)
            &&& !short && upper ==> complaint == Some(PasswordRejection::NoUppercase)
            &&& !short && !upper && lower ==> complaint == Some(PasswordRejection::NoLowercase)
            &&& !short && !upper && !lower && digit ==> complaint == Some(
                PasswordRejection::NoDigit,
            )
            &&& !short && !upper && !lower && !digit && special ==> complaint == Some(
                PasswordRejection::NoSpecial,
            )
        }),
{
}

/// Where a role's name stands in a password, whatever the case of the letters.
pub open spec fn name_stands_at(username: Seq<char>, password: Seq<char>, at: int) -> bool {
    let hay = text::lowercase_text(password);
    let needle = text::lowercase_text(username);
    &&& 0 <= at
    &&& at + needle.len() <= hay.len()
    &&& hay.subrange(at, at + needle.len()) == needle
}

/// The traits of a password are those of its characters, wherever they stand; the role's name counts
/// as contained wherever it stands in whatever case, unless there is none.
pub proof fn traits_are_those_of_the_characters(
    username: Seq<char>,
    password: Seq<char>,
    i: int,
    at: int,
)
    requires
        password.len() <= usize::MAX,
    ensures
        ({
            let t = policy::traits_of(username, password);
            &&& t.length == password.len()
            &&& 0 <= i < password.len() && text::char_uppercase(password[i]) ==> t.has_uppercase
            &&& 0 <= i < password.len() && text::char_lowercase(password[i]) ==> t.has_lowercase
            &&& 0 <= i < password.len() && '0' <= password[i] <= '9' ==> t.has_digit
            &&& 0 <= i < password.len() && !text::char_alphanumeric(password[i]) ==> t.has_special
            &&& username.len() > 0 && name_stands_at(username, password, at)
                ==> t.contains_username
            &&& username.len() == 0 ==> !t.contains_username
        }),
{
    if username.len() > 0 && name_stands_at(username, password, at) {
        let hay = text::lowercase_text(password);
        let needle = text::lowercase_text(username);
        assert(text::occurs_at(hay, needle, at)) by {
            assert forall|j: int| 0 <= j < needle.len() implies hay[at + j] == needle[j] by {
                assert(hay.subrange(at, at + needle.len())[j] == needle[j]);
            }
            assert(hay.subrange(at, at + needle.len()) =~= needle);
        }
    }
}

/// What no character has, the password has not either.
pub proof fn no_trait_without_a_character(username: Seq<char>, password: Seq<char>)
    ensures
        ({
            let t = policy::traits_of(username, password);
            &&& t.has_uppercase ==> exists|i: int|
                0 <= i < password.len() && text::char_uppercase(#[trigger] password[i])
            &&& t.has_lowercase ==> exists|i: int|
                0 <= i < password.len() && text::char_lowercase(#[trigger] password[i])
            &&& t.has_digit ==> exists|i: int|
                0 <= i < password.len() && '0' <= #[trigger] password[i] <= '9'
            &&& t.has_special ==> exists|i: int|
                0 <= i < password.len() && !text::char_alphanumeric(#[trigger] password[i])
            &&& t.contains_username ==> username.len() > 0 && exists|at: int|
                #[trigger] name_stands_at(username, password, at)
        }),
{
    let t = policy::traits_of(username, password);
    if t.has_digit {
        let i = choose|i: int|
            0 <= i < password.len() && text::is_digit_char(#[trigger] password[i]);
        assert('0' <= password[i] <= '9');
    }
    if t.contains_username {
        let hay = text::lowercase_text(password);
        let needle = text::lowercase_text(username);
        let at = choose|at: int| text::occurs_at(hay, needle, at);
        assert(hay.subrange(at, at + needle.len()) =~= needle);
        assert(name_stands_at(username, password, at));
    }
}

/// A validation accepts a password exactly when the role is not exempt and nothing speaks against it:
/// it does not look like a hash, it has the characters that are asked for and not the role's name,
/// it is not on the blacklist, and no digest that is compared represents it. An exempt role is never
/// asked for anything.
pub proof fn acceptance_is_exact(username: Seq<char>, password: Seq<char>, facts: PasswordFacts)
    requires
        password.len() <= usize::MAX,
    ensures
        ({
            let v = policy::verdict(policy::findings(username, password, facts));
            let t = policy::traits_of(username, password);
            &&& facts.bypassed <==> v == Ok::<ValidationOutcome, PasswordRejection>(
                ValidationOutcome::Bypassed,
            )
            &&& v == Ok::<ValidationOutcome, PasswordRejection>(ValidationOutcome::Accepted) <==> {
                &&& !facts.bypassed
                &&& !policy::hash_like(password, text::lowercase_text(password))
                &&& 0 <= facts.policy.min_length <= password.len()
                &&& facts.policy.require_uppercase ==> t.has_uppercase
                &&& facts.policy.require_lowercase ==> t.has_lowercase
                &&& facts.policy.require_digit ==> t.has_digit
                &&& facts.policy.require_special ==> t.has_special
                &&& facts.policy.prevent_username ==> !t.contains_username
                &&& !facts.blacklisted
                &&& facts.history_count >= 1 ==> forall|i: int|
                    0 <= i < facts.history@.len() ==> !policy::stored_matches(
                        password,
                        (#[trigger] facts.history@[i])@,
                    )
                &&& facts.reuse_days >= 1 ==> forall|i: int|
                    0 <= i < facts.recent@.len() ==> !policy::stored_matches(
                        password,
                        (#[trigger] facts.recent@[i])@,
                    )
            }
        }),
{
}

/// What a validation refuses beyond the characters it says in the right words: the first of looking
/// like a hash, a broken rule, the blacklist, the last passwords and the recent ones.
pub proof fn refusal_names_the_first_reason(f: Findings)
    requires
        !f.bypassed,
    ensures
        ({
            let v = policy::verdict(f);
            let broken = policy::complexity_complaint(f.policy, f.traits);
            let known = f.history_count >= 1 && f.in_history;
            &&& f.looks_like_hash ==> v == Err::<ValidationOutcome, PasswordRejection>(
                PasswordRejection::LooksLikeHash,
            )
            &&& !f.looks_like_hash && broken is Some ==> v == Err::<
                ValidationOutcome,
                PasswordRejection,
            >(broken->0)
            &&& !f.looks_like_hash && broken is None && f.blacklisted ==> v == Err::<
                ValidationOutcome,
                PasswordRejection,
            >(PasswordRejection::Blacklisted)
            &&& !f.looks_like_hash && broken is None && !f.blacklisted && known ==> v == Err::<
                ValidationOutcome,
                PasswordRejection,
            >(PasswordRejection::UsedRecently(f.history_count))
            &&& !f.looks_like_hash && broken is None && !f.blacklisted && !known && f.reuse_days >= 1
                && f.used_in_time ==> v == Err::<ValidationOutcome, PasswordRejection>(
                PasswordRejection::UsedWithinDays(f.reuse_days),
            )
        }),
{
}

/// Every known form of a hash is taken for one: a scheme's name at the beginning, in whatever case,
/// suffices for most, and the bcrypt and crypt families need a little length too.
pub proof fn known_hashes_are_recognized(password: Seq<char>, lower: Seq<char>)
    requires
        password.len() > 0,
    ensures
        ({
            let bytes = encode_utf8(password).len();
            &&& "$argon2i$"@.is_prefix_of(lower) ==> policy::hash_like(password, lower)
            &&& "$argon2id$"@.is_prefix_of(lower) ==> policy::hash_like(password, lower)
            &&& "$argon2d$"@.is_prefix_of(lower) ==> policy::hash_like(password, lower)
            &&& "scram-sha-256$"@.is_prefix_of(lower) ==> policy::hash_like(password, lower)
            &&& "$pbkdf2-"@.is_prefix_of(lower) ==> policy::hash_like(password, lower)
            &&& "pbkdf2:"@.is_prefix_of(lower) ==> policy::hash_like(password, lower)
            &&& "sha1$"@.is_prefix_of(lower) ==> policy::hash_like(password, lower)
            &&& "sha256$"@.is_prefix_of(lower) ==> policy::hash_like(password, lower)
            &&& "$2a$"@.is_prefix_of(lower) && bytes >= 20 ==> policy::hash_like(password, lower)
            &&& "$2b$"@.is_prefix_of(lower) && bytes >= 20 ==> policy::hash_like(password, lower)
            &&& "$2x$"@.is_prefix_of(lower) && bytes >= 20 ==> policy::hash_like(password, lower)
            &&& "$2y$"@.is_prefix_of(lower) && bytes >= 20 ==> policy::hash_like(password, lower)
            &&& "$1$"@.is_prefix_of(lower) && bytes >= 21 ==> policy::hash_like(password, lower)
            &&& "$5$"@.is_prefix_of(lower) && bytes >= 21 ==> policy::hash_like(password, lower)
            &&& "$6$"@.is_prefix_of(lower) && bytes >= 21 ==> policy::hash_like(password, lower)
        }),
{
    assert(forall|p: Seq<char>| #[trigger]
        p.is_prefix_of(lower) ==> text::begins_with(lower, p)) by {
        assert forall|p: Seq<char>| #[trigger] p.is_prefix_of(lower) implies text::begins_with(
            lower,
            p,
        ) by {
            assert(lower.subrange(0, p.len() as int) =~= p);
        }
    }
}

/// A bare digest is taken for one by its length alone, and so is a marked MD5 digest.
pub proof fn bare_digests_are_recognized(password: Seq<char>, lower: Seq<char>)
    requires
        password.len() > 0,
    ensures
        ({
            let bytes = encode_utf8(password).len();
            let hex = forall|i: int|
                0 <= i < password.len() ==> ('0' <= #[trigger] password[i] <= '9' || 'a'
                    <= password[i] <= 'f' || 'A' <= password[i] <= 'F');
            let hex_after_mark = password.len() >= 3 && forall|i: int|
                3 <= i < password.len() ==> ('0' <= #[trigger] password[i] <= '9' || 'a'
                    <= password[i] <= 'f' || 'A' <= password[i] <= 'F');
            &&& hex && (bytes == 40 || bytes == 64 || bytes == 128) ==> policy::hash_like(
                password,
                lower,
            )
            &&& "md5"@.is_prefix_of(lower) && bytes == 35 && hex_after_mark ==> policy::hash_like(
                password,
                lower,
            )
        }),
{
    if "md5"@.is_prefix_of(lower) {
        assert(lower.subrange(0, "md5"@.len() as int) =~= "md5"@);
    }
    if password.len() >= 3 && forall|i: int|
        3 <= i < password.len() ==> ('0' <= #[trigger] password[i] <= '9' || 'a' <= password[i]
            <= 'f' || 'A' <= password[i] <= 'F') {
        let rest = password.skip(3);
        assert forall|i: int| 0 <= i < rest.len() implies text::is_hex_char(#[trigger] rest[i]) by {
            assert(rest[i] == password[i + 3]);
        }
    }
    if forall|i: int|
        0 <= i < password.len() ==> ('0' <= #[trigger] password[i] <= '9' || 'a' <= password[i]
            <= 'f' || 'A' <= password[i] <= 'F') {
        assert(text::all_hex(password));
    }
}

/// An ordinary password is never taken for a hash: one of fewer than 20 bytes that begins with no
/// scheme's name, and the empty one.
pub proof fn short_plain_text_is_no_hash(password: Seq<char>, lower: Seq<char>)
    requires
        encode_utf8(password).len() < 20,
        lower.len() > 0 ==> lower[0] != '$',
        !"scram-sha-256$"@.is_prefix_of(lower),
        !"pbkdf2:"@.is_prefix_of(lower),
        !"sha1$"@.is_prefix_of(lower),
        !"sha256$"@.is_prefix_of(lower),
    ensures
        !policy::hash_like(password, lower),
{
    assert(forall|p: Seq<char>| #[trigger]
        text::begins_with(lower, p) ==> p.is_prefix_of(lower)) by {
        assert forall|p: Seq<char>| #[trigger] text::begins_with(lower, p) implies p.is_prefix_of(
            lower,
        ) by {
            assert(p =~= lower.subrange(0, p.len() as int));
        }
    }
    reveal_strlit("$argon2i$");
    reveal_strlit("$argon2id$");
    reveal_strlit("$argon2d$");
    reveal_strlit("$pbkdf2-");
    assert(!"$argon2i$"@.is_prefix_of(lower)) by {
        if "$argon2i$"@.is_prefix_of(lower) {
            assert(lower.subrange(0, "$argon2i$"@.len() as int)[0] == "$argon2i$"@[0]);
        }
    }
    assert(!"$argon2id$"@.is_prefix_of(lower)) by {
        if "$argon2id$"@.is_prefix_of(lower) {
            assert(lower.subrange(0, "$argon2id$"@.len() as int)[0] == "$argon2id$"@[0]);
        }
    }
    assert(!"$argon2d$"@.is_prefix_of(lower)) by {
        if "$argon2d$"@.is_prefix_of(lower) {
            assert(lower.subrange(0, "$argon2d$"@.len() as int)[0] == "$argon2d$"@[0]);
        }
    }
    assert(!"$pbkdf2-"@.is_prefix_of(lower)) by {
        if "$pbkdf2-"@.is_prefix_of(lower) {
            assert(lower.subrange(0, "$pbkdf2-"@.len() as int)[0] == "$pbkdf2-"@[0]);
        }
    }
}

/// A change is refused when its password looks like a hash, validated when it is plain text, and
/// otherwise passed over.
pub proof fn change_is_gated(password: Seq<char>, lower: Seq<char>, plaintext: bool)
    ensures
        policy::change_gate(password, lower, plaintext) == ChangeGate::RefuseHash
            <==> policy::hash_like(password, lower),
        policy::change_gate(password, lower, plaintext) == ChangeGate::Validate <==> plaintext
            && password.len() > 0 && !policy::hash_like(password, lower),
{
}

/// What is compared is read: the last passwords exactly when their number is set, the recent ones
/// exactly when their days are, one after the other.
pub proof fn histories_are_read_when_they_count(limits: HistoryLimits)
    ensures
        limits.after_blacklist() == PasswordRead::History <==> limits.history_count >= 1,
        limits.history_count <= 0 ==> limits.after_blacklist() == limits.after_history(),
        limits.after_history() == PasswordRead::Recent <==> limits.reuse_days >= 1,
        limits.after_history() == PasswordRead::CustomCheck <==> limits.reuse_days <= 0,
{
}

/// A custom check objects by saying anything but `OK`.
pub proof fn custom_check_objects(message: Seq<char>)
    ensures
        policy::objects(message) <==> message.len() >= 1 && !(message =~= "OK"@),
{
}

/// A read that failed always ends the validation with its words.
pub proof fn failed_read_ends_it(
    username: Seq<char>,
    password: Seq<char>,
    limits: HistoryLimits,
    message: String,
)
    ensures
        policy::step_after(username, password, limits, Err(message)) == ValidationStep::Unreadable(
            message,
        ),
{
}

/// Text that begins with neither `$` nor the name of a scheme is no hash, however long it is, unless it
/// is a bare digest or one marked as MD5.
pub proof fn plain_text_is_no_hash(password: Seq<char>, lower: Seq<char>)
    requires
        password.len() > 0 ==> password[0] != '$',
        lower.len() > 0 ==> lower[0] != '$',
        !"scram-sha-256$"@.is_prefix_of(lower),
        !"pbkdf2:"@.is_prefix_of(lower),
        !"sha1$"@.is_prefix_of(lower),
        !"sha256$"@.is_prefix_of(lower),
        ({
            let bytes = encode_utf8(password).len();
            let hex = forall|i: int|
                0 <= i < password.len() ==> ('0' <= #[trigger] password[i] <= '9' || 'a'
                    <= password[i] <= 'f' || 'A' <= password[i] <= 'F');
            &&& hex ==> bytes != 40 && bytes != 64 && bytes != 128
            &&& bytes == 35 ==> !"md5"@.is_prefix_of(lower)
        }),
    ensures
        !policy::hash_like(password, lower),
{
    reveal_strlit("$argon2i$");
    reveal_strlit("$argon2id$");
    reveal_strlit("$argon2d$");
    reveal_strlit("$pbkdf2-");
    reveal_strlit("$2a$");
    reveal_strlit("$2b$");
    reveal_strlit("$2x$");
    reveal_strlit("$2y$");
    reveal_strlit("$1$");
    reveal_strlit("$5$");
    reveal_strlit("$6$");
    dollar_begins(lower, "$argon2i$"@);
    dollar_begins(lower, "$argon2id$"@);
    dollar_begins(lower, "$argon2d$"@);
    dollar_begins(lower, "$pbkdf2-"@);
    dollar_begins(lower, "$2a$"@);
    dollar_begins(lower, "$2b$"@);
    dollar_begins(lower, "$2x$"@);
    dollar_begins(lower, "$2y$"@);
    dollar_begins(lower, "$1$"@);
    dollar_begins(lower, "$5$"@);
    dollar_begins(lower, "$6$"@);
    prefix_begins(lower, "scram-sha-256$"@);
    prefix_begins(lower, "pbkdf2:"@);
    prefix_begins(lower, "sha1$"@);
    prefix_begins(lower, "sha256$"@);
    prefix_begins(lower, "md5"@);
    if text::all_hex(password) {
        assert forall|i: int| 0 <= i < password.len() implies ('0' <= #[trigger] password[i] <= '9'
            || 'a' <= password[i] <= 'f' || 'A' <= password[i] <= 'F') by {
            assert(text::is_hex_char(password[i]));
        }
    }
}

proof fn prefix_begins(lower: Seq<char>, prefix: Seq<char>)
    ensures
        text::begins_with(lower, prefix) <==> prefix.is_prefix_of(lower),
{
    if prefix.is_prefix_of(lower) {
        assert(lower.subrange(0, prefix.len() as int) =~= prefix);
    }
}

proof fn dollar_begins(lower: Seq<char>, prefix: Seq<char>)
    requires
        prefix.len() > 0,
        prefix[0] == '$',
        lower.len() > 0 ==> lower[0] != '$',
    ensures
        !text::begins_with(lower, prefix),
{
    if text::begins_with(lower, prefix) {
        assert(lower.subrange(0, prefix.len() as int)[0] == prefix[0]);
    }
}

/// Whatever it begins with, text of fewer than 20 bytes that names no scheme is no hash.
pub proof fn short_text_is_no_hash(password: Seq<char>, lower: Seq<char>)
    requires
        encode_utf8(password).len() < 20,
        !"$argon2i$"@.is_prefix_of(lower),
        !"$argon2id$"@.is_prefix_of(lower),
        !"$argon2d$"@.is_prefix_of(lower),
        !"scram-sha-256$"@.is_prefix_of(lower),
        !"$pbkdf2-"@.is_prefix_of(lower),
        !"pbkdf2:"@.is_prefix_of(lower),
        !"sha1$"@.is_prefix_of(lower),
        !"sha256$"@.is_prefix_of(lower),
    ensures
        !policy::hash_like(password, lower),
        !policy::hash_like(Seq::empty(), lower),
{
    prefix_begins(lower, "$argon2i$"@);
    prefix_begins(lower, "$argon2id$"@);
    prefix_begins(lower, "$argon2d$"@);
    prefix_begins(lower, "scram-sha-256$"@);
    prefix_begins(lower, "$pbkdf2-"@);
    prefix_begins(lower, "pbkdf2:"@);
    prefix_begins(lower, "sha1$"@);
    prefix_begins(lower, "sha256$"@);
}

/// Text of more than 50 bytes that begins with `$` is taken for a hash when it holds two more of them,
/// wherever they stand.
pub proof fn long_text_with_dollars_is_a_hash(
    password: Seq<char>,
    lower: Seq<char>,
    second: int,
    third: int,
)
    requires
        encode_utf8(password).len() > 50,
        0 < second < third < password.len(),
        password[0] == '$',
        password[second] == '$',
        password[third] == '$',
    ensures
        policy::hash_like(password, lower),
{
    let p = |c: char| c == '$';
    let a = password.subrange(0, 1);
    let b = password.subrange(1, second);
    let c = password.subrange(second, second + 1);
    let d = password.subrange(second + 1, third);
    let e = password.subrange(third, third + 1);
    let f = password.subrange(third + 1, password.len() as int);
    assert(password =~= a + b + c + d + e + f);
    assert(a =~= seq!['$'] && c =~= seq!['$'] && e =~= seq!['$']);
    search::count_is_exact(a, '$', p);
    search::count_adds_up(a, b, p);
    search::count_adds_up(a + b, c, p);
    search::count_adds_up(a + b + c, d, p);
    search::count_adds_up(a + b + c + d, e, p);
    search::count_adds_up(a + b + c + d + e, f, p);
}

/// What the functions of a change return: a password that looks like a hash is refused, plain text is
/// validated, only what was accepted is recorded, and passwords are changed in one database alone.
pub proof fn changes_are_guarded(
    password: &str,
    plaintext: bool,
    gate: ChangeGate,
    outcome: Option<ValidationOutcome>,
    recorded: bool,
    connected: bool,
    database: Option<&str>,
    here: Result<(), &'static str>,
)
    requires
        call_ensures(policy::password_change_gate, (password, plaintext), gate),
        call_ensures(policy::is_recorded, (outcome,), recorded),
        call_ensures(policy::require_control_database, (connected, database), here),
    ensures
        gate == ChangeGate::RefuseHash <==> policy::hash_like(
            password@,
            text::lowercase_text(password@),
        ),
        gate == ChangeGate::Validate <==> plaintext && password@.len() > 0 && !policy::hash_like(
            password@,
            text::lowercase_text(password@),
        ),
        recorded <==> outcome == Some(ValidationOutcome::Accepted),
        here is Ok <==> connected && database is Some && database->0@ == "postgres"@,
{
}

/// What [`policy::check_complexity`] returns: no complaint exactly when the password is long enough and
/// every rule that is on is met.
pub proof fn complaint_is_returned_when_due(
    policy: &PasswordPolicy,
    traits: &PasswordTraits,
    r: Option<PasswordRejection>,
)
    requires
        call_ensures(policy::check_complexity, (policy, traits), r),
    ensures
        r is None <==> {
            &&& 0 <= policy.min_length <= traits.length
            &&& policy.require_uppercase ==> traits.has_uppercase
            &&& policy.require_lowercase ==> traits.has_lowercase
            &&& policy.require_digit ==> traits.has_digit
            &&& policy.require_special ==> traits.has_special
            &&& policy.prevent_username ==> !traits.contains_username
        },
{
}

/// What [`policy::validate_password`] returns: success exactly for an exempt role and for a password that
/// nothing speaks against.
pub proof fn validation_returns_the_verdict(
    username: &str,
    password: &str,
    facts: &PasswordFacts,
    r: Result<ValidationOutcome, PasswordRejection>,
    traits: PasswordTraits,
)
    requires
        call_ensures(policy::validate_password, (username, password, facts), r),
        call_ensures(policy::password_traits, (username, password), traits),
    ensures
        r == Ok::<ValidationOutcome, PasswordRejection>(ValidationOutcome::Bypassed)
            <==> facts.bypassed,
        r == Ok::<ValidationOutcome, PasswordRejection>(ValidationOutcome::Accepted) <==> {
            &&& !facts.bypassed
            &&& !policy::hash_like(password@, text::lowercase_text(password@))
            &&& 0 <= facts.policy.min_length <= password@.len()
            &&& facts.policy.require_uppercase ==> traits.has_uppercase
            &&& facts.policy.require_lowercase ==> traits.has_lowercase
            &&& facts.policy.require_digit ==> traits.has_digit
            &&& facts.policy.require_special ==> traits.has_special
            &&& facts.policy.prevent_username ==> !traits.contains_username
            &&& !facts.blacklisted
            &&& facts.history_count >= 1 ==> !policy::any_matches(password@, facts.history@)
            &&& facts.reuse_days >= 1 ==> !policy::any_matches(password@, facts.recent@)
        },
{
}

/// How a validation goes on after each read that succeeded.
pub proof fn reads_are_followed_up(
    username: Seq<char>,
    password: Seq<char>,
    limits: HistoryLimits,
    policy: PasswordPolicy,
    digests: Vec<String>,
    message: String,
)
    ensures
        policy::step_after(username, password, limits, Ok(ReadReply::Exemption(true)))
            == ValidationStep::Passed(ValidationOutcome::Bypassed),
        policy::step_after(username, password, limits, Ok(ReadReply::Exemption(false)))
            == ValidationStep::Read(PasswordRead::Policy) <==> !policy::hash_like(
            password,
            text::lowercase_text(password),
        ),
        policy::step_after(username, password, limits, Ok(ReadReply::Policy(policy)))
            == ValidationStep::Read(PasswordRead::Blacklist) <==> policy::complexity_complaint(
            policy,
            policy::traits_of(username, password),
        ) is None,
        policy::step_after(username, password, limits, Ok(ReadReply::Blacklist(true)))
            == ValidationStep::Rejected(PasswordRejection::Blacklisted),
        policy::step_after(username, password, limits, Ok(ReadReply::Blacklist(false)))
            is Read,
        policy::step_after(username, password, limits, Ok(ReadReply::History(digests)))
            is Rejected <==> exists|i: int|
            0 <= i < digests@.len() && policy::stored_matches(password, (#[trigger] digests@[i])@),
        policy::step_after(username, password, limits, Ok(ReadReply::Recent(digests)))
            is Rejected <==> exists|i: int|
            0 <= i < digests@.len() && policy::stored_matches(password, (#[trigger] digests@[i])@),
        policy::step_after(username, password, limits, Ok(ReadReply::CustomCheck(Some(message))))
            is Rejected <==> message@.len() >= 1 && message@ != "OK"@,
        policy::step_after(username, password, limits, Ok(ReadReply::CustomCheck(None)))
            == ValidationStep::Passed(ValidationOutcome::Accepted),
{
}

} // verus!
