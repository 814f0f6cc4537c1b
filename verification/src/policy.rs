//! The password policy: which candidate passwords are accepted.

use crate::hashing;
use crate::search;
use crate::text;
use crate::text::{chars_of, same_text, starts_with};
use vstd::prelude::*;
use vstd::string::*;
use vstd::utf8::*;

verus! {

/// The text begins like one of the crypt families that start with `$2`.
pub open spec fn bcrypt_shaped(lower: Seq<char>) -> bool {
    ||| text::begins_with(lower, "$2a$"@)
    ||| text::begins_with(lower, "$2b$"@)
    ||| text::begins_with(lower, "$2x$"@)
    ||| text::begins_with(lower, "$2y$"@)
}

/// The text begins with the name of a hash scheme that needs no further check.
pub open spec fn names_scheme(lower: Seq<char>) -> bool {
    ||| text::begins_with(lower, "$argon2i$"@)
    ||| text::begins_with(lower, "$argon2id$"@)
    ||| text::begins_with(lower, "$argon2d$"@)
    ||| text::begins_with(lower, "scram-sha-256$"@)
    ||| text::begins_with(lower, "$pbkdf2-"@)
    ||| text::begins_with(lower, "pbkdf2:"@)
    ||| text::begins_with(lower, "sha1$"@)
    ||| text::begins_with(lower, "sha256$"@)
}

/// The text begins like one of the older crypt families.
pub open spec fn crypt_shaped(lower: Seq<char>) -> bool {
    ||| text::begins_with(lower, "$1$"@)
    ||| text::begins_with(lower, "$5$"@)
    ||| text::begins_with(lower, "$6$"@)
}

/// `password`, whose lowercase form is `lower`, looks like a precomputed hash:
/// - `md5` and 32 hexadecimal digits,
/// - a bcrypt text of at least 20 bytes,
/// - a text that names its hash scheme,
/// - a bare hexadecimal digest of 40, 64 or 128 digits,
/// - more than 50 bytes that begin with `$` and hold three of them,
/// - an older crypt text of more than 20 bytes.
pub open spec fn hash_like(password: Seq<char>, lower: Seq<char>) -> bool {
    let len = encode_utf8(password).len();
    &&& password.len() > 0
    &&& {
        ||| len == 35 && text::begins_with(lower, "md5"@) && password.len() >= 3 && text::all_hex(
            password.skip(3),
        )
        ||| bcrypt_shaped(lower) && len >= 20
        ||| names_scheme(lower)
        ||| (len == 40 || len == 64 || len == 128) && text::all_hex(password)
        ||| password[0] == '$' && len > 50 && search::count_where(password, |c: char| c == '$')
            >= 3
        ||| crypt_shaped(lower) && len > 20
    }
}

fn count_dollars(chars: &Vec<char>) -> (n: usize)
    ensures
        n == search::count_where(chars@, |c: char| c == '$'),
{
    let ghost p = |c: char| c == '$';
    let mut n: usize = 0;
    let mut i: usize = 0;
    while i < chars.len()
        invariant
            i <= chars@.len(),
            n <= i,
            p == (|c: char| c == '$'),
            n == search::count_where(chars@.take(i as int), p),
        decreases chars.len() - i,
    {
        proof {
            search::count_step(chars@, p, i as int);
        }
        if chars[i] == '$' {
            n = n + 1;
        }
        i = i + 1;
    }
    assert(chars@.take(i as int) =~= chars@);
    n
}

/// Whether `password`, whose lowercase form is `lower`, looks like a precomputed hash.
pub fn is_hash_like_given(password: &str, lower: &str) -> (r: bool)
    ensures
        r == hash_like(password@, lower@),
{
    let chars = chars_of(password);
    if chars.len() == 0 {
        return false;
    }
    let low = chars_of(lower);
    let len: usize = password.as_bytes().len();
    assert(chars@.skip(0) =~= chars@);
    if len == 35 && starts_with(&low, "md5") && chars.len() >= 3 && text::all_hex_from(
        chars.as_slice(),
        3,
    ) {
        return true;
    }
    if (starts_with(&low, "$2a$") || starts_with(&low, "$2b$") || starts_with(&low, "$2x$")
        || starts_with(&low, "$2y$")) && len >= 20 {
        return true;
    }
    if starts_with(&low, "$argon2i$") || starts_with(&low, "$argon2id$") || starts_with(
        &low,
        "$argon2d$",
    ) {
        return true;
    }
    if starts_with(&low, "scram-sha-256$") {
        return true;
    }
    if starts_with(&low, "$pbkdf2-") {
        return true;
    }
    if starts_with(&low, "pbkdf2:") || starts_with(&low, "sha1$") || starts_with(&low, "sha256$") {
        return true;
    }
    if (len == 40 || len == 64 || len == 128) && text::all_hex_from(chars.as_slice(), 0) {
        return true;
    }
    if chars[0] == '$' && len > 50 && count_dollars(&chars) >= 3 {
        return true;
    }
    if (starts_with(&low, "$1$") || starts_with(&low, "$5$") || starts_with(&low, "$6$")) && len
        > 20 {
        return true;
    }
    false
}

/// Whether a password looks like a precomputed hash. Only plain text can be held to the policy, so
/// such a password is refused.
pub fn is_hash_like(password: &str) -> (r: bool)
    ensures
        r == hash_like(password@, text::lowercase_text(password@)),
{
    let lower = text::to_lowercase(password);
    is_hash_like_given(password, lower.as_str())
}

/// What the policy asks of a role's password.
#[derive(Clone, Copy, PartialEq, Eq, Debug, Structural)]
pub struct PasswordPolicy {
    /// Minimum length in characters.
    pub min_length: i32,
    pub require_uppercase: bool,
    pub require_lowercase: bool,
    pub require_digit: bool,
    pub require_special: bool,
    pub prevent_username: bool,
}

/// Why a password is refused.
#[derive(Debug)]
pub enum PasswordRejection {
    LooksLikeHash,
    TooShort,
    NoUppercase,
    NoLowercase,
    NoDigit,
    NoSpecial,
    ContainsUsername,
    Blacklisted,
    /// It is among the last so many passwords.
    UsedRecently(i32),
    /// It was used within so many days.
    UsedWithinDays(i32),
    /// A custom check refused it, in these words.
    Custom(String),
}

impl PasswordRejection {
    /// The rejection in words.
    pub open spec fn words(self) -> Seq<char> {
        match self {
            PasswordRejection::LooksLikeHash => {
                "Security violation: Password looks like a precomputed hash. Plain text passwords cannot be in hash format (bcrypt, MD5, SCRAM, etc.)"@
            },
            PasswordRejection::TooShort => "Password too short"@,
            PasswordRejection::NoUppercase => {
                "Password must contain at least one uppercase letter"@
            },
            PasswordRejection::NoLowercase => {
                "Password must contain at least one lowercase letter"@
            },
            PasswordRejection::NoDigit => "Password must contain at least one digit"@,
            PasswordRejection::NoSpecial => "Password must contain at least one special character"@,
            PasswordRejection::ContainsUsername => "Password cannot contain username"@,
            PasswordRejection::Blacklisted => "Password is in blacklist (too common)"@,
            PasswordRejection::UsedRecently(count) => {
                "Password was used recently. Cannot reuse last "@ + text::decimal(count as int)
                    + " passwords."@
            },
            PasswordRejection::UsedWithinDays(days) => {
                "Password was used within last "@ + text::decimal(days as int) + " days"@
            },
            PasswordRejection::Custom(message) => message@,
        }
    }

    /// The rejection in words.
    pub fn message(&self) -> (r: String)
        ensures
            r@ == self.words(),
    {
        match self {
            PasswordRejection::LooksLikeHash => {
                "Security violation: Password looks like a precomputed hash. Plain text passwords cannot be in hash format (bcrypt, MD5, SCRAM, etc.)".to_string()
            },
            PasswordRejection::TooShort => "Password too short".to_string(),
            PasswordRejection::NoUppercase => {
                "Password must contain at least one uppercase letter".to_string()
            },
            PasswordRejection::NoLowercase => {
                "Password must contain at least one lowercase letter".to_string()
            },
            PasswordRejection::NoDigit => "Password must contain at least one digit".to_string(),
            PasswordRejection::NoSpecial => {
                "Password must contain at least one special character".to_string()
            },
            PasswordRejection::ContainsUsername => "Password cannot contain username".to_string(),
            PasswordRejection::Blacklisted => "Password is in blacklist (too common)".to_string(),
            PasswordRejection::UsedRecently(count) => {
                let mut m = "Password was used recently. Cannot reuse last ".to_string();
                text::append_decimal(&mut m, *count as i64);
                m.append(" passwords.");
                m
            },
            PasswordRejection::UsedWithinDays(days) => {
                let mut m = "Password was used within last ".to_string();
                text::append_decimal(&mut m, *days as i64);
                m.append(" days");
                m
            },
            PasswordRejection::Custom(message) => message.as_str().to_string(),
        }
    }
}

/// Outcome of a validation that refuses nothing.
#[derive(Clone, Copy, PartialEq, Eq, Debug, Structural)]
pub enum ValidationOutcome {
    /// Every enabled check passed.
    Accepted,
    /// The role is exempt; nothing was checked and nothing may be recorded.
    Bypassed,
}

/// What the characters of a password are.
#[derive(Clone, Copy, PartialEq, Eq, Debug, Structural)]
pub struct PasswordTraits {
    /// Length in characters.
    pub length: usize,
    pub has_uppercase: bool,
    pub has_lowercase: bool,
    pub has_digit: bool,
    pub has_special: bool,
    /// It contains the role's name, whatever the case of the letters; a nameless role's never
    /// does.
    pub contains_username: bool,
}

/// The first complaint of the complexity rules.
pub open spec fn complexity_complaint(
    policy: PasswordPolicy,
    traits: PasswordTraits,
) -> Option<PasswordRejection> {
    if policy.min_length < 0 || traits.length < policy.min_length {
        Some(PasswordRejection::TooShort)
    } else if policy.require_uppercase && !traits.has_uppercase {
        Some(PasswordRejection::NoUppercase)
    } else if policy.require_lowercase && !traits.has_lowercase {
        Some(PasswordRejection::NoLowercase)
    } else if policy.require_digit && !traits.has_digit {
        Some(PasswordRejection::NoDigit)
    } else if policy.require_special && !traits.has_special {
        Some(PasswordRejection::NoSpecial)
    } else if policy.prevent_username && traits.contains_username {
        Some(PasswordRejection::ContainsUsername)
    } else {
        None
    }
}

/// Holds the traits of a password against the complexity rules. A negative minimum length, which
/// the setting does not allow, is met by no password.
pub fn check_complexity(policy: &PasswordPolicy, traits: &PasswordTraits) -> (r: Option<
    PasswordRejection,
>)
    ensures
        r == complexity_complaint(*policy, *traits),
{
    if policy.min_length < 0 || traits.length < policy.min_length as usize {
        return Some(PasswordRejection::TooShort);
    }
    if policy.require_uppercase && !traits.has_uppercase {
        return Some(PasswordRejection::NoUppercase);
    }
    if policy.require_lowercase && !traits.has_lowercase {
        return Some(PasswordRejection::NoLowercase);
    }
    if policy.require_digit && !traits.has_digit {
        return Some(PasswordRejection::NoDigit);
    }
    if policy.require_special && !traits.has_special {
        return Some(PasswordRejection::NoSpecial);
    }
    if policy.prevent_username && traits.contains_username {
        return Some(PasswordRejection::ContainsUsername);
    }
    None
}

/// The traits of a password for a role of this name.
pub open spec fn traits_of(username: Seq<char>, password: Seq<char>) -> PasswordTraits {
    PasswordTraits {
        length: password.len() as usize,
        has_uppercase: exists|i: int|
            0 <= i < password.len() && text::char_uppercase(#[trigger] password[i]),
        has_lowercase: exists|i: int|
            0 <= i < password.len() && text::char_lowercase(#[trigger] password[i]),
        has_digit: exists|i: int|
            0 <= i < password.len() && text::is_digit_char(#[trigger] password[i]),
        has_special: exists|i: int|
            0 <= i < password.len() && !text::char_alphanumeric(#[trigger] password[i]),
        contains_username: username.len() > 0 && text::contains_text(
            text::lowercase_text(password),
            text::lowercase_text(username),
        ),
    }
}

/// Finds out the traits of a password for a role of this name.
pub fn password_traits(username: &str, password: &str) -> (r: PasswordTraits)
    ensures
        r == traits_of(username@, password@),
        r.length == password@.len(),
{
    let chars = chars_of(password);
    let mut has_uppercase = false;
    let mut has_lowercase = false;
    let mut has_digit = false;
    let mut has_special = false;
    let mut i: usize = 0;
    while i < chars.len()
        invariant
            i <= chars@.len(),
            has_uppercase == (exists|j: int|
                0 <= j < i && text::char_uppercase(#[trigger] chars@[j])),
            has_lowercase == (exists|j: int|
                0 <= j < i && text::char_lowercase(#[trigger] chars@[j])),
            has_digit == (exists|j: int| 0 <= j < i && text::is_digit_char(#[trigger] chars@[j])),
            has_special == (exists|j: int|
                0 <= j < i && !text::char_alphanumeric(#[trigger] chars@[j])),
        decreases chars.len() - i,
    {
        let c = chars[i];
        assert(chars@[i as int] == c);
        has_uppercase = has_uppercase || text::is_uppercase(c);
        has_lowercase = has_lowercase || text::is_lowercase(c);
        has_digit = has_digit || text::is_ascii_digit(c);
        has_special = has_special || !text::is_alphanumeric(c);
        i = i + 1;
    }
    let mut contains_username = false;
    if username.unicode_len() > 0 {
        let password_lower = text::to_lowercase(password);
        let username_lower = text::to_lowercase(username);
        contains_username = text::chars_contain(
            chars_of(password_lower.as_str()).as_slice(),
            chars_of(username_lower.as_str()).as_slice(),
        );
    }
    PasswordTraits {
        length: chars.len(),
        has_uppercase,
        has_lowercase,
        has_digit,
        has_special,
        contains_username,
    }
}

/// A stored digest represents a password: bcrypt accepts it, or it is a bare MD5 digest of it.
pub open spec fn stored_matches(password: Seq<char>, stored: Seq<char>) -> bool {
    digest_matches(
        hashing::bcrypt_verdict(password, stored),
        stored,
        hashing::md5_text(encode_utf8(password)),
    )
}

/// The same, from what bcrypt answers and the password's MD5 digest.
pub open spec fn digest_matches(
    bcrypt: Option<bool>,
    stored: Seq<char>,
    md5: Seq<char>,
) -> bool {
    ||| bcrypt == Some(true)
    ||| encode_utf8(stored).len() == 32 && text::all_hex(stored) && stored == md5
}

/// Decides from what bcrypt answers and the password's MD5 digest whether a stored digest
/// represents it. A bare MD5 digest is what older rows hold.
pub fn stored_hash_matches_given(bcrypt: Option<bool>, stored: &str, md5: &str) -> (r: bool)
    ensures
        r == digest_matches(bcrypt, stored@, md5@),
{
    match bcrypt {
        Some(true) => {
            return true;
        },
        _ => {},
    }
    let chars = chars_of(stored);
    assert(chars@.skip(0) =~= chars@);
    stored.as_bytes().len() == 32 && text::all_hex_from(chars.as_slice(), 0) && same_text(
        stored,
        md5,
    )
}

/// A hexadecimal digit takes one byte.
proof fn hex_takes_a_byte_each(digest: Seq<char>)
    requires
        text::all_hex(digest),
    ensures
        encode_utf8(digest).len() == digest.len(),
{
    assert(is_ascii_chars(digest)) by {
        assert forall|i: int| 0 <= i < digest.len() implies '\0' <= #[trigger] digest[i]
            <= '\u{7f}' by {
            assert(text::is_hex_char(digest[i]));
        }
    }
    is_ascii_chars_encode_utf8(digest);
}

/// Whether a stored digest represents a password. Validation and recording both decide here. A
/// bare MD5 digest of the password always does, whatever bcrypt makes of it.
pub fn stored_hash_matches(password: &str, stored: &str) -> (r: bool)
    ensures
        r == stored_matches(password@, stored@),
        stored@ == hashing::md5_text(encode_utf8(password@)) ==> r,
{
    let bcrypt = hashing::bcrypt_verify(password, stored);
    let md5 = hashing::md5_hex(password.as_bytes());
    proof {
        hex_takes_a_byte_each(md5@);
    }
    stored_hash_matches_given(bcrypt, stored, md5.as_str())
}

/// Some of the stored digests represents the password.
pub open spec fn any_matches(password: Seq<char>, stored: Seq<String>) -> bool {
    exists|i: int| 0 <= i < stored.len() && stored_matches(password, (#[trigger] stored[i])@)
}

/// Whether any of the stored digests represents the password.
pub fn matches_any(password: &str, stored: &Vec<String>) -> (r: bool)
    ensures
        r == any_matches(password@, stored@),
{
    let mut i: usize = 0;
    while i < stored.len()
        invariant
            i <= stored@.len(),
            forall|j: int| 0 <= j < i ==> !stored_matches(password@, (#[trigger] stored@[j])@),
        decreases stored.len() - i,
    {
        if stored_hash_matches(password, stored[i].as_str()) {
            assert(stored_matches(password@, stored@[i as int]@));
            return true;
        }
        i = i + 1;
    }
    false
}

/// What is known about a candidate password's role and past.
pub struct PasswordFacts {
    /// The role is exempt.
    pub bypassed: bool,
    pub policy: PasswordPolicy,
    pub blacklisted: bool,
    /// How many past passwords are compared; 0 for none.
    pub history_count: i32,
    /// The digests of that many past passwords.
    pub history: Vec<String>,
    /// Within how many days a password is not used again; 0 for any.
    pub reuse_days: i32,
    /// The digests recorded within that time.
    pub recent: Vec<String>,
}

/// What the checks found.
#[derive(Clone, Copy, PartialEq, Eq, Debug, Structural)]
pub struct Findings {
    pub bypassed: bool,
    pub looks_like_hash: bool,
    pub policy: PasswordPolicy,
    pub traits: PasswordTraits,
    pub blacklisted: bool,
    pub history_count: i32,
    pub in_history: bool,
    pub reuse_days: i32,
    pub used_in_time: bool,
}

/// The verdict on a candidate password, from what the checks found. The first complaint counts.
pub open spec fn verdict(f: Findings) -> Result<ValidationOutcome, PasswordRejection> {
    if f.bypassed {
        Ok(ValidationOutcome::Bypassed)
    } else if f.looks_like_hash {
        Err(PasswordRejection::LooksLikeHash)
    } else if complexity_complaint(f.policy, f.traits) is Some {
        Err(complexity_complaint(f.policy, f.traits)->0)
    } else if f.blacklisted {
        Err(PasswordRejection::Blacklisted)
    } else if f.history_count > 0 && f.in_history {
        Err(PasswordRejection::UsedRecently(f.history_count))
    } else if f.reuse_days > 0 && f.used_in_time {
        Err(PasswordRejection::UsedWithinDays(f.reuse_days))
    } else {
        Ok(ValidationOutcome::Accepted)
    }
}

/// Judges a candidate password from what the checks found.
pub fn judge(f: &Findings) -> (r: Result<ValidationOutcome, PasswordRejection>)
    ensures
        r == verdict(*f),
{
    if f.bypassed {
        return Ok(ValidationOutcome::Bypassed);
    }
    if f.looks_like_hash {
        return Err(PasswordRejection::LooksLikeHash);
    }
    match check_complexity(&f.policy, &f.traits) {
        Some(complaint) => {
            return Err(complaint);
        },
        None => {},
    }
    if f.blacklisted {
        return Err(PasswordRejection::Blacklisted);
    }
    if f.history_count > 0 && f.in_history {
        return Err(PasswordRejection::UsedRecently(f.history_count));
    }
    if f.reuse_days > 0 && f.used_in_time {
        return Err(PasswordRejection::UsedWithinDays(f.reuse_days));
    }
    Ok(ValidationOutcome::Accepted)
}

/// What the checks find about a candidate password.
pub open spec fn findings(
    username: Seq<char>,
    password: Seq<char>,
    facts: PasswordFacts,
) -> Findings {
    Findings {
        bypassed: facts.bypassed,
        looks_like_hash: hash_like(password, text::lowercase_text(password)),
        policy: facts.policy,
        traits: traits_of(username, password),
        blacklisted: facts.blacklisted,
        history_count: facts.history_count,
        in_history: any_matches(password, facts.history@),
        reuse_days: facts.reuse_days,
        used_in_time: any_matches(password, facts.recent@),
    }
}

/// Holds a candidate password against every enabled check but a custom one, and changes nothing.
/// Digests are compared only where the earlier checks leave the matter open.
pub fn validate_password(username: &str, password: &str, facts: &PasswordFacts) -> (r: Result<
    ValidationOutcome,
    PasswordRejection,
>)
    ensures
        r == verdict(findings(username@, password@, *facts)),
{
    if facts.bypassed {
        return Ok(ValidationOutcome::Bypassed);
    }
    if is_hash_like(password) {
        return Err(PasswordRejection::LooksLikeHash);
    }
    let traits = password_traits(username, password);
    match check_complexity(&facts.policy, &traits) {
        Some(complaint) => {
            return Err(complaint);
        },
        None => {},
    }
    if facts.blacklisted {
        return Err(PasswordRejection::Blacklisted);
    }
    let in_history = facts.history_count > 0 && matches_any(password, &facts.history);
    let used_in_time = !in_history && facts.reuse_days > 0 && matches_any(
        password,
        &facts.recent,
    );
    judge(
        &Findings {
            bypassed: false,
            looks_like_hash: false,
            policy: facts.policy,
            traits,
            blacklisted: false,
            history_count: facts.history_count,
            in_history,
            reuse_days: facts.reuse_days,
            used_in_time,
        },
    )
}

/// What a custom check says is an objection: anything but nothing and `OK`.
pub open spec fn objects(message: Seq<char>) -> bool {
    message.len() > 0 && message != "OK"@
}

/// What is read for a validation, in the order in which it is.
#[derive(Clone, Copy, PartialEq, Eq, Debug, Structural)]
pub enum PasswordRead {
    /// Whether the role is exempt.
    Exemption,
    /// What the policy asks of the role.
    Policy,
    /// Whether the password is on the blacklist.
    Blacklist,
    /// The digests of the role's last passwords.
    History,
    /// The digests of the passwords it used lately.
    Recent,
    /// What a custom check says, where there is one.
    CustomCheck,
}

/// What a read gave.
#[derive(Debug)]
pub enum ReadReply {
    Exemption(bool),
    Policy(PasswordPolicy),
    Blacklist(bool),
    History(Vec<String>),
    Recent(Vec<String>),
    CustomCheck(Option<String>),
}

/// How a validation goes on after a read.
#[derive(Debug)]
pub enum ValidationStep {
    /// Nothing is decided yet: read this next.
    Read(PasswordRead),
    Passed(ValidationOutcome),
    Rejected(PasswordRejection),
    /// Something could not be read, in these words: the password is refused.
    Unreadable(String),
}

/// How many past passwords are compared and for how many days; 0 for none.
#[derive(Clone, Copy, PartialEq, Eq, Debug, Structural)]
pub struct HistoryLimits {
    pub history_count: i32,
    pub reuse_days: i32,
}

impl HistoryLimits {
    /// What is read once the blacklist has nothing against the password.
    pub open spec fn after_blacklist(self) -> PasswordRead {
        if self.history_count > 0 {
            PasswordRead::History
        } else {
            self.after_history()
        }
    }

    /// What is read once the history has nothing against it.
    pub open spec fn after_history(self) -> PasswordRead {
        if self.reuse_days > 0 {
            PasswordRead::Recent
        } else {
            PasswordRead::CustomCheck
        }
    }
}

/// How a validation goes on after `reply`. A read that failed ends it.
pub open spec fn step_after(
    username: Seq<char>,
    password: Seq<char>,
    limits: HistoryLimits,
    reply: Result<ReadReply, String>,
) -> ValidationStep {
    match reply {
        Err(message) => ValidationStep::Unreadable(message),
        Ok(ReadReply::Exemption(exempt)) => if exempt {
            ValidationStep::Passed(ValidationOutcome::Bypassed)
        } else if hash_like(password, text::lowercase_text(password)) {
            ValidationStep::Rejected(PasswordRejection::LooksLikeHash)
        } else {
            ValidationStep::Read(PasswordRead::Policy)
        },
        Ok(ReadReply::Policy(policy)) => match complexity_complaint(
            policy,
            traits_of(username, password),
        ) {
            Some(complaint) => ValidationStep::Rejected(complaint),
            None => ValidationStep::Read(PasswordRead::Blacklist),
        },
        Ok(ReadReply::Blacklist(listed)) => if listed {
            ValidationStep::Rejected(PasswordRejection::Blacklisted)
        } else {
            ValidationStep::Read(limits.after_blacklist())
        },
        Ok(ReadReply::History(digests)) => if any_matches(password, digests@) {
            ValidationStep::Rejected(PasswordRejection::UsedRecently(limits.history_count))
        } else {
            ValidationStep::Read(limits.after_history())
        },
        Ok(ReadReply::Recent(digests)) => if any_matches(password, digests@) {
            ValidationStep::Rejected(PasswordRejection::UsedWithinDays(limits.reuse_days))
        } else {
            ValidationStep::Read(PasswordRead::CustomCheck)
        },
        Ok(ReadReply::CustomCheck(Some(message))) => if objects(message@) {
            ValidationStep::Rejected(PasswordRejection::Custom(message))
        } else {
            ValidationStep::Passed(ValidationOutcome::Accepted)
        },
        Ok(ReadReply::CustomCheck(None)) => ValidationStep::Passed(ValidationOutcome::Accepted),
    }
}

/// Decides how a validation goes on after a read. It begins with [`PasswordRead::Exemption`], and
/// what a check needs is read only when those before it have nothing against the password.
pub fn next_check(
    username: &str,
    password: &str,
    limits: HistoryLimits,
    reply: Result<ReadReply, String>,
) -> (r: ValidationStep)
    ensures
        r == step_after(username@, password@, limits, reply),
{
    let after_history = if limits.reuse_days > 0 {
        PasswordRead::Recent
    } else {
        PasswordRead::CustomCheck
    };
    match reply {
        Err(message) => ValidationStep::Unreadable(message),
        Ok(ReadReply::Exemption(exempt)) => {
            if exempt {
                ValidationStep::Passed(ValidationOutcome::Bypassed)
            } else if is_hash_like(password) {
                ValidationStep::Rejected(PasswordRejection::LooksLikeHash)
            } else {
                ValidationStep::Read(PasswordRead::Policy)
            }
        },
        Ok(ReadReply::Policy(policy)) => {
            match check_complexity(&policy, &password_traits(username, password)) {
                Some(complaint) => ValidationStep::Rejected(complaint),
                None => ValidationStep::Read(PasswordRead::Blacklist),
            }
        },
        Ok(ReadReply::Blacklist(listed)) => {
            if listed {
                ValidationStep::Rejected(PasswordRejection::Blacklisted)
            } else if limits.history_count > 0 {
                ValidationStep::Read(PasswordRead::History)
            } else {
                ValidationStep::Read(after_history)
            }
        },
        Ok(ReadReply::History(digests)) => {
            if matches_any(password, &digests) {
                ValidationStep::Rejected(PasswordRejection::UsedRecently(limits.history_count))
            } else {
                ValidationStep::Read(after_history)
            }
        },
        Ok(ReadReply::Recent(digests)) => {
            if matches_any(password, &digests) {
                ValidationStep::Rejected(PasswordRejection::UsedWithinDays(limits.reuse_days))
            } else {
                ValidationStep::Read(PasswordRead::CustomCheck)
            }
        },
        Ok(ReadReply::CustomCheck(Some(message))) => {
            if message.as_str().unicode_len() > 0 && !same_text(message.as_str(), "OK") {
                ValidationStep::Rejected(PasswordRejection::Custom(message))
            } else {
                ValidationStep::Passed(ValidationOutcome::Accepted)
            }
        },
        Ok(ReadReply::CustomCheck(None)) => ValidationStep::Passed(ValidationOutcome::Accepted),
    }
}

/// What to tell somebody who only asks whether a password would be accepted.
pub fn check_password_reply(outcome: ValidationOutcome) -> (r: &'static str)
    ensures
        r@ == match outcome {
            ValidationOutcome::Bypassed => "Password accepted (bypassed)"@,
            ValidationOutcome::Accepted => "Password accepted"@,
        },
{
    match outcome {
        ValidationOutcome::Bypassed => "Password accepted (bypassed)",
        ValidationOutcome::Accepted => "Password accepted",
    }
}

/// What a password change is first held against.
#[derive(Clone, Copy, PartialEq, Eq, Debug, Structural)]
pub enum ChangeGate {
    /// Refuse it: it looks like a precomputed hash.
    RefuseHash,
    /// Validate it, and record it when it is accepted.
    Validate,
    /// There is no plain text to validate or to record.
    PassOver,
}

/// What a change to `password`, whose lowercase form is `lower`, is first held against.
pub open spec fn change_gate(password: Seq<char>, lower: Seq<char>, plaintext: bool) -> ChangeGate {
    if hash_like(password, lower) {
        ChangeGate::RefuseHash
    } else if plaintext && password.len() > 0 {
        ChangeGate::Validate
    } else {
        ChangeGate::PassOver
    }
}

/// Decides what to do with a password change before anything else: an absent password and one
/// that PostgreSQL holds as already hashed are neither validated nor recorded.
pub fn password_change_gate(password: &str, plaintext: bool) -> (r: ChangeGate)
    ensures
        r == change_gate(password@, text::lowercase_text(password@), plaintext),
{
    if password.unicode_len() > 0 && is_hash_like(password) {
        return ChangeGate::RefuseHash;
    }
    if plaintext && password.unicode_len() > 0 {
        return ChangeGate::Validate;
    }
    ChangeGate::PassOver
}

/// Whether a change is to be recorded: only one that was validated and accepted.
pub fn is_recorded(outcome: Option<ValidationOutcome>) -> (r: bool)
    ensures
        r == (outcome == Some(ValidationOutcome::Accepted)),
{
    match outcome {
        Some(ValidationOutcome::Accepted) => true,
        _ => false,
    }
}

/// The database that holds the authoritative tables.
pub const CONTROL_DATABASE_NAME: &'static str = "postgres";

/// Whether a password may be changed from here: only while connected to the control database.
/// `name` is the current database's, when it could be found out.
pub fn require_control_database(connected: bool, name: Option<&str>) -> (r: Result<
    (),
    &'static str,
>)
    ensures
        match r {
            Ok(()) => connected && (name matches Some(n) && n@ == CONTROL_DATABASE_NAME@),
            Err(e) => if !connected {
                e@
                    == "password_profile: password changes require a database connection; connect to the \"postgres\" database and retry"@
            } else if name is None {
                e@
                    == "password_profile: could not determine the current database; password changes must be performed while connected to \"postgres\""@
            } else {
                &&& name->0@ != CONTROL_DATABASE_NAME@
                &&& e@
                    == "password_profile: password changes must be performed while connected to the \"postgres\" database"@
            },
        },
{
    if !connected {
        return Err(
            "password_profile: password changes require a database connection; connect to the \"postgres\" database and retry",
        );
    }
    match name {
        None => Err(
            "password_profile: could not determine the current database; password changes must be performed while connected to \"postgres\"",
        ),
        Some(n) => {
            if same_text(n, CONTROL_DATABASE_NAME) {
                Ok(())
            } else {
                Err(
                    "password_profile: password changes must be performed while connected to the \"postgres\" database",
                )
            }
        },
    }
}

/// An exempt role is never held against any rule, and nothing but exemption or passing every check
/// lets a password through.
pub proof fn acceptance_means_every_check(f: Findings)
    ensures
        f.bypassed <==> verdict(f) == Ok::<ValidationOutcome, PasswordRejection>(
            ValidationOutcome::Bypassed,
        ),
        verdict(f) == Ok::<ValidationOutcome, PasswordRejection>(ValidationOutcome::Accepted) <==> {
            &&& !f.bypassed
            &&& !f.looks_like_hash
            &&& complexity_complaint(f.policy, f.traits) is None
            &&& !f.blacklisted
            &&& f.history_count > 0 ==> !f.in_history
            &&& f.reuse_days > 0 ==> !f.used_in_time
        },
{
}

/// Length is counted in characters, whatever they take in bytes: a password that does not look like
/// a hash and has fewer characters than the minimum is refused as too short, and one that has
/// enough of them never is.
pub proof fn length_is_counted_in_characters(
    username: Seq<char>,
    password: Seq<char>,
    facts: PasswordFacts,
)
    requires
        password.len() <= usize::MAX,
        facts.policy.min_length >= 0,
    ensures
        ({
            let v = verdict(findings(username, password, facts));
            let too_short = Err::<ValidationOutcome, PasswordRejection>(
                PasswordRejection::TooShort,
            );
            v == too_short <==> {
                &&& !facts.bypassed
                &&& !hash_like(password, text::lowercase_text(password))
                &&& password.len() < facts.policy.min_length
            }
        }),
{
}

/// What every read of a validation gives, or that it fails, in these words.
pub struct Readings {
    pub exemption: Result<bool, String>,
    pub policy: Result<PasswordPolicy, String>,
    pub blacklist: Result<bool, String>,
    pub history: Result<Vec<String>, String>,
    pub recent: Result<Vec<String>, String>,
    pub custom: Result<Option<String>, String>,
}

impl Readings {
    /// What reading `what` gives.
    pub open spec fn reply(self, what: PasswordRead) -> Result<ReadReply, String> {
        match what {
            PasswordRead::Exemption => match self.exemption {
                Ok(exempt) => Ok(ReadReply::Exemption(exempt)),
                Err(e) => Err(e),
            },
            PasswordRead::Policy => match self.policy {
                Ok(policy) => Ok(ReadReply::Policy(policy)),
                Err(e) => Err(e),
            },
            PasswordRead::Blacklist => match self.blacklist {
                Ok(listed) => Ok(ReadReply::Blacklist(listed)),
                Err(e) => Err(e),
            },
            PasswordRead::History => match self.history {
                Ok(digests) => Ok(ReadReply::History(digests)),
                Err(e) => Err(e),
            },
            PasswordRead::Recent => match self.recent {
                Ok(digests) => Ok(ReadReply::Recent(digests)),
                Err(e) => Err(e),
            },
            PasswordRead::CustomCheck => match self.custom {
                Ok(message) => Ok(ReadReply::CustomCheck(message)),
                Err(e) => Err(e),
            },
        }
    }

    /// The facts that complete readings stand for.
    pub open spec fn facts(self, limits: HistoryLimits) -> PasswordFacts {
        PasswordFacts {
            bypassed: self.exemption->Ok_0,
            policy: self.policy->Ok_0,
            blacklisted: self.blacklist->Ok_0,
            history_count: limits.history_count,
            history: self.history->Ok_0,
            reuse_days: limits.reuse_days,
            recent: self.recent->Ok_0,
        }
    }
}

/// How many reads may still come from `what` on.
pub open spec fn reads_left(what: PasswordRead) -> nat {
    match what {
        PasswordRead::Exemption => 6,
        PasswordRead::Policy => 5,
        PasswordRead::Blacklist => 4,
        PasswordRead::History => 3,
        PasswordRead::Recent => 2,
        PasswordRead::CustomCheck => 1,
    }
}

/// How a validation ends that reads `what` next and goes on as [`next_check`] says.
pub open spec fn conclusion(
    username: Seq<char>,
    password: Seq<char>,
    limits: HistoryLimits,
    readings: Readings,
    what: PasswordRead,
) -> ValidationStep
    decreases reads_left(what),
{
    match step_after(username, password, limits, readings.reply(what)) {
        ValidationStep::Read(next) => if reads_left(next) < reads_left(what) {
            conclusion(username, password, limits, readings, next)
        } else {
            ValidationStep::Read(next)
        },
        decided => decided,
    }
}

/// Asked one after the other, the checks come to a decision, and where every read succeeds it is the
/// verdict on the whole, with the custom check asked last about a password that nothing else is
/// against.
pub proof fn checks_in_turn_agree(
    username: Seq<char>,
    password: Seq<char>,
    limits: HistoryLimits,
    readings: Readings,
)
    ensures
        ({
            let end = conclusion(username, password, limits, readings, PasswordRead::Exemption);
            let complete = readings.exemption is Ok && readings.policy is Ok
                && readings.blacklist is Ok && readings.history is Ok && readings.recent is Ok
                && readings.custom is Ok;
            &&& !(end is Read)
            &&& complete ==> end == match verdict(
                findings(username, password, readings.facts(limits)),
            ) {
                Err(rejection) => ValidationStep::Rejected(rejection),
                Ok(ValidationOutcome::Bypassed) => ValidationStep::Passed(
                    ValidationOutcome::Bypassed,
                ),
                Ok(ValidationOutcome::Accepted) => match readings.custom->Ok_0 {
                    Some(message) => if objects(message@) {
                        ValidationStep::Rejected(PasswordRejection::Custom(message))
                    } else {
                        ValidationStep::Passed(ValidationOutcome::Accepted)
                    },
                    None => ValidationStep::Passed(ValidationOutcome::Accepted),
                },
            }
        }),
{
    reveal_with_fuel(conclusion, 7);
}

/// Nothing is accepted over a read that failed: an accepted password means that everything it had
/// to be held against was read.
pub proof fn acceptance_needs_every_read(
    username: Seq<char>,
    password: Seq<char>,
    limits: HistoryLimits,
    readings: Readings,
)
    requires
        conclusion(username, password, limits, readings, PasswordRead::Exemption)
            == ValidationStep::Passed(ValidationOutcome::Accepted),
    ensures
        readings.exemption is Ok,
        readings.policy is Ok,
        readings.blacklist is Ok,
        limits.history_count > 0 ==> readings.history is Ok,
        limits.reuse_days > 0 ==> readings.recent is Ok,
        readings.custom is Ok,
{
    reveal_with_fuel(conclusion, 7);
}

/// A blacklist or a history that cannot be read refuses the password that gets so far, in the words
/// of the failure.
pub proof fn unreadable_table_refuses(
    username: Seq<char>,
    password: Seq<char>,
    limits: HistoryLimits,
    readings: Readings,
)
    requires
        readings.exemption == Ok::<bool, String>(false),
        !hash_like(password, text::lowercase_text(password)),
        readings.policy is Ok,
        complexity_complaint(readings.policy->Ok_0, traits_of(username, password)) is None,
    ensures
        ({
            let end = conclusion(username, password, limits, readings, PasswordRead::Exemption);
            &&& readings.blacklist matches Err(e) ==> end == ValidationStep::Unreadable(e)
            &&& readings.blacklist == Ok::<bool, String>(false) && limits.history_count > 0 ==> (
            readings.history matches Err(e) ==> end == ValidationStep::Unreadable(e))
            &&& readings.blacklist == Ok::<bool, String>(false) && (limits.history_count > 0 ==> (
            readings.history matches Ok(digests) && !any_matches(password, digests@)))
                && limits.reuse_days > 0 ==> (readings.recent matches Err(e) ==> end
                == ValidationStep::Unreadable(e))
        }),
{
    reveal_with_fuel(conclusion, 7);
}

} // verus!
