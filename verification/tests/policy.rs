//! The password policy.

use password_profile::policy::{
    check_complexity, check_password_reply, is_hash_like, is_hash_like_given, is_recorded, judge,
    matches_any, next_check, password_change_gate, password_traits, require_control_database,
    stored_hash_matches, stored_hash_matches_given, validate_password, ChangeGate, Findings,
    HistoryLimits, PasswordFacts, PasswordPolicy, PasswordRead, PasswordRejection, PasswordTraits,
    ReadReply, ValidationOutcome, ValidationStep,
};

const MD5_OF_PASSWORD: &str = "5f4dcc3b5aa765d61d8327deb882cf99";
const BCRYPT_OF_A: &str = "$2a$06$m0CrhHm10qJ3lXRY.5zDGO3rS2KdeeWLuGmsfGlMfOxih58VYVfxe";

fn policy(min_length: i32) -> PasswordPolicy {
    PasswordPolicy {
        min_length,
        require_uppercase: false,
        require_lowercase: false,
        require_digit: false,
        require_special: false,
        prevent_username: false,
    }
}

fn facts(policy: PasswordPolicy) -> PasswordFacts {
    PasswordFacts {
        bypassed: false,
        policy,
        blacklisted: false,
        history_count: 0,
        history: Vec::new(),
        reuse_days: 0,
        recent: Vec::new(),
    }
}

fn rejection(r: Result<ValidationOutcome, PasswordRejection>) -> String {
    match r {
        Ok(_) => panic!("expected a rejection"),
        Err(e) => e.message(),
    }
}

#[test]
fn test_password_validation_weak() {
    let result = validate_password("test_weak", "weak", &facts(policy(8)));
    assert!(result.is_err());
    assert_eq!(rejection(result), "Password too short");
}

#[test]
fn test_detect_hash_password() {
    let hash_attempts = vec![
        "md5c4ca4238a0b923820dcc509a6f75849b",
        "SCRAM-SHA-256$",
        "$2a$10$abcdefghijklmnopqrstuv",
    ];

    for attempt in hash_attempts {
        assert!(is_hash_like(attempt));
    }
    assert!(!is_hash_like("MyPassword123!"));
}

#[test]
fn every_hash_family_is_recognized() {
    for text in [
        "MD5C4CA4238A0B923820DCC509A6F75849B",
        "$2b$10$abcdefghijklm",
        "$2Y$10$abcdefghijklm",
        "$2x$10$abcdefghijklm",
        "$argon2i$",
        "$argon2id$v=19",
        "$argon2d$",
        "$pbkdf2-sha256",
        "pbkdf2:sha256",
        "sha1$x",
        "sha256$x",
        "da39a3ee5e6b4b0d3255bfef95601890afd80709",
        "$1$12345678901234567890",
        "$5$1234567890123456789",
        "$6$1234567890123456789",
        "$x$aaaaaaaaaaaaaaaaaaaaaaaaaaaaaaaaaaaaaaaaaaaaaa$a",
    ] {
        assert!(is_hash_like(text), "{}", text);
    }
    assert!(is_hash_like(&"ab".repeat(32)));
    assert!(is_hash_like(&"AB".repeat(64)));
    for text in [
        "",
        "md5c4ca4238a0b923820dcc509a6f75849",
        "md5g4ca4238a0b923820dcc509a6f75849b",
        "$2a$10$abc",
        "$1$short",
        "da39a3ee5e6b4b0d3255bfef95601890afd8070g",
        "$aaaaaaaaaaaaaaaaaaaaaaaaaaaaaaaaaaaaaaaaaaaaaaaaaaaa$",
    ] {
        assert!(!is_hash_like(text), "{}", text);
    }
    // Only the lowercase form given decides about the families.
    assert!(is_hash_like_given("X", "sha1$"));
    assert!(!is_hash_like_given("sha1$", "x"));
}

#[test]
fn complexity_rules_complain_in_order() {
    let strict = PasswordPolicy {
        min_length: 4,
        require_uppercase: true,
        require_lowercase: true,
        require_digit: true,
        require_special: true,
        prevent_username: true,
    };
    let f = facts(strict);
    let cases = [
        ("abc", "Password too short"),
        ("abcd", "Password must contain at least one uppercase letter"),
        ("ABCD", "Password must contain at least one lowercase letter"),
        ("ABcd", "Password must contain at least one digit"),
        ("ABcd1", "Password must contain at least one special character"),
        ("1!aLiCe", "Password cannot contain username"),
    ];
    for (password, words) in cases {
        assert_eq!(rejection(validate_password("Alice", password, &f)), words);
    }
    assert!(matches!(
        validate_password("Alice", "ABcd1!", &f),
        Ok(ValidationOutcome::Accepted)
    ));
    // Letters beyond ASCII have a case too, and count as one character each.
    assert!(validate_password("", "É!1é", &f).is_ok());
    assert_eq!(
        rejection(validate_password("", "É1é", &f)),
        "Password too short"
    );
    assert!(check_complexity(
        &policy(-1),
        &password_traits("", "anything at all")
    )
    .is_some());
}

const LIMITS: HistoryLimits = HistoryLimits { history_count: 3, reuse_days: 30 };

fn step(password: &str, limits: HistoryLimits, reply: ReadReply) -> ValidationStep {
    next_check("bob", password, limits, Ok(reply))
}

fn reads(step: ValidationStep) -> PasswordRead {
    match step {
        ValidationStep::Read(what) => what,
        other => panic!("{:?}", other),
    }
}

fn refuses(step: ValidationStep) -> String {
    match step {
        ValidationStep::Rejected(rejection) => rejection.message(),
        other => panic!("{:?}", other),
    }
}

#[test]
fn checks_are_asked_one_after_the_other() {
    let none = HistoryLimits { history_count: 0, reuse_days: 0 };
    assert!(matches!(
        step("sha1$x", LIMITS, ReadReply::Exemption(true)),
        ValidationStep::Passed(ValidationOutcome::Bypassed)
    ));
    assert!(refuses(step("sha1$x", LIMITS, ReadReply::Exemption(false))).contains("hash"));
    assert_eq!(
        reads(step("password", LIMITS, ReadReply::Exemption(false))),
        PasswordRead::Policy
    );
    assert_eq!(
        refuses(step("password", LIMITS, ReadReply::Policy(policy(9)))),
        "Password too short"
    );
    assert_eq!(
        reads(step("password", LIMITS, ReadReply::Policy(policy(8)))),
        PasswordRead::Blacklist
    );
    assert_eq!(
        refuses(step("password", LIMITS, ReadReply::Blacklist(true))),
        "Password is in blacklist (too common)"
    );
    assert_eq!(
        reads(step("password", LIMITS, ReadReply::Blacklist(false))),
        PasswordRead::History
    );
    let days = HistoryLimits { history_count: 0, reuse_days: 30 };
    assert_eq!(
        reads(step("password", days, ReadReply::Blacklist(false))),
        PasswordRead::Recent
    );
    assert_eq!(
        reads(step("password", none, ReadReply::Blacklist(false))),
        PasswordRead::CustomCheck
    );
    let known = || vec![MD5_OF_PASSWORD.to_string()];
    assert_eq!(
        refuses(step("password", LIMITS, ReadReply::History(known()))),
        "Password was used recently. Cannot reuse last 3 passwords."
    );
    assert_eq!(
        reads(step("another", LIMITS, ReadReply::History(known()))),
        PasswordRead::Recent
    );
    assert_eq!(
        refuses(step("password", LIMITS, ReadReply::Recent(known()))),
        "Password was used within last 30 days"
    );
    assert_eq!(
        reads(step("another", LIMITS, ReadReply::Recent(Vec::new()))),
        PasswordRead::CustomCheck
    );
}

#[test]
fn what_cannot_be_read_refuses() {
    let r = next_check("bob", "password", LIMITS, Err("relation is gone".to_string()));
    match r {
        ValidationStep::Unreadable(message) => assert_eq!(message, "relation is gone"),
        other => panic!("{:?}", other),
    }
}

#[test]
fn length_is_counted_in_characters() {
    // Four letters of two bytes each.
    assert_eq!(
        rejection(validate_password("bob", "\u{e9}\u{e9}\u{e9}\u{e9}", &facts(policy(8)))),
        "Password too short"
    );
    assert!(validate_password("bob", &"\u{e9}".repeat(8), &facts(policy(8))).is_ok());
    assert!(validate_password("bob", &"\u{e9}".repeat(7), &facts(policy(8))).is_err());
}

#[test]
fn traits_are_read_off_the_characters() {
    assert_eq!(
        password_traits("ÉVA", "xxéva7"),
        PasswordTraits {
            length: 6,
            has_uppercase: false,
            has_lowercase: true,
            has_digit: true,
            has_special: false,
            contains_username: true,
        }
    );
    let t = password_traits("", "A_");
    assert!(t.has_uppercase && t.has_special && !t.has_lowercase && !t.contains_username);
    // An Arabic-Indic digit is alphanumeric, but no digit the policy means.
    let t = password_traits("", "\u{663}");
    assert!(!t.has_digit && !t.has_special);
}

#[test]
fn blacklist_and_history_refuse() {
    let mut f = facts(policy(1));
    f.blacklisted = true;
    assert_eq!(
        rejection(validate_password("u", "password", &f)),
        "Password is in blacklist (too common)"
    );
    f.blacklisted = false;
    f.history_count = 5;
    f.history = vec![BCRYPT_OF_A.to_string(), MD5_OF_PASSWORD.to_string()];
    assert_eq!(
        rejection(validate_password("u", "password", &f)),
        "Password was used recently. Cannot reuse last 5 passwords."
    );
    assert_eq!(
        rejection(validate_password("u", "a", &f)),
        "Password was used recently. Cannot reuse last 5 passwords."
    );
    assert!(validate_password("u", "other", &f).is_ok());
    f.history_count = 0;
    assert!(validate_password("u", "password", &f).is_ok());
    f.reuse_days = 30;
    f.recent = vec![MD5_OF_PASSWORD.to_string()];
    assert_eq!(
        rejection(validate_password("u", "password", &f)),
        "Password was used within last 30 days"
    );
    f.bypassed = true;
    assert!(matches!(
        validate_password("u", "password", &f),
        Ok(ValidationOutcome::Bypassed)
    ));
}

#[test]
fn hash_shaped_password_is_refused_before_anything_else() {
    let mut f = facts(policy(1000));
    assert_eq!(
        rejection(validate_password("u", "sha1$x", &f)),
        "Security violation: Password looks like a precomputed hash. Plain text passwords cannot \
         be in hash format (bcrypt, MD5, SCRAM, etc.)"
    );
    f.bypassed = true;
    assert!(validate_password("u", "sha1$x", &f).is_ok());
}

#[test]
fn stored_digests_are_compared_by_bcrypt_and_md5() {
    assert!(stored_hash_matches("a", BCRYPT_OF_A));
    assert!(!stored_hash_matches("b", BCRYPT_OF_A));
    assert!(stored_hash_matches("password", MD5_OF_PASSWORD));
    assert!(!stored_hash_matches("Password", MD5_OF_PASSWORD));
    assert!(!stored_hash_matches("password", "not a digest"));
    assert!(matches_any(
        "a",
        &vec![MD5_OF_PASSWORD.to_string(), BCRYPT_OF_A.to_string()]
    ));
    assert!(!matches_any("a", &Vec::new()));
    assert!(stored_hash_matches_given(Some(true), "anything", "x"));
    assert!(!stored_hash_matches_given(None, "short", "short"));
    assert!(stored_hash_matches_given(
        Some(false),
        MD5_OF_PASSWORD,
        MD5_OF_PASSWORD
    ));
}

#[test]
fn findings_are_judged_by_the_first_complaint() {
    let mut f = Findings {
        bypassed: false,
        looks_like_hash: false,
        policy: policy(0),
        traits: password_traits("", "x"),
        blacklisted: true,
        history_count: 2,
        in_history: true,
        reuse_days: 3,
        used_in_time: true,
    };
    assert!(matches!(judge(&f), Err(PasswordRejection::Blacklisted)));
    f.blacklisted = false;
    assert!(matches!(judge(&f), Err(PasswordRejection::UsedRecently(2))));
    f.history_count = 0;
    assert!(matches!(
        judge(&f),
        Err(PasswordRejection::UsedWithinDays(3))
    ));
    f.reuse_days = 0;
    assert!(matches!(judge(&f), Ok(ValidationOutcome::Accepted)));
}

#[test]
fn custom_check_may_object() {
    let accepted = ValidationOutcome::Accepted;
    for said in [None, Some(String::new()), Some("OK".to_string())] {
        assert!(matches!(
            step("password", LIMITS, ReadReply::CustomCheck(said)),
            ValidationStep::Passed(ValidationOutcome::Accepted)
        ));
    }
    assert_eq!(
        refuses(step(
            "password",
            LIMITS,
            ReadReply::CustomCheck(Some("too silly".to_string()))
        )),
        "too silly"
    );
    assert_eq!(check_password_reply(accepted), "Password accepted");
    assert_eq!(
        check_password_reply(ValidationOutcome::Bypassed),
        "Password accepted (bypassed)"
    );
}

#[test]
fn only_plain_text_is_validated_and_recorded() {
    assert_eq!(password_change_gate("sha1$x", true), ChangeGate::RefuseHash);
    assert_eq!(password_change_gate("sha1$x", false), ChangeGate::RefuseHash);
    assert_eq!(password_change_gate("secret", true), ChangeGate::Validate);
    assert_eq!(password_change_gate("secret", false), ChangeGate::PassOver);
    assert_eq!(password_change_gate("", true), ChangeGate::PassOver);
    assert!(is_recorded(Some(ValidationOutcome::Accepted)));
    assert!(!is_recorded(Some(ValidationOutcome::Bypassed)));
    assert!(!is_recorded(None));
}

#[test]
fn passwords_change_in_the_control_database_only() {
    assert_eq!(require_control_database(true, Some("postgres")), Ok(()));
    assert_eq!(
        require_control_database(false, Some("postgres")),
        Err("password_profile: password changes require a database connection; connect to the \
             \"postgres\" database and retry")
    );
    assert_eq!(
        require_control_database(true, None),
        Err("password_profile: could not determine the current database; password changes must \
             be performed while connected to \"postgres\"")
    );
    assert_eq!(
        require_control_database(true, Some("shop")),
        Err("password_profile: password changes must be performed while connected to the \
             \"postgres\" database")
    );
}
