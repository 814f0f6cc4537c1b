//! Decisions at login.

use password_profile::auth_event::{QueueState, QueueWarning};
use password_profile::bypass_cache::BypassDecision;
use password_profile::expiry_cache::{
    ExpiryCacheState, ExpiryDecision, GraceOutcome, GraceResult,
};
use password_profile::lock_cache::CacheState;
use password_profile::login::{
    enforcement_pause_reason, expiry_login_enforcement_active, is_examined, FailureResponse,
    HealthFacts, Login, LoginAction, LoginReply, LoginSettings,
};
use password_profile::worker_health::PausedReason;

const SOUND: HealthFacts = HealthFacts {
    worker_running: true,
    queue: QueueState::Healthy,
    durable_degraded: false,
};

const BOTH: LoginSettings = LoginSettings {
    in_recovery: false,
    lockout_enforced: true,
    expiry_enforced: true,
};

fn begin(authenticated: bool, health: HealthFacts) -> Login {
    Login::begin(
        BOTH,
        true,
        BypassDecision::NotBypassed,
        authenticated,
        health,
        CacheState::Ready,
        ExpiryCacheState::Ready,
    )
    .unwrap()
}

#[test]
fn nothing_is_examined_on_a_standby_or_while_both_switches_are_off() {
    assert!(is_examined(BOTH));
    assert!(!is_examined(LoginSettings { in_recovery: true, ..BOTH }));
    let off = LoginSettings {
        in_recovery: false,
        lockout_enforced: false,
        expiry_enforced: false,
    };
    assert!(!is_examined(off));
    assert!(is_examined(LoginSettings { expiry_enforced: true, ..off }));
    assert!(expiry_login_enforcement_active(true, 90));
    assert!(!expiry_login_enforcement_active(true, 0));
    assert!(!expiry_login_enforcement_active(false, 90));
}

#[test]
fn exempt_and_unknown_roles_are_left_alone() {
    let state = ExpiryCacheState::Ready;
    let ready = CacheState::Ready;
    assert!(Login::begin(BOTH, true, BypassDecision::Bypassed, true, SOUND, ready, state).is_none());
    assert!(
        Login::begin(BOTH, false, BypassDecision::NotBypassed, true, SOUND, ready, state).is_none()
    );
    // A bypass cache that cannot answer exempts nobody.
    assert!(
        Login::begin(BOTH, true, BypassDecision::Unavailable, true, SOUND, ready, state).is_some()
    );
}

#[test]
fn pause_reasons_have_an_order() {
    let mut h = HealthFacts {
        worker_running: false,
        queue: QueueState::Corrupt,
        durable_degraded: true,
    };
    assert_eq!(
        enforcement_pause_reason(h),
        Some(PausedReason::WorkerNotRunning)
    );
    h.worker_running = true;
    assert_eq!(enforcement_pause_reason(h), Some(PausedReason::QueueCorrupt));
    h.queue = QueueState::Overflowed;
    assert_eq!(
        enforcement_pause_reason(h),
        Some(PausedReason::DurableRecording)
    );
    assert_eq!(enforcement_pause_reason(SOUND), None);
}

#[test]
fn wrong_passwords_of_existing_roles_count() {
    let l = begin(false, SOUND);
    assert_eq!(l.failure_response(true, 1), FailureResponse::Record);
    assert_eq!(l.failure_response(true, 0), FailureResponse::Ignore);
    assert_eq!(l.failure_response(true, -1), FailureResponse::WarnUnverified);
    assert_eq!(l.failure_response(false, 1), FailureResponse::Ignore);
    assert_eq!(
        begin(true, SOUND).failure_response(true, 1),
        FailureResponse::Ignore
    );
}

#[test]
fn an_accepted_credential_goes_through_every_step_in_order() {
    let mut l = begin(true, SOUND);
    assert_eq!(l.advance(LoginReply::Begun), LoginAction::CheckLockout);
    let free = LoginReply::Lockout { cached: None, in_database: None };
    assert_eq!(l.advance(free), LoginAction::Recheck);
    assert_eq!(l.advance(LoginReply::State(SOUND)), LoginAction::LookUpExpiry);
    let mut valid = l;
    assert_eq!(
        valid.advance(LoginReply::Expiry(ExpiryDecision::NotExpired)),
        LoginAction::RecordSuccess
    );
    assert_eq!(
        valid.advance(LoginReply::SuccessRecorded(true)),
        LoginAction::Finish
    );
    assert_eq!(
        l.advance(LoginReply::Expiry(ExpiryDecision::ExpiredWithGrace)),
        LoginAction::UseGrace
    );
    let mut refused = l;
    let none_left = GraceResult { outcome: GraceOutcome::NoGrace, queue_warn: false };
    assert_eq!(refused.advance(LoginReply::Grace(none_left)), LoginAction::Finish);
    assert!(refused.exit(SOUND).refuse_expired);
    let consumed = GraceResult { outcome: GraceOutcome::Consumed, queue_warn: false };
    assert_eq!(l.advance(LoginReply::Grace(consumed)), LoginAction::Finish);
    assert!(!l.exit(SOUND).refuse_expired);
}

#[test]
fn a_login_is_cut_short_where_it_must_be() {
    let mut locked = begin(true, SOUND);
    let seconds = LoginReply::Lockout { cached: Some(9), in_database: None };
    assert_eq!(locked.advance(seconds), LoginAction::RefuseLocked(9));

    let trouble = HealthFacts { durable_degraded: true, ..SOUND };
    let mut l = begin(true, SOUND);
    assert_eq!(l.advance(LoginReply::State(trouble)), LoginAction::Finish);
    assert!(!l.exit(trouble).refuse_expired);
    let mut paused = begin(true, trouble);
    assert_eq!(paused.advance(LoginReply::Begun), LoginAction::Recheck);

    let mut wrong = begin(false, SOUND);
    assert_eq!(wrong.advance(LoginReply::Begun), LoginAction::JudgeFailure);
    let failure = |invalid_password, user_exists| LoginReply::Failure {
        invalid_password,
        user_exists,
    };
    assert_eq!(wrong.advance(failure(true, 1)), LoginAction::RecordFailure);
    assert_eq!(wrong.advance(failure(true, -1)), LoginAction::WarnUnverified);
    assert_eq!(wrong.advance(failure(false, 1)), LoginAction::Finish);
    assert_eq!(wrong.advance(LoginReply::Warned), LoginAction::Finish);
    assert_eq!(
        wrong.advance(LoginReply::FailureRecorded(false)),
        LoginAction::Finish
    );
    assert!(wrong.exit(SOUND).paused.is_some());
    assert_eq!(
        begin(false, trouble).advance(LoginReply::Begun),
        LoginAction::Finish
    );
}

#[test]
fn lockout_is_revealed_only_to_a_right_password() {
    let right = begin(true, SOUND);
    assert_eq!(right.lockout_refusal(Some(90), None), Some(90));
    assert_eq!(right.lockout_refusal(None, Some(30)), Some(30));
    assert_eq!(right.lockout_refusal(Some(5), Some(30)), Some(5));
    assert_eq!(right.lockout_refusal(None, None), None);
    assert_eq!(right.lockout_refusal(Some(0), Some(9)), None);
    assert_eq!(right.lockout_refusal(Some(i64::MAX), None), Some(i32::MAX));
    assert_eq!(begin(false, SOUND).lockout_refusal(Some(90), None), None);
}

#[test]
fn trouble_pauses_and_refuses_nobody() {
    let health = HealthFacts { worker_running: false, ..SOUND };
    let mut l = begin(true, health);
    assert_eq!(l.lockout_refusal(Some(90), None), None);
    l.recheck(health);
    assert!(!l.wants_expiry());
    assert!(!l.on_expiry(ExpiryDecision::ExpiredNoGrace));
    assert!(!l.wants_success_event());
    let exit = l.exit(health);
    assert!(!exit.refuse_expired);
    assert_eq!(exit.paused, Some(PausedReason::WorkerNotRunning));
    assert_eq!(exit.queue_warning, None);
}

#[test]
fn admitted_login_records_a_success() {
    let mut l = begin(true, SOUND);
    l.recheck(SOUND);
    assert!(l.wants_expiry());
    assert!(!l.on_expiry(ExpiryDecision::NotExpired));
    assert!(l.wants_success_event());
    assert!(l.event_flags().clear_login_attempts());
    l.on_recorded(true);
    let exit = l.exit(SOUND);
    assert_eq!(exit.paused, None);
    assert!(!exit.refuse_expired);
}

#[test]
fn expired_password_is_refused_and_records_no_success() {
    let mut l = begin(true, SOUND);
    l.recheck(SOUND);
    assert!(!l.on_expiry(ExpiryDecision::ExpiredNoGrace));
    assert!(!l.wants_success_event());
    assert!(l.exit(SOUND).refuse_expired);
}

#[test]
fn grace_login_stands_for_the_success_event() {
    let mut l = begin(true, SOUND);
    l.recheck(SOUND);
    assert!(l.on_expiry(ExpiryDecision::ExpiredWithGrace));
    l.on_grace(GraceResult {
        outcome: GraceOutcome::Consumed,
        queue_warn: true,
    });
    assert!(!l.wants_success_event());
    let exit = l.exit(SOUND);
    assert!(!exit.refuse_expired);
    assert_eq!(exit.queue_warning, Some(QueueWarning::QueueFull));
}

#[test]
fn used_up_grace_is_a_refusal_and_unrecorded_grace_a_pause() {
    let mut raced = begin(true, SOUND);
    raced.recheck(SOUND);
    assert!(raced.on_expiry(ExpiryDecision::ExpiredWithGrace));
    raced.on_grace(GraceResult {
        outcome: GraceOutcome::NoGrace,
        queue_warn: false,
    });
    assert!(raced.exit(SOUND).refuse_expired);

    let mut lost = begin(true, SOUND);
    lost.recheck(SOUND);
    assert!(lost.on_expiry(ExpiryDecision::ExpiredWithGrace));
    lost.on_grace(GraceResult {
        outcome: GraceOutcome::Unavailable,
        queue_warn: true,
    });
    assert!(!lost.wants_success_event());
    let exit = lost.exit(SOUND);
    assert!(!exit.refuse_expired);
    assert_eq!(exit.queue_warning, Some(QueueWarning::JournalFailure));
    assert_eq!(exit.paused, Some(PausedReason::DurableRecording));
}

#[test]
fn trouble_that_comes_up_meanwhile_is_named() {
    let mut l = begin(true, SOUND);
    let corrupt = HealthFacts { queue: QueueState::Corrupt, ..SOUND };
    l.recheck(corrupt);
    assert!(!l.wants_success_event());
    assert_eq!(l.exit(corrupt).paused, Some(PausedReason::QueueCorrupt));
    let mut failed = begin(false, SOUND);
    failed.on_recorded(false);
    assert_eq!(
        failed.exit(SOUND).paused,
        Some(PausedReason::DurableRecording)
    );
}

#[test]
fn unready_cache_switches_its_feature_off() {
    let l = Login::begin(
        BOTH,
        true,
        BypassDecision::NotBypassed,
        true,
        SOUND,
        CacheState::Overflow,
        ExpiryCacheState::NotReady,
    )
    .unwrap();
    assert_eq!(l.lockout_refusal(Some(90), None), None);
    assert!(!l.wants_expiry());
    assert!(!l.wants_success_event());
    assert!(!l.event_flags().clear_login_attempts());
}
