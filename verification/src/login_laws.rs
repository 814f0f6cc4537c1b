//! Laws of a whole login: which logins are refused, what is recorded for them and what they cost,
//! from the switches, the extension's state and what the caches report.

use crate::auth_event::{EventFlags, QueueState, QueueWarning};
use crate::bypass_cache::BypassDecision;
use crate::expiry_cache::{ExpiryCacheState, ExpiryDecision, GraceResult};
use crate::lock_cache::CacheState;
use crate::login;
use crate::login::{
    FailureResponse, HealthFacts, Login, LoginAction, LoginExit, LoginReply, LoginSettings,
};
use crate::worker_health::PausedReason;
use vstd::prelude::*;

verus! {

/// Everything a login can meet: what each of its actions would come to.
pub struct World {
    pub invalid_password: bool,
    pub user_exists: i32,
    pub failure_durable: bool,
    pub cached: Option<i64>,
    pub in_database: Option<i64>,
    pub state: HealthFacts,
    pub expiry: ExpiryDecision,
    pub grace: GraceResult,
    pub success_durable: bool,
}

impl World {
    /// What comes of `action`.
    pub open spec fn reply(self, action: LoginAction) -> LoginReply {
        match action {
            LoginAction::JudgeFailure => LoginReply::Failure {
                invalid_password: self.invalid_password,
                user_exists: self.user_exists,
            },
            LoginAction::RecordFailure => LoginReply::FailureRecorded(self.failure_durable),
            LoginAction::WarnUnverified => LoginReply::Warned,
            LoginAction::CheckLockout => LoginReply::Lockout {
                cached: self.cached,
                in_database: self.in_database,
            },
            LoginAction::Recheck => LoginReply::State(self.state),
            LoginAction::LookUpExpiry => LoginReply::Expiry(self.expiry),
            LoginAction::UseGrace => LoginReply::Grace(self.grace),
            LoginAction::RecordSuccess => LoginReply::SuccessRecorded(self.success_durable),
            LoginAction::RefuseLocked(_) => LoginReply::Begun,
            LoginAction::Finish => LoginReply::Begun,
        }
    }
}

/// The actions of a login in order, at most `steps` of them, from `reply` on.
pub open spec fn actions(l: Login, world: World, reply: LoginReply, steps: nat) -> Seq<LoginAction>
    decreases steps,
{
    if steps == 0 {
        Seq::empty()
    } else {
        let action = l.action_after(reply);
        let rest = if action is Finish || action is RefuseLocked {
            Seq::empty()
        } else {
            actions(l.after_reply(reply), world, world.reply(action), (steps - 1) as nat)
        };
        seq![action] + rest
    }
}

/// The login after those actions.
pub open spec fn finished(l: Login, world: World, reply: LoginReply, steps: nat) -> Login
    decreases steps,
{
    if steps == 0 {
        l
    } else {
        let action = l.action_after(reply);
        if action is Finish || action is RefuseLocked {
            l.after_reply(reply)
        } else {
            finished(l.after_reply(reply), world, world.reply(action), (steps - 1) as nat)
        }
    }
}

/// What a login did, from its beginning to its end.
pub open spec fn did(l: Login, world: World) -> Seq<LoginAction> {
    actions(l, world, LoginReply::Begun, 8)
}

/// The login at its end.
pub open spec fn at_end(l: Login, world: World) -> Login {
    finished(l, world, LoginReply::Begun, 8)
}

/// Nothing is wrong: a worker runs, the queue is not corrupt, and durable recording is trusted.
pub open spec fn healthy(h: HealthFacts) -> bool {
    h.worker_running && h.queue != QueueState::Corrupt && !h.durable_degraded
}

/// Seconds of a lockout that the cache reports, or, where it reports none, the database.
pub open spec fn seconds_locked(world: World) -> int {
    if world.cached is Some {
        world.cached->0 as int
    } else if world.in_database is Some {
        world.in_database->0 as int
    } else {
        0
    }
}

proof fn seq_of_one(a: LoginAction, rest: Seq<LoginAction>, x: LoginAction)
    ensures
        (seq![a] + rest).contains(x) <==> a == x || rest.contains(x),
        (seq![a] + rest).last() == if rest.len() == 0 {
            a
        } else {
            rest.last()
        },
        (seq![a] + rest).len() == rest.len() + 1,
{
    let all = seq![a] + rest;
    if rest.contains(x) {
        let i = choose|i: int| 0 <= i < rest.len() && rest[i] == x;
        assert(all[i + 1] == x);
    }
    if a == x {
        assert(all[0] == x);
    }
    if all.contains(x) && a != x {
        let i = choose|i: int| 0 <= i < all.len() && all[i] == x;
        assert(rest[i - 1] == x);
    }
}

/// One step of [`actions`].
proof fn one_action(l: Login, world: World, reply: LoginReply, steps: nat, x: LoginAction)
    requires
        steps > 0,
    ensures
        ({
            let a = l.action_after(reply);
            let next = l.after_reply(reply);
            let over = a is Finish || a is RefuseLocked;
            let rest = actions(next, world, world.reply(a), (steps - 1) as nat);
            &&& actions(l, world, reply, steps).contains(x) <==> a == x || (!over
                && rest.contains(x))
            &&& actions(l, world, reply, steps).last() == if over || rest.len() == 0 {
                a
            } else {
                rest.last()
            }
            &&& actions(l, world, reply, steps).len() > 0
            &&& finished(l, world, reply, steps) == if over {
                next
            } else {
                finished(next, world, world.reply(a), (steps - 1) as nat)
            }
        }),
{
    let a = l.action_after(reply);
    let next = l.after_reply(reply);
    let over = a is Finish || a is RefuseLocked;
    let rest = if over {
        Seq::empty()
    } else {
        actions(next, world, world.reply(a), (steps - 1) as nat)
    };
    seq_of_one(a, rest, x);
}

/// Follows a login to its end as far as `x` is concerned.
proof fn unrolled(l: Login, world: World, x: LoginAction)
    ensures
        ({
            let l1 = l.after_reply(LoginReply::Begun);
            let a1 = l.action_after(LoginReply::Begun);
            let r1 = world.reply(a1);
            let a2 = l1.action_after(r1);
            let l2 = l1.after_reply(r1);
            let r2 = world.reply(a2);
            let a3 = l2.action_after(r2);
            let l3 = l2.after_reply(r2);
            let r3 = world.reply(a3);
            let a4 = l3.action_after(r3);
            let l4 = l3.after_reply(r3);
            let r4 = world.reply(a4);
            let a5 = l4.action_after(r4);
            let l5 = l4.after_reply(r4);
            let r5 = world.reply(a5);
            let a6 = l5.action_after(r5);
            let l6 = l5.after_reply(r5);
            let end1 = a1 is Finish || a1 is RefuseLocked;
            let end2 = end1 || a2 is Finish || a2 is RefuseLocked;
            let end3 = end2 || a3 is Finish || a3 is RefuseLocked;
            let end4 = end3 || a4 is Finish || a4 is RefuseLocked;
            let end5 = end4 || a5 is Finish || a5 is RefuseLocked;
            &&& (end5 || a6 is Finish || a6 is RefuseLocked) ==> {
                &&& did(l, world).contains(x) <==> a1 == x || (!end1 && a2 == x) || (!end2 && a3
                    == x) || (!end3 && a4 == x) || (!end4 && a5 == x) || (!end5 && a6 == x)
                &&& did(l, world).last() == if end1 {
                    a1
                } else if end2 {
                    a2
                } else if end3 {
                    a3
                } else if end4 {
                    a4
                } else if end5 {
                    a5
                } else {
                    a6
                }
                &&& at_end(l, world) == if end1 {
                    l1
                } else if end2 {
                    l2
                } else if end3 {
                    l3
                } else if end4 {
                    l4
                } else if end5 {
                    l5
                } else {
                    l6
                }
            }
        }),
{
    let l1 = l.after_reply(LoginReply::Begun);
    let r1 = world.reply(l.action_after(LoginReply::Begun));
    let l2 = l1.after_reply(r1);
    let r2 = world.reply(l1.action_after(r1));
    let l3 = l2.after_reply(r2);
    let r3 = world.reply(l2.action_after(r2));
    let l4 = l3.after_reply(r3);
    let r4 = world.reply(l3.action_after(r3));
    let l5 = l4.after_reply(r4);
    let r5 = world.reply(l4.action_after(r4));
    one_action(l, world, LoginReply::Begun, 8, x);
    one_action(l1, world, r1, 7, x);
    one_action(l2, world, r2, 6, x);
    one_action(l3, world, r3, 5, x);
    one_action(l4, world, r4, 4, x);
    one_action(l5, world, r5, 3, x);
}

/// Every accepted credential is asked about its lockout first while lockouts are enforced, whatever
/// else is on or off; a refused one never is.
pub proof fn lockout_comes_first(l: Login)
    ensures
        l.authenticated && l.lockout_active <==> l.action_after(LoginReply::Begun)
            == LoginAction::CheckLockout,
        l.authenticated && !l.lockout_active <==> l.action_after(LoginReply::Begun)
            == LoginAction::Recheck,
        !l.authenticated && l.lockout_active <==> l.action_after(LoginReply::Begun)
            == LoginAction::JudgeFailure,
{
}

/// A locked account is refused with the right password, for the seconds that are left, and nothing
/// is recorded for it; nobody else is refused that way. Expiry has no say in it.
pub proof fn locked_account_is_refused(
    settings: LoginSettings,
    authenticated: bool,
    health: HealthFacts,
    lock: CacheState,
    expiry: ExpiryCacheState,
    world: World,
)
    ensures
        ({
            let l = Login::begun(settings, authenticated, health, lock, expiry);
            let enforced = settings.lockout_enforced && healthy(health) && lock
                == CacheState::Ready;
            let locked = authenticated && enforced && seconds_locked(world) > 0;
            let seconds = if seconds_locked(world) > 2147483647 {
                2147483647int
            } else {
                seconds_locked(world)
            };
            &&& locked ==> {
                &&& did(l, world).last() == LoginAction::RefuseLocked(seconds as i32)
                &&& !did(l, world).contains(LoginAction::RecordSuccess)
                &&& !did(l, world).contains(LoginAction::UseGrace)
                &&& !did(l, world).contains(LoginAction::Finish)
            }
            &&& !locked ==> did(l, world).last() == LoginAction::Finish
        }),
{
    let l = Login::begun(settings, authenticated, health, lock, expiry);
    unrolled(l, world, LoginAction::RecordSuccess);
    unrolled(l, world, LoginAction::UseGrace);
    unrolled(l, world, LoginAction::Finish);
}

/// A grace login is used up exactly for an accepted credential that is not locked out and whose
/// expired password has one, while expiry is enforced and nothing is wrong, neither at the beginning
/// nor at the second look.
pub proof fn grace_is_used_when_due(
    settings: LoginSettings,
    authenticated: bool,
    health: HealthFacts,
    lock: CacheState,
    expiry: ExpiryCacheState,
    world: World,
)
    ensures
        ({
            let l = Login::begun(settings, authenticated, health, lock, expiry);
            let locked = settings.lockout_enforced && lock == CacheState::Ready
                && seconds_locked(world) > 0;
            did(l, world).contains(LoginAction::UseGrace) <==> {
                &&& authenticated
                &&& healthy(health) && healthy(world.state)
                &&& !locked
                &&& settings.expiry_enforced && expiry == ExpiryCacheState::Ready
                &&& world.expiry == ExpiryDecision::ExpiredWithGrace
            }
        }),
{
    unrolled(
        Login::begun(settings, authenticated, health, lock, expiry),
        world,
        LoginAction::UseGrace,
    );
}

/// A login is refused for its password exactly when the credential was accepted and not locked out,
/// expiry is enforced, nothing is wrong, and the password is expired with no grace login left, as the
/// look-up or the attempt to use one says.
pub proof fn expired_password_is_refused(
    settings: LoginSettings,
    authenticated: bool,
    health: HealthFacts,
    lock: CacheState,
    expiry: ExpiryCacheState,
    world: World,
    at_exit: HealthFacts,
)
    ensures
        ({
            let l = Login::begun(settings, authenticated, health, lock, expiry);
            let locked = settings.lockout_enforced && lock == CacheState::Ready
                && seconds_locked(world) > 0;
            at_end(l, world).ending(at_exit).refuse_expired <==> {
                &&& authenticated
                &&& healthy(health) && healthy(world.state)
                &&& !locked
                &&& settings.expiry_enforced && expiry == ExpiryCacheState::Ready
                &&& world.expiry == ExpiryDecision::ExpiredNoGrace || (world.expiry
                    == ExpiryDecision::ExpiredWithGrace && world.grace.outcome is NoGrace)
            }
        }),
{
    unrolled(
        Login::begun(settings, authenticated, health, lock, expiry),
        world,
        LoginAction::UseGrace,
    );
}

/// A success is recorded exactly for a login that is admitted while lockouts are enforced and nothing
/// is wrong, unless a grace login already says the same or could not be recorded.
pub proof fn success_is_recorded_when_admitted(
    settings: LoginSettings,
    authenticated: bool,
    health: HealthFacts,
    lock: CacheState,
    expiry: ExpiryCacheState,
    world: World,
)
    ensures
        ({
            let l = Login::begun(settings, authenticated, health, lock, expiry);
            let expiry_counts = settings.expiry_enforced && expiry == ExpiryCacheState::Ready;
            did(l, world).contains(LoginAction::RecordSuccess) <==> {
                &&& authenticated
                &&& healthy(health) && healthy(world.state)
                &&& settings.lockout_enforced && lock == CacheState::Ready
                &&& seconds_locked(world) <= 0
                &&& expiry_counts ==> world.expiry != ExpiryDecision::ExpiredNoGrace
                &&& expiry_counts && world.expiry == ExpiryDecision::ExpiredWithGrace
                    ==> world.grace.outcome is NotNeeded
            }
        }),
{
    unrolled(
        Login::begun(settings, authenticated, health, lock, expiry),
        world,
        LoginAction::RecordSuccess,
    );
}

/// A failed attempt is recorded exactly for a wrong password of an existing role, while lockouts are
/// enforced and nothing is wrong; and where it could not be found out whether the role exists, a
/// warning says so.
pub proof fn wrong_password_is_recorded(
    settings: LoginSettings,
    authenticated: bool,
    health: HealthFacts,
    lock: CacheState,
    expiry: ExpiryCacheState,
    world: World,
)
    ensures
        ({
            let l = Login::begun(settings, authenticated, health, lock, expiry);
            let counted = !authenticated && settings.lockout_enforced && healthy(health) && lock
                == CacheState::Ready && world.invalid_password;
            &&& did(l, world).contains(LoginAction::RecordFailure) <==> counted
                && world.user_exists == 1
            &&& did(l, world).contains(LoginAction::WarnUnverified) <==> counted
                && world.user_exists != 1 && world.user_exists != 0
        }),
{
    let l = Login::begun(settings, authenticated, health, lock, expiry);
    unrolled(l, world, LoginAction::RecordFailure);
    unrolled(l, world, LoginAction::WarnUnverified);
}

/// A login goes unexamined exactly for an exempt role and one without a name: a bypass cache that
/// cannot answer exempts nobody, and on a standby or with both switches off nothing is done.
pub proof fn only_the_exempt_go_unexamined(
    settings: LoginSettings,
    username_known: bool,
    bypass: BypassDecision,
    authenticated: bool,
    health: HealthFacts,
    lock: CacheState,
    expiry: ExpiryCacheState,
    password_expiry_days: i32,
    switch_on: bool,
)
    ensures
        Login::opened(settings, username_known, bypass, authenticated, health, lock, expiry)
            is None <==> bypass == BypassDecision::Bypassed || !username_known,
        login::examined(settings) <==> {
            &&& !settings.in_recovery
            &&& settings.lockout_enforced || settings.expiry_enforced
        },
        login::expiry_enforced(switch_on, password_expiry_days) <==> switch_on
            && password_expiry_days >= 1,
{
}

/// The extension's trouble is reported: a login names why enforcement is paused exactly when something
/// was wrong when it began or an event of it was lost, and says first what keeps events from being
/// applied at all.
pub proof fn trouble_is_named(l: Login, health: HealthFacts)
    ensures
        login::pause_reason(health) is None <==> healthy(health),
        !health.worker_running ==> login::pause_reason(health) == Some(
            PausedReason::WorkerNotRunning,
        ),
        health.worker_running && health.queue == QueueState::Corrupt ==> login::pause_reason(health)
            == Some(PausedReason::QueueCorrupt),
        health.worker_running && health.queue != QueueState::Corrupt && health.durable_degraded
            ==> login::pause_reason(health) == Some(PausedReason::DurableRecording),
        l.ending(health).paused is Some <==> l.pause is Some || l.event_lost,
        l.pause is Some ==> l.ending(health).paused == l.pause,
        l.pause is None && l.event_lost && healthy(health) ==> l.ending(health).paused == Some(
            PausedReason::DurableRecording,
        ),
        l.pause is None && l.event_lost && !healthy(health) ==> l.ending(health).paused
            == login::pause_reason(health),
        l.ending(health).queue_warning is Some <==> l.queue_warn,
        l.queue_warn && l.event_lost ==> l.ending(health).queue_warning == Some(
            QueueWarning::JournalFailure,
        ),
        l.queue_warn && !l.event_lost ==> l.ending(health).queue_warning == Some(
            QueueWarning::QueueFull,
        ),
{
}

/// An event that could not be recorded durably, a grace login that could not, or trouble at either
/// look loses the login's events, and nothing else does; what was lost stays lost.
pub proof fn losses_are_kept(l: Login, durable: bool, result: GraceResult, health: HealthFacts)
    ensures
        l.after_recording(durable).event_lost <==> l.event_lost || !durable,
        l.after_recording(durable) == (Login {
            event_lost: l.after_recording(durable).event_lost,
            ..l
        }),
        l.rechecked(health).event_lost <==> l.event_lost || l.pause is Some || !healthy(health),
        l.rechecked(health) == (Login { event_lost: l.rechecked(health).event_lost, ..l }),
        l.authenticated && !l.event_lost && l.expiry_active ==> {
            let after = l.after_grace(result);
            &&& after.event_lost <==> result.outcome is Unavailable
            &&& after.grace_consumed <==> l.grace_consumed || result.outcome is Consumed
            &&& after.password_expired <==> l.password_expired || result.outcome is NoGrace
            &&& after.queue_warn <==> l.queue_warn || result.queue_warn
            &&& after == (Login {
                event_lost: after.event_lost,
                grace_consumed: after.grace_consumed,
                password_expired: after.password_expired,
                queue_warn: after.queue_warn,
                ..l
            })
        },
{
}

/// A refused credential counts only as a wrong password of an existing role.
pub proof fn failure_response_is_exact(l: Login, invalid_password: bool, user_exists: i32)
    ensures
        l.response(invalid_password, user_exists) == FailureResponse::Record <==> !l.authenticated
            && l.lockout_active && invalid_password && user_exists == 1,
        l.response(invalid_password, user_exists) == FailureResponse::WarnUnverified
            <==> !l.authenticated && l.lockout_active && invalid_password && user_exists != 0
            && user_exists != 1,
{
}

/// What follows each reply in whatever state the login is: a second look leads on to expiry only where
/// that is enforced for an accepted credential and nothing was lost, an expired password to a grace login
/// only there, and the success is recorded last, where nothing speaks against it.
pub proof fn replies_are_followed_up(
    l: Login,
    health: HealthFacts,
    decision: ExpiryDecision,
    result: GraceResult,
    durable: bool,
    cached: Option<i64>,
    in_database: Option<i64>,
)
    ensures
        ({
            let lost = l.event_lost || l.pause is Some || !healthy(health);
            let success = l.authenticated && !l.password_expired && l.lockout_active
                && !l.grace_consumed;
            let next = l.action_after(LoginReply::State(health));
            &&& next == LoginAction::LookUpExpiry <==> l.authenticated && l.expiry_active && !lost
            &&& next == LoginAction::RecordSuccess <==> !(l.authenticated && l.expiry_active && !lost)
                && success && !lost
            &&& next == LoginAction::LookUpExpiry || next == LoginAction::RecordSuccess || next
                == LoginAction::Finish
        }),
        ({
            let counts = l.authenticated && !l.event_lost && l.expiry_active;
            let next = l.action_after(LoginReply::Expiry(decision));
            &&& next == LoginAction::UseGrace <==> counts && decision
                == ExpiryDecision::ExpiredWithGrace
            &&& next == LoginAction::RecordSuccess <==> {
                &&& !(counts && decision == ExpiryDecision::ExpiredWithGrace)
                &&& !(counts && decision == ExpiryDecision::ExpiredNoGrace)
                &&& l.authenticated && !l.event_lost && !l.password_expired && l.lockout_active
                    && !l.grace_consumed
            }
        }),
        l.action_after(LoginReply::FailureRecorded(durable)) == LoginAction::Finish,
        l.action_after(LoginReply::Warned) == LoginAction::Finish,
        l.action_after(LoginReply::SuccessRecorded(durable)) == LoginAction::Finish,
        ({
            let next = l.action_after(LoginReply::Lockout { cached, in_database });
            let seconds = if cached is Some {
                cached
            } else {
                in_database
            };
            &&& next is RefuseLocked <==> l.authenticated && l.lockout_active && seconds is Some
                && seconds->0 >= 1
            &&& !(next is RefuseLocked) ==> next == LoginAction::Recheck
        }),
{
}

/// What the functions about a login return.
pub proof fn answers_about_a_login(
    l: &Login,
    settings: LoginSettings,
    health: HealthFacts,
    switch_on: bool,
    days: i32,
    examined: bool,
    enforced: bool,
    reason: Option<PausedReason>,
    wants_expiry: bool,
    wants_success: bool,
    flags: EventFlags,
    exit: LoginExit,
)
    requires
        call_ensures(login::is_examined, (settings,), examined),
        call_ensures(login::expiry_login_enforcement_active, (switch_on, days), enforced),
        call_ensures(login::enforcement_pause_reason, (health,), reason),
        call_ensures(Login::wants_expiry, (l,), wants_expiry),
        call_ensures(Login::wants_success_event, (l,), wants_success),
        call_ensures(Login::event_flags, (l,), flags),
        call_ensures(Login::exit, (l, health), exit),
    ensures
        examined <==> !settings.in_recovery && (settings.lockout_enforced
            || settings.expiry_enforced),
        enforced <==> switch_on && days >= 1,
        reason is None <==> healthy(health),
        wants_expiry <==> l.authenticated && !l.event_lost && l.expiry_active,
        wants_success <==> l.authenticated && !l.event_lost && !l.password_expired
            && l.lockout_active && !l.grace_consumed,
        flags.0 == 1 <==> l.lockout_active,
        flags.0 == 0 <==> !l.lockout_active,
        exit.refuse_expired <==> l.password_expired,
        exit.paused is Some <==> l.pause is Some || l.event_lost,
        exit.queue_warning is Some <==> l.queue_warn,
{
}

/// What a beginning login is: nothing for an exempt role or one without a name, else one in which each
/// feature is active exactly while it is enforced, nothing is wrong and its cache is ready.
pub proof fn login_begins_with_what_is_enforced(
    settings: LoginSettings,
    username_known: bool,
    bypass: BypassDecision,
    authenticated: bool,
    health: HealthFacts,
    lock: CacheState,
    expiry: ExpiryCacheState,
    r: Option<Login>,
)
    requires
        call_ensures(
            Login::begin,
            (settings, username_known, bypass, authenticated, health, lock, expiry),
            r,
        ),
    ensures
        r is None <==> bypass == BypassDecision::Bypassed || !username_known,
        r matches Some(l) ==> {
            &&& l.authenticated == authenticated
            &&& l.lockout_active <==> settings.lockout_enforced && healthy(health) && lock
                == CacheState::Ready
            &&& l.expiry_active <==> settings.expiry_enforced && healthy(health) && expiry
                == ExpiryCacheState::Ready
            &&& l.pause is None <==> healthy(health)
            &&& !l.event_lost && !l.password_expired && !l.queue_warn && !l.grace_consumed
        },
{
}

} // verus!
