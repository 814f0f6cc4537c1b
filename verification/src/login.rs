//! What happens at a login: the decisions of the client-authentication hook.
//!
//! PostgreSQL has already judged the credential when the hook runs. The hook may add two refusals
//! of its own, an account lockout and an expired password, and only while the extension's own
//! state is sound. Any internal trouble pauses enforcement; it never refuses a login.

use crate::auth_event::{EventFlags, QueueState, QueueWarning};
use crate::bypass_cache::BypassDecision;
use crate::expiry_cache::{ExpiryCacheState, ExpiryDecision, GraceOutcome, GraceResult};
use crate::lock_cache::CacheState;
use crate::worker_health::PausedReason;
use vstd::prelude::*;

verus! {

/// Login-time expiry is enforced.
pub open spec fn expiry_enforced(switch_on: bool, password_expiry_days: i32) -> bool {
    switch_on && password_expiry_days > 0
}

/// Login-time expiry is enforced: its switch is on and passwords do expire.
pub fn expiry_login_enforcement_active(switch_on: bool, password_expiry_days: i32) -> (r: bool)
    ensures
        r == expiry_enforced(switch_on, password_expiry_days),
{
    switch_on && password_expiry_days > 0
}

/// The settings a login is admitted under.
#[derive(Clone, Copy, PartialEq, Eq, Debug, Structural)]
pub struct LoginSettings {
    /// The server is a standby.
    pub in_recovery: bool,
    pub lockout_enforced: bool,
    pub expiry_enforced: bool,
}

/// The extension has something to do with a login.
pub open spec fn examined(settings: LoginSettings) -> bool {
    !settings.in_recovery && (settings.lockout_enforced || settings.expiry_enforced)
}

/// Whether the extension has anything to do with a login: not on a standby, and not while both
/// kinds of enforcement are off.
pub fn is_examined(settings: LoginSettings) -> (r: bool)
    ensures
        r == examined(settings),
{
    !settings.in_recovery && (settings.lockout_enforced || settings.expiry_enforced)
}

/// The extension's own state, as a login sees it.
#[derive(Clone, Copy, PartialEq, Eq, Debug, Structural)]
pub struct HealthFacts {
    pub worker_running: bool,
    pub queue: QueueState,
    /// A durable append failed and the caches were not rebuilt since.
    pub durable_degraded: bool,
}

/// Why enforcement is paused, when it is.
pub open spec fn pause_reason(health: HealthFacts) -> Option<PausedReason> {
    if !health.worker_running {
        Some(PausedReason::WorkerNotRunning)
    } else if health.queue is Corrupt {
        Some(PausedReason::QueueCorrupt)
    } else if health.durable_degraded {
        Some(PausedReason::DurableRecording)
    } else {
        None
    }
}

/// Why enforcement is paused, when it is.
pub fn enforcement_pause_reason(health: HealthFacts) -> (r: Option<PausedReason>)
    ensures
        r == pause_reason(health),
{
    if !health.worker_running {
        return Some(PausedReason::WorkerNotRunning);
    }
    if health.queue == QueueState::Corrupt {
        return Some(PausedReason::QueueCorrupt);
    }
    if health.durable_degraded {
        return Some(PausedReason::DurableRecording);
    }
    None
}

/// One login the extension examines.
#[derive(Clone, Copy, PartialEq, Eq, Debug, Structural)]
pub struct Login {
    /// PostgreSQL accepted the credential.
    pub authenticated: bool,
    /// Lockouts are enforced for it.
    pub lockout_active: bool,
    /// Expiry is enforced for it.
    pub expiry_active: bool,
    /// Why enforcement was paused when it began.
    pub pause: Option<PausedReason>,
    /// An event could not be recorded: what is left of the processing is skipped.
    pub event_lost: bool,
    /// The password is expired and no grace login is left.
    pub password_expired: bool,
    /// The queue asked for a warning.
    pub queue_warn: bool,
    /// A grace login was used up, and its event recorded.
    pub grace_consumed: bool,
}

/// What to do about a login that PostgreSQL refused.
#[derive(Clone, Copy, PartialEq, Eq, Debug, Structural)]
pub enum FailureResponse {
    /// Record the failed attempt.
    Record,
    /// Warn that it could not be found out whether the role exists.
    WarnUnverified,
    Ignore,
}

/// How the login ends, once nothing is locked any more.
#[derive(Clone, Copy, PartialEq, Eq, Debug, Structural)]
pub struct LoginExit {
    pub queue_warning: Option<QueueWarning>,
    pub paused: Option<PausedReason>,
    /// Refuse the login because its password is expired.
    pub refuse_expired: bool,
}

/// What a login has to do next.
#[derive(Clone, Copy, PartialEq, Eq, Debug, Structural)]
pub enum LoginAction {
    /// Find out why PostgreSQL refused the credential, and whether the role exists.
    JudgeFailure,
    /// Record a failed attempt.
    RecordFailure,
    /// Warn that it could not be found out whether the role exists.
    WarnUnverified,
    /// Ask the lock cache, and where it reports nothing the database, for a lockout.
    CheckLockout,
    /// Refuse the login: the account is locked for this many seconds.
    RefuseLocked(i32),
    /// Look at the extension's state once more.
    Recheck,
    /// Look the password's expiry up.
    LookUpExpiry,
    /// Use up a grace login.
    UseGrace,
    /// Record the success.
    RecordSuccess,
    /// End the login as [`Login::exit`] says.
    Finish,
}

/// What came of an action.
#[derive(Clone, Copy, PartialEq, Eq, Debug, Structural)]
pub enum LoginReply {
    /// The login has begun.
    Begun,
    Failure { invalid_password: bool, user_exists: i32 },
    /// The failed attempt was recorded, durably or not.
    FailureRecorded(bool),
    /// The warning is out.
    Warned,
    /// The seconds the cache and the database report.
    Lockout { cached: Option<i64>, in_database: Option<i64> },
    State(HealthFacts),
    Expiry(ExpiryDecision),
    Grace(GraceResult),
    /// The success was recorded, durably or not.
    SuccessRecorded(bool),
}

impl Login {
    /// A login whose role is not exempt, as it begins. A feature is active for it only when it is
    /// enforced, the extension is sound and the feature's cache is ready.
    pub open spec fn begun(
        settings: LoginSettings,
        authenticated: bool,
        health: HealthFacts,
        lock: CacheState,
        expiry: ExpiryCacheState,
    ) -> Login {
        let sound = pause_reason(health) is None;
        Login {
            authenticated,
            lockout_active: settings.lockout_enforced && sound && lock is Ready,
            expiry_active: settings.expiry_enforced && sound && expiry is Ready,
            pause: pause_reason(health),
            event_lost: false,
            password_expired: false,
            queue_warn: false,
            grace_consumed: false,
        }
    }

    /// The login there is to examine; `None` for an exempt role and one without a name.
    pub open spec fn opened(
        settings: LoginSettings,
        username_known: bool,
        bypass: BypassDecision,
        authenticated: bool,
        health: HealthFacts,
        lock: CacheState,
        expiry: ExpiryCacheState,
    ) -> Option<Login> {
        if bypass is Bypassed || !username_known {
            None
        } else {
            Some(Login::begun(settings, authenticated, health, lock, expiry))
        }
    }

    /// Begins a login, after the previous hook has run. `None` when there is nothing to enforce: the
    /// role is exempt or unknown. A bypass cache that cannot answer exempts nobody.
    pub fn begin(
        settings: LoginSettings,
        username_known: bool,
        bypass: BypassDecision,
        authenticated: bool,
        health: HealthFacts,
        lock: CacheState,
        expiry: ExpiryCacheState,
    ) -> (r: Option<Login>)
        ensures
            r == Login::opened(
                settings,
                username_known,
                bypass,
                authenticated,
                health,
                lock,
                expiry,
            ),
    {
        if bypass == BypassDecision::Bypassed || !username_known {
            return None;
        }
        let pause = enforcement_pause_reason(health);
        let healthy = pause.is_none();
        Some(
            Login {
                authenticated,
                lockout_active: settings.lockout_enforced && healthy && lock == CacheState::Ready,
                expiry_active: settings.expiry_enforced && healthy && expiry
                    == ExpiryCacheState::Ready,
                pause,
                event_lost: false,
                password_expired: false,
                queue_warn: false,
                grace_consumed: false,
            },
        )
    }

    /// The response to a refused credential: an existing role's wrong password counts, while
    /// lockouts are enforced.
    pub open spec fn response(self, invalid_password: bool, user_exists: i32) -> FailureResponse {
        if self.authenticated || !self.lockout_active || !invalid_password || user_exists == 0 {
            FailureResponse::Ignore
        } else if user_exists == 1 {
            FailureResponse::Record
        } else {
            FailureResponse::WarnUnverified
        }
    }

    /// Decides about a refused credential from why it was refused and whether the role exists:
    /// 1 for yes, 0 for no, anything else when that could not be found out.
    pub fn failure_response(&self, invalid_password: bool, user_exists: i32) -> (r: FailureResponse)
        ensures
            r == self.response(invalid_password, user_exists),
    {
        if self.authenticated || !self.lockout_active || !invalid_password || user_exists == 0 {
            FailureResponse::Ignore
        } else if user_exists == 1 {
            FailureResponse::Record
        } else {
            FailureResponse::WarnUnverified
        }
    }

    /// The seconds an accepted credential is still locked out for.
    pub open spec fn locked_for(self, cached: Option<i64>, in_database: Option<i64>) -> Option<i32> {
        let remaining = if cached is Some {
            cached
        } else {
            in_database
        };
        if self.authenticated && self.lockout_active && remaining is Some && remaining->0 > 0 {
            if remaining->0 > i32::MAX {
                Some(i32::MAX)
            } else {
                Some(remaining->0 as i32)
            }
        } else {
            None
        }
    }

    /// Decides about an account lockout from the seconds the cache reports, or, when it reports
    /// none, those the database reports. `Some` refuses the login. A credential that PostgreSQL
    /// refused is told nothing about it.
    pub fn lockout_refusal(&self, cached: Option<i64>, in_database: Option<i64>) -> (r: Option<i32>)
        ensures
            r == self.locked_for(cached, in_database),
    {
        if !self.authenticated || !self.lockout_active {
            return None;
        }
        let remaining = match cached {
            Some(s) => Some(s),
            None => in_database,
        };
        match remaining {
            Some(seconds) => {
                if seconds <= 0 {
                    None
                } else if seconds > 2_147_483_647 {
                    Some(i32::MAX)
                } else {
                    Some(seconds as i32)
                }
            },
            None => None,
        }
    }

    /// The login after the extension's state was looked at once more.
    pub open spec fn rechecked(self, health: HealthFacts) -> Login {
        Login {
            event_lost: self.event_lost || self.pause is Some || pause_reason(health) is Some,
            ..self
        }
    }

    /// Looks at the extension's state once more before anything is recorded: another backend may
    /// have found trouble meanwhile.
    pub fn recheck(&mut self, health: HealthFacts)
        ensures
            *final(self) == old(self).rechecked(health),
    {
        if self.pause.is_some() || enforcement_pause_reason(health).is_some() {
            self.event_lost = true;
        }
    }

    /// The password's expiry matters: only for an accepted credential.
    pub open spec fn expiry_matters(self) -> bool {
        self.authenticated && !self.event_lost && self.expiry_active
    }

    /// Whether the password's expiry is to be looked up.
    pub fn wants_expiry(&self) -> (r: bool)
        ensures
            r == self.expiry_matters(),
    {
        self.authenticated && !self.event_lost && self.expiry_active
    }

    /// The login after the expiry was looked up.
    pub open spec fn after_expiry(self, decision: ExpiryDecision) -> Login {
        Login {
            password_expired: self.password_expired || (self.expiry_matters()
                && decision is ExpiredNoGrace),
            ..self
        }
    }

    /// Takes note of the expiry. Says whether a grace login is to be used up.
    pub fn on_expiry(&mut self, decision: ExpiryDecision) -> (try_grace: bool)
        ensures
            *final(self) == old(self).after_expiry(decision),
            try_grace == (old(self).expiry_matters() && decision is ExpiredWithGrace),
    {
        if !self.wants_expiry() {
            return false;
        }
        match decision {
            ExpiryDecision::ExpiredNoGrace => {
                self.password_expired = true;
                false
            },
            ExpiryDecision::ExpiredWithGrace => true,
            _ => false,
        }
    }

    /// The flags of the events this login records: they capture whether lockouts were enforced
    /// for it.
    pub fn event_flags(&self) -> (r: EventFlags)
        ensures
            r == EventFlags::admission(self.lockout_active),
    {
        EventFlags::for_admission(self.lockout_active)
    }

    /// The login after a grace login was tried.
    pub open spec fn after_grace(self, result: GraceResult) -> Login {
        if !self.expiry_matters() {
            self
        } else {
            Login {
                queue_warn: self.queue_warn || result.queue_warn,
                grace_consumed: self.grace_consumed || result.outcome is Consumed,
                password_expired: self.password_expired || result.outcome is NoGrace,
                event_lost: self.event_lost || result.outcome is Unavailable,
                ..self
            }
        }
    }

    /// Takes note of a grace login. One that could not be recorded pauses enforcement for this
    /// login instead of refusing it.
    pub fn on_grace(&mut self, result: GraceResult)
        ensures
            *final(self) == old(self).after_grace(result),
    {
        if !self.wants_expiry() {
            return;
        }
        self.queue_warn = self.queue_warn || result.queue_warn;
        match result.outcome {
            GraceOutcome::Consumed => {
                self.grace_consumed = true;
            },
            GraceOutcome::NotNeeded => {},
            GraceOutcome::NoGrace => {
                self.password_expired = true;
            },
            GraceOutcome::Unavailable => {
                self.event_lost = true;
            },
        }
    }

    /// A success event is due: the login is admitted, lockouts are enforced for it, and no grace
    /// event says the same already.
    pub open spec fn success_due(self) -> bool {
        self.authenticated && !self.event_lost && !self.password_expired && self.lockout_active
            && !self.grace_consumed
    }

    /// Whether a success event is to be recorded.
    pub fn wants_success_event(&self) -> (r: bool)
        ensures
            r == self.success_due(),
    {
        self.authenticated && !self.event_lost && !self.password_expired && self.lockout_active
            && !self.grace_consumed
    }

    /// The login after an event was recorded, durably or not.
    pub open spec fn after_recording(self, durable: bool) -> Login {
        Login { event_lost: self.event_lost || !durable, ..self }
    }

    /// Takes note of whether an event was recorded durably.
    pub fn on_recorded(&mut self, durable: bool)
        ensures
            *final(self) == old(self).after_recording(durable),
    {
        if !durable {
            self.event_lost = true;
        }
    }

    /// The login after `reply`.
    pub open spec fn after_reply(self, reply: LoginReply) -> Login {
        match reply {
            LoginReply::FailureRecorded(durable) => self.after_recording(durable),
            LoginReply::State(health) => self.rechecked(health),
            LoginReply::Expiry(decision) => self.after_expiry(decision),
            LoginReply::Grace(result) => self.after_grace(result),
            LoginReply::SuccessRecorded(durable) => self.after_recording(durable),
            _ => self,
        }
    }

    /// What is left once expiry has been dealt with.
    pub open spec fn last_action(self) -> LoginAction {
        if self.success_due() {
            LoginAction::RecordSuccess
        } else {
            LoginAction::Finish
        }
    }

    /// What this login does next after `reply`. For a refused credential only the failure matters.
    /// For an accepted one a lockout comes first, then the second look at the extension's state,
    /// then expiry and a grace login, and only then the success is recorded.
    pub open spec fn action_after(self, reply: LoginReply) -> LoginAction {
        let l = self.after_reply(reply);
        match reply {
            LoginReply::Begun => if !self.authenticated {
                if self.lockout_active {
                    LoginAction::JudgeFailure
                } else {
                    LoginAction::Finish
                }
            } else if self.lockout_active {
                LoginAction::CheckLockout
            } else {
                LoginAction::Recheck
            },
            LoginReply::Failure { invalid_password, user_exists } => match self.response(
                invalid_password,
                user_exists,
            ) {
                FailureResponse::Record => LoginAction::RecordFailure,
                FailureResponse::WarnUnverified => LoginAction::WarnUnverified,
                FailureResponse::Ignore => LoginAction::Finish,
            },
            LoginReply::FailureRecorded(_) => LoginAction::Finish,
            LoginReply::Warned => LoginAction::Finish,
            LoginReply::Lockout { cached, in_database } => match self.locked_for(
                cached,
                in_database,
            ) {
                Some(seconds) => LoginAction::RefuseLocked(seconds),
                None => LoginAction::Recheck,
            },
            LoginReply::State(_) => if l.expiry_matters() {
                LoginAction::LookUpExpiry
            } else {
                l.last_action()
            },
            LoginReply::Expiry(decision) => if self.expiry_matters()
                && decision is ExpiredWithGrace {
                LoginAction::UseGrace
            } else {
                l.last_action()
            },
            LoginReply::Grace(_) => l.last_action(),
            LoginReply::SuccessRecorded(_) => LoginAction::Finish,
        }
    }

    fn closing_action(&self) -> (r: LoginAction)
        ensures
            r == self.last_action(),
    {
        if self.wants_success_event() {
            LoginAction::RecordSuccess
        } else {
            LoginAction::Finish
        }
    }

    /// Takes note of what came of an action and says what to do next.
    pub fn advance(&mut self, reply: LoginReply) -> (r: LoginAction)
        ensures
            *final(self) == old(self).after_reply(reply),
            r == old(self).action_after(reply),
    {
        match reply {
            LoginReply::Begun => {
                if !self.authenticated {
                    if self.lockout_active {
                        LoginAction::JudgeFailure
                    } else {
                        LoginAction::Finish
                    }
                } else if self.lockout_active {
                    LoginAction::CheckLockout
                } else {
                    LoginAction::Recheck
                }
            },
            LoginReply::Failure { invalid_password, user_exists } => {
                match self.failure_response(invalid_password, user_exists) {
                    FailureResponse::Record => LoginAction::RecordFailure,
                    FailureResponse::WarnUnverified => LoginAction::WarnUnverified,
                    FailureResponse::Ignore => LoginAction::Finish,
                }
            },
            LoginReply::FailureRecorded(durable) => {
                self.on_recorded(durable);
                LoginAction::Finish
            },
            LoginReply::Warned => LoginAction::Finish,
            LoginReply::Lockout { cached, in_database } => {
                match self.lockout_refusal(cached, in_database) {
                    Some(seconds) => LoginAction::RefuseLocked(seconds),
                    None => LoginAction::Recheck,
                }
            },
            LoginReply::State(health) => {
                self.recheck(health);
                if self.wants_expiry() {
                    LoginAction::LookUpExpiry
                } else {
                    self.closing_action()
                }
            },
            LoginReply::Expiry(decision) => {
                if self.on_expiry(decision) {
                    LoginAction::UseGrace
                } else {
                    self.closing_action()
                }
            },
            LoginReply::Grace(result) => {
                self.on_grace(result);
                self.closing_action()
            },
            LoginReply::SuccessRecorded(durable) => {
                self.on_recorded(durable);
                LoginAction::Finish
            },
        }
    }

    /// How the login ends.
    pub open spec fn ending(self, health: HealthFacts) -> LoginExit {
        LoginExit {
            queue_warning: if !self.queue_warn {
                None
            } else if self.event_lost {
                Some(QueueWarning::JournalFailure)
            } else {
                Some(QueueWarning::QueueFull)
            },
            paused: if self.pause is Some {
                self.pause
            } else if !self.event_lost {
                None
            } else if pause_reason(health) is Some {
                pause_reason(health)
            } else {
                Some(PausedReason::DurableRecording)
            },
            refuse_expired: self.password_expired,
        }
    }

    /// Ends the login: the warnings to emit and whether to refuse it. `health` is the state at the
    /// end, which names trouble that came up after the beginning.
    pub fn exit(&self, health: HealthFacts) -> (r: LoginExit)
        ensures
            r == self.ending(health),
    {
        let queue_warning = if self.queue_warn {
            if self.event_lost {
                Some(QueueWarning::JournalFailure)
            } else {
                Some(QueueWarning::QueueFull)
            }
        } else {
            None
        };
        let paused = match self.pause {
            Some(reason) => Some(reason),
            None => {
                if self.event_lost {
                    match enforcement_pause_reason(health) {
                        Some(reason) => Some(reason),
                        None => Some(PausedReason::DurableRecording),
                    }
                } else {
                    None
                }
            },
        };
        LoginExit { queue_warning, paused, refuse_expired: self.password_expired }
    }

    /// What is true of every login: a feature is active only while the extension is sound, a
    /// password is called expired only where expiry is enforced for an accepted credential, and a
    /// grace login is used up only there.
    pub open spec fn sound(self) -> bool {
        &&& self.lockout_active || self.expiry_active ==> self.pause is None
        &&& self.password_expired || self.grace_consumed ==> self.authenticated
            && self.expiry_active
    }
}

/// A login is sound when it begins and stays so.
pub proof fn login_stays_sound(
    settings: LoginSettings,
    authenticated: bool,
    health: HealthFacts,
    lock: CacheState,
    expiry: ExpiryCacheState,
    l: Login,
    decision: ExpiryDecision,
    result: GraceResult,
    durable: bool,
)
    requires
        l.sound(),
    ensures
        Login::begun(settings, authenticated, health, lock, expiry).sound(),
        l.rechecked(health).sound(),
        l.after_expiry(decision).sound(),
        l.after_grace(result).sound(),
        l.after_recording(durable).sound(),
{
}

/// Internal trouble never refuses a login: whatever the caches report, one that began while
/// enforcement was paused is neither locked out nor called expired.
pub proof fn trouble_refuses_nobody(
    l: Login,
    cached: Option<i64>,
    in_database: Option<i64>,
    health: HealthFacts,
)
    requires
        l.sound(),
        l.pause is Some,
    ensures
        l.locked_for(cached, in_database) is None,
        !l.ending(health).refuse_expired,
        l.ending(health).paused == l.pause,
{
}

/// A credential that PostgreSQL refused learns nothing and costs nothing: no lockout is revealed,
/// no expiry is looked at, no grace login is used up, no success is recorded.
pub proof fn refused_credential_learns_nothing(
    l: Login,
    cached: Option<i64>,
    in_database: Option<i64>,
    decision: ExpiryDecision,
    result: GraceResult,
    health: HealthFacts,
)
    requires
        l.sound(),
        !l.authenticated,
    ensures
        l.locked_for(cached, in_database) is None,
        !l.expiry_matters(),
        l.after_expiry(decision) == l,
        l.after_grace(result) == l,
        !l.success_due(),
        !l.ending(health).refuse_expired,
{
}

/// A login that is refused for its expired password records no success, so it clears nobody's
/// failed attempts; and one that used up a grace login records no second event.
pub proof fn refusal_records_no_success(l: Login)
    requires
        l.password_expired || l.grace_consumed,
    ensures
        !l.success_due(),
{
}

/// Where an action stands in the order of a login.
pub open spec fn rank(action: LoginAction) -> int {
    match action {
        LoginAction::JudgeFailure => 1,
        LoginAction::CheckLockout => 1,
        LoginAction::RecordFailure => 2,
        LoginAction::WarnUnverified => 2,
        LoginAction::Recheck => 3,
        LoginAction::LookUpExpiry => 4,
        LoginAction::UseGrace => 5,
        LoginAction::RecordSuccess => 6,
        LoginAction::RefuseLocked(_) => 7,
        LoginAction::Finish => 7,
    }
}

/// Where the action stands that a reply is about.
pub open spec fn rank_of_reply(reply: LoginReply) -> int {
    match reply {
        LoginReply::Begun => 0,
        LoginReply::Failure { .. } => rank(LoginAction::JudgeFailure),
        LoginReply::FailureRecorded(_) => rank(LoginAction::RecordFailure),
        LoginReply::Warned => rank(LoginAction::WarnUnverified),
        LoginReply::Lockout { .. } => rank(LoginAction::CheckLockout),
        LoginReply::State(_) => rank(LoginAction::Recheck),
        LoginReply::Expiry(_) => rank(LoginAction::LookUpExpiry),
        LoginReply::Grace(_) => rank(LoginAction::UseGrace),
        LoginReply::SuccessRecorded(_) => rank(LoginAction::RecordSuccess),
    }
}

/// A login only goes forward: lockout, second look, expiry, grace login, success, each at most once
/// and in this order, and so it ends.
pub proof fn actions_are_ordered(l: Login, reply: LoginReply)
    ensures
        rank_of_reply(reply) < rank(l.action_after(reply)),
{
}

/// What a login does is warranted when it does it: a grace login is used up only where expiry is
/// enforced for an accepted credential and the second look found no trouble, a success is recorded
/// only for a login that is not refused, and a lockout refuses only an accepted credential.
pub proof fn actions_are_warranted(l: Login, reply: LoginReply)
    ensures
        ({
            let action = l.action_after(reply);
            let after = l.after_reply(reply);
            &&& action is UseGrace ==> after.expiry_matters()
            &&& action is RecordSuccess ==> after.success_due() && !after.password_expired
            &&& action is RefuseLocked ==> l.authenticated && l.lockout_active
            &&& action is RecordFailure ==> !l.authenticated && l.lockout_active
            &&& action is CheckLockout ==> l.authenticated
        }),
{
}

/// A login whose event was lost goes on unrefused by what would have followed: nothing more is
/// looked up or recorded, and the pause is reported.
pub proof fn lost_event_pauses(
    l: Login,
    decision: ExpiryDecision,
    health: HealthFacts,
)
    requires
        l.event_lost,
    ensures
        l.after_expiry(decision) == l,
        !l.success_due(),
        l.ending(health).paused is Some,
{
}

} // verus!
