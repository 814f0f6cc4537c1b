//! Laws of calls of logins and of the worker: what each returns and leaves behind.

use crate::auth_event::{ClaimToken, QueueState, SharedAuthEvent};
use crate::bypass_cache::BypassCache;
use crate::expiry_cache::{ExpiryCache, ExpiryDecision, GraceOutcome, GraceResult};
use crate::lock_cache::LockCache;
use crate::login::{HealthFacts, Login, LoginAction, LoginReply};
use crate::login_laws;
use crate::pending_cache_op::PendingState;
use crate::worker;
use crate::worker::{
    AffectedCaches, Backoff, Consumer, DegradedByRetry, Gate, HydrationReport, HydrationStep,
    NextStep, RecordReply, RemovalReply, RotationReply, RoundFacts, SuspendStep, Suspension, Work,
};
use crate::worker_health;
use crate::worker_health::{PausedReason, WorkerHealth};
use vstd::prelude::*;

verus! {

/// A login that has begun asks about the lockout first whenever that is enforced for an accepted
/// credential, whatever the expiry setting is, and beginning changes nothing of it.
pub proof fn begun_call_asks_about_the_lockout(l: &mut Login, action: LoginAction)
    requires
        call_ensures(Login::advance, (l, LoginReply::Begun), action),
    ensures
        old(l).authenticated && old(l).lockout_active <==> action == LoginAction::CheckLockout,
        old(l).authenticated && !old(l).lockout_active <==> action == LoginAction::Recheck,
        !old(l).authenticated && old(l).lockout_active <==> action == LoginAction::JudgeFailure,
        !old(l).authenticated && !old(l).lockout_active <==> action == LoginAction::Finish,
        *final(l) == *old(l),
{
}

/// A lockout with time left refuses the login at once, for the seconds that the cache reports before
/// those of the database; otherwise the login goes on with the second look.
pub proof fn lockout_call_refuses(
    l: &mut Login,
    cached: Option<i64>,
    in_database: Option<i64>,
    action: LoginAction,
)
    requires
        call_ensures(Login::advance, (l, LoginReply::Lockout { cached, in_database }), action),
        old(l).authenticated,
        old(l).lockout_active,
    ensures
        ({
            let seconds = if cached is Some {
                cached
            } else {
                in_database
            };
            let locked = seconds is Some && seconds->0 >= 1;
            &&& locked && seconds->0 <= 2147483647 ==> action == LoginAction::RefuseLocked(
                seconds->0 as i32,
            )
            &&& locked ==> action is RefuseLocked
            &&& !locked ==> action == LoginAction::Recheck
            &&& *final(l) == *old(l)
        }),
{
}

/// The second look, the look-up and the grace login lead on as the state of the login and the extension
/// says, and what they lose is kept.
pub proof fn later_calls_lead_on(
    a: &mut Login,
    health: HealthFacts,
    after_look: LoginAction,
    b: &mut Login,
    decision: ExpiryDecision,
    after_expiry: LoginAction,
    c: &mut Login,
    result: GraceResult,
    after_grace: LoginAction,
)
    requires
        call_ensures(Login::advance, (a, LoginReply::State(health)), after_look),
        call_ensures(Login::advance, (b, LoginReply::Expiry(decision)), after_expiry),
        call_ensures(Login::advance, (c, LoginReply::Grace(result)), after_grace),
        old(b).authenticated && !old(b).event_lost && old(b).expiry_active,
        old(c).authenticated && !old(c).event_lost && old(c).expiry_active,
    ensures
        ({
            let lost = old(a).event_lost || old(a).pause is Some || !login_laws::healthy(health);
            &&& final(a).event_lost <==> lost
            &&& after_look == LoginAction::LookUpExpiry <==> old(a).authenticated
                && old(a).expiry_active && !lost
        }),
        after_expiry == LoginAction::UseGrace <==> decision == ExpiryDecision::ExpiredWithGrace,
        decision == ExpiryDecision::ExpiredNoGrace ==> final(b).password_expired,
        decision != ExpiryDecision::ExpiredNoGrace ==> final(b).password_expired
            == old(b).password_expired,
        result.outcome == GraceOutcome::NoGrace ==> final(c).password_expired,
        result.outcome == GraceOutcome::Consumed ==> final(c).grace_consumed,
        result.outcome == GraceOutcome::Unavailable <==> final(c).event_lost,
        after_grace == LoginAction::RecordSuccess ==> !final(c).password_expired
            && !final(c).grace_consumed && !final(c).event_lost && old(c).lockout_active,
{
}

/// A refused credential is recorded only as an existing role's wrong password, and the end of a
/// recording ends the login.
pub proof fn failure_calls_end_the_login(
    a: &mut Login,
    invalid_password: bool,
    user_exists: i32,
    judged: LoginAction,
    b: &mut Login,
    durable: bool,
    recorded: LoginAction,
)
    requires
        call_ensures(
            Login::advance,
            (a, LoginReply::Failure { invalid_password, user_exists }),
            judged,
        ),
        call_ensures(Login::advance, (b, LoginReply::FailureRecorded(durable)), recorded),
    ensures
        judged == LoginAction::RecordFailure <==> !old(a).authenticated && old(a).lockout_active
            && invalid_password && user_exists == 1,
        judged == LoginAction::WarnUnverified <==> !old(a).authenticated && old(a).lockout_active
            && invalid_password && user_exists != 1 && user_exists != 0,
        recorded == LoginAction::Finish,
        final(b).event_lost <==> old(b).event_lost || !durable,
{
}

/// What a round may do, and what it does next.
pub proof fn round_calls_decide(c: &Consumer, f: &RoundFacts, gate: Gate, work: Work)
    requires
        call_ensures(Consumer::check_round, (c, f), gate),
        call_ensures(Consumer::next_work, (c,), work),
    ensures
        f.shutdown <==> gate == Gate::Shutdown,
        !f.shutdown && f.queue == QueueState::Corrupt <==> gate == Gate::QueueUnhealthy,
        gate == Gate::Proceed && f.degraded_since is Some ==> f.now - f.degraded_since->0
            < 5_000_000,
        !c.batch_open <==> work == Work::Rotate,
        c.batch_open && c.pending_event is None <==> work == Work::ReadRecord,
        c.batch_open && c.pending_event is Some ==> work == Work::Process(c.pending_event->0),
{
}

/// What replies do to a run.
pub proof fn reply_calls_move_the_run(
    a: &mut Consumer,
    event: SharedAuthEvent,
    read: NextStep,
    b: &mut Consumer,
    ended: NextStep,
    c: &mut Consumer,
    opened: NextStep,
    d: &mut Consumer,
    removed: NextStep,
    e: &mut Consumer,
    restore: DegradedByRetry,
    f: &mut Consumer,
    wait: Backoff,
)
    requires
        call_ensures(Consumer::on_record, (a, RecordReply::Event(event)), read),
        call_ensures(Consumer::on_record, (b, RecordReply::EndOfFile), ended),
        call_ensures(Consumer::on_rotation, (c, RotationReply::Opened), opened),
        call_ensures(Consumer::on_removal, (d, RemovalReply::Removed), removed),
        call_ensures(Consumer::on_committed, (e,), restore),
        call_ensures(Consumer::suspend_and_backoff, (f,), wait),
    ensures
        read == NextStep::GoOn,
        final(a).pending_event == Some(event),
        ended == NextStep::RemoveFile,
        !final(b).batch_open,
        opened == NextStep::GoOn,
        final(c).batch_open,
        removed == NextStep::CleanReceipts,
        final(e).pending_event is None,
        final(e).event_failures == 0,
        old(e).event_failures > 0 ==> restore == old(e).degraded,
        old(e).event_failures == 0 ==> !restore.lock && !restore.expiry,
        final(f).pending_event == old(f).pending_event,
        old(f).event_failures < u32::MAX ==> final(f).event_failures == old(f).event_failures + 1,
        500 <= wait.delay_ms <= 30_000,
{
    worker::backoff_grows(
        worker::one_more_failure(old(f).event_failures) as nat,
        worker::one_more_failure(old(f).event_failures) as nat,
    );
}

/// Marking takes down exactly the ready caches an event writes, restoring gives back exactly what was
/// taken down and is still as it was left, and a departure leaves no cache ready.
pub proof fn cache_calls_of_the_worker(
    d: &mut DegradedByRetry,
    affects: AffectedCaches,
    lock: &mut LockCache,
    expiry: &mut ExpiryCache,
    unit: (),
    e: &mut DegradedByRetry,
    lock_back: &mut LockCache,
    expiry_back: &mut ExpiryCache,
    incomplete: bool,
    abandoned: &mut LockCache,
    abandoned_expiry: &mut ExpiryCache,
    abandoned_bypass: &mut BypassCache,
    failed_bypass: &mut BypassCache,
)
    requires
        call_ensures(DegradedByRetry::mark, (d, affects, lock, expiry), unit),
        call_ensures(DegradedByRetry::restore, (e, lock_back, expiry_back), incomplete),
        call_ensures(worker::abandon_lock, (abandoned,), unit),
        call_ensures(worker::abandon_expiry, (abandoned_expiry,), unit),
        call_ensures(worker::abandon_bypass, (abandoned_bypass,), unit),
        call_ensures(worker::bypass_refresh_failed, (failed_bypass,), unit),
    ensures
        affects.lock && !old(d).lock && old(lock)@.state == 1 ==> final(lock)@.state == 3
            && final(d).lock,
        !(affects.lock && !old(d).lock && old(lock)@.state == 1) ==> final(lock)@ == old(lock)@
            && final(d).lock == old(d).lock,
        affects.expiry && !old(d).expiry && old(expiry)@.state == 1 ==> final(expiry)@.state == 3
            && final(d).expiry,
        !(affects.expiry && !old(d).expiry && old(expiry)@.state == 1) ==> final(expiry)@
            == old(expiry)@ && final(d).expiry == old(d).expiry,
        old(e).lock && old(lock_back)@.state == 3 ==> final(lock_back)@.state == 1,
        !(old(e).lock && old(lock_back)@.state == 3) ==> final(lock_back)@ == old(lock_back)@,
        old(e).expiry && old(expiry_back)@.state == 3 ==> final(expiry_back)@.state == 1,
        !(old(e).expiry && old(expiry_back)@.state == 3) ==> final(expiry_back)@
            == old(expiry_back)@,
        !final(e).lock && !final(e).expiry,
        final(abandoned)@.state == if old(abandoned)@.state == 1 {
            3
        } else {
            old(abandoned)@.state
        },
        final(abandoned_expiry)@.state == if old(abandoned_expiry)@.state == 1 {
            3
        } else {
            old(abandoned_expiry)@.state
        },
        final(abandoned_bypass)@.state == if old(abandoned_bypass)@.state == 1 {
            3
        } else {
            old(abandoned_bypass)@.state
        },
        final(failed_bypass)@.state == 0,
        final(failed_bypass)@.entries == old(failed_bypass)@.entries,
{
}

/// What the health record is after each thing that happens to it.
pub proof fn health_calls_are_exact(
    a: &mut WorkerHealth,
    unit: (),
    b: &mut WorkerHealth,
    contained: bool,
    c: &mut WorkerHealth,
    now: i64,
    d: &mut WorkerHealth,
    observed: i64,
    cleared: bool,
    e: &mut WorkerHealth,
    reason: PausedReason,
    due: bool,
    f: &mut WorkerHealth,
    since: Option<i64>,
    settled: bool,
)
    requires
        call_ensures(worker_health::mark_running, (a,), unit),
        call_ensures(worker::worker_left, (b, contained), unit),
        call_ensures(worker_health::mark_durable_failure, (c, now), unit),
        call_ensures(worker_health::clear_durable_degraded, (d, observed), cleared),
        call_ensures(worker_health::claim_warning_slot, (e, now, reason), due),
        call_ensures(worker::clear_durable_degradation_if_quiet, (f, since, now), settled),
    ensures
        final(a).running == 1,
        final(b).running == 0,
        final(b).stop_reason == if contained {
            2u32
        } else {
            1u32
        },
        final(c).durable_degraded_us != 0,
        now != 0 ==> final(c).durable_degraded_us == now,
        cleared <==> old(d).durable_degraded_us == observed,
        cleared ==> final(d).durable_degraded_us == 0,
        !cleared ==> *final(d) == *old(d),
        due ==> final(e).last_warn_us == now,
        !due ==> *final(e) == *old(e),
        settled <==> since is Some && now - since->0 >= 5_000_000 && old(f).durable_degraded_us
            == since->0,
        settled ==> final(f).durable_degraded_us == 0,
        !settled ==> *final(f) == *old(f),
{
}

/// What attempts, failures and looks of a suspended worker come to.
pub proof fn failure_calls_are_counted(
    report: HydrationReport,
    failures: &mut u32,
    step: HydrationStep,
    health: &mut WorkerHealth,
    io_failures: &mut u32,
    now: i64,
    wait: Backoff,
    s: &mut Suspension,
    shutdown: bool,
    current: QueueState,
    look: SuspendStep,
    pending: &mut PendingState,
    token: ClaimToken,
    subid: u32,
    succeeded: bool,
    commit: bool,
)
    requires
        call_ensures(worker::hydration_step, (report, failures), step),
        call_ensures(worker::handle_journal_io_failure, (health, io_failures, now), wait),
        call_ensures(Suspension::observe, (s, shutdown, current), look),
        call_ensures(worker::finish_event, (pending, Some(token), subid, succeeded), commit),
    ensures
        step.usable <==> report != HydrationReport::Failed,
        step.mark_not_ready <==> report == HydrationReport::Failed,
        report == HydrationReport::Complete ==> *final(failures) == *old(failures) && !step.warn,
        report != HydrationReport::Complete && *old(failures) < u32::MAX ==> *final(failures)
            == *old(failures) + 1,
        final(health).durable_degraded_us != 0,
        *old(io_failures) < u32::MAX ==> *final(io_failures) == *old(io_failures) + 1,
        *old(io_failures) == 0 ==> wait.delay_ms == 500 && wait.warn,
        shutdown <==> look == SuspendStep::Shutdown,
        !shutdown && current != QueueState::Corrupt <==> look == SuspendStep::Resume,
        !shutdown && current == QueueState::Corrupt && old(s).reports < u32::MAX
            ==> final(s).reports == old(s).reports + 1,
        commit <==> succeeded,
        succeeded ==> final(pending)@.ack is Some && final(pending)@.ack->0.token == token
            && final(pending)@.ack->0.subid == subid,
        !succeeded ==> final(pending)@ == old(pending)@,
        final(pending)@.ops == old(pending)@.ops,
{
}

} // verus!
