//! What holds of sessions across several of their operations.

use vstd::prelude::*;
use crate::auto_lock::LockState;
use crate::credentials::CredentialsModel;
use crate::dto::{LifecycleStateDto, LockEvent};
use crate::event::EventSink;
use crate::lifecycle::{code_of_lifecycle, in_background, lifecycle_locks, lifecycle_of_code, LIFECYCLE_GRACE_SECS};
use crate::session::{ticker_decision, AppModel, TickerAction};
use crate::state::{is_new_activity, SessionModel, TickModel};
use crate::time::{elapsed, seconds};

verus! {

/// The history of events with one more, where there is a sink to send it to.
pub open spec fn sent_after<V>(s: SessionModel<V>, event: LockEvent) -> Seq<LockEvent> {
    s.outlet.emit(event).sent
}

/// The session was unlocked in `before`; in `after` it holds neither vault nor
/// credentials, and the frontend was told so once.
pub open spec fn has_locked<V>(before: SessionModel<V>, after: SessionModel<V>) -> bool {
    &&& before.is_unlocked()
    &&& after.vault is None
    &&& after.credentials is None
    &&& after.outlet.sent == sent_after(before, LockEvent::Locked)
}

/// The session is as unlocked as before: same vault, same credentials, no event.
pub open spec fn stays_unlocked<V>(before: SessionModel<V>, after: SessionModel<V>) -> bool {
    &&& before.is_unlocked()
    &&& after.vault == before.vault
    &&& after.credentials == before.credentials
    &&& after.outlet.sent == before.outlet.sent
}

/// A lifecycle state survives its code.
pub proof fn law_lifecycle_code_round_trip(state: LifecycleStateDto)
    ensures
        lifecycle_of_code(code_of_lifecycle(state)) == state,
{
}

/// A code reads as the state that has it, and as `Resumed` if no state has it.
pub proof fn law_unknown_lifecycle_codes_mean_resumed(v: u8)
    ensures
        v <= 4 ==> code_of_lifecycle(lifecycle_of_code(v)) == v,
        v > 4 ==> lifecycle_of_code(v) == LifecycleStateDto::Resumed,
{
}

/// Once the user has been inactive for the idle timeout, two ticks lock the session,
/// whatever the second one finds.
pub proof fn law_idle_session_locks<V>(
    s: TickModel<V>,
    now: nat,
    activity: i64,
    code: u8,
    later: nat,
    later_activity: i64,
    later_code: u8,
)
    requires
        s.session.wf(),
        s.session.is_unlocked(),
        s.session.controller.is_idle(now),
        !is_new_activity(activity, s.last_seen),
    ensures
        has_locked(
            s.session,
            s.ticked(now, activity, code).ticked(later, later_activity, later_code).session,
        ),
{
}

/// A passed deadline is final: the next tick locks, whatever it finds.
pub proof fn law_expired_session_locks_at_next_tick<V>(
    s: TickModel<V>,
    now: nat,
    activity: i64,
    code: u8,
)
    requires
        s.session.is_unlocked(),
        s.session.controller.state == LockState::Expired,
    ensures
        has_locked(s.session, s.ticked(now, activity, code).session),
{
}

/// A tick locks for no other reason than the lifecycle or a passed deadline.
pub proof fn law_no_lock_without_a_reason<V>(s: TickModel<V>, now: nat, activity: i64, code: u8)
    requires
        s.session.is_unlocked(),
        s.session.controller.state == LockState::Active,
        !lifecycle_locks(lifecycle_of_code(code), s.grace_start, now),
    ensures
        stays_unlocked(s.session, s.ticked(now, activity, code).session),
{
}

/// Before the idle timeout is over, the deadline does not pass.
pub proof fn law_deadline_waits_for_the_timeout<V>(
    s: TickModel<V>,
    now: nat,
    activity: i64,
    code: u8,
)
    requires
        s.session.is_unlocked(),
        s.session.controller.state == LockState::Active,
        !s.session.controller.is_idle(now),
        !lifecycle_locks(lifecycle_of_code(code), s.grace_start, now),
        s.session.wf(),
    ensures
        stays_unlocked(s.session, s.ticked(now, activity, code).session),
        s.ticked(now, activity, code).session.controller.state == LockState::Active,
{
}

/// Reported activity starts the idle timeout anew: ticks within that time of the tick
/// that saw the report leave the deadline ahead, even where it would have passed.
pub proof fn law_activity_defers_the_lock<V>(
    s: TickModel<V>,
    now: nat,
    activity: i64,
    code: u8,
    later: nat,
    later_activity: i64,
    later_code: u8,
)
    requires
        s.session.wf(),
        s.session.is_unlocked(),
        s.session.controller.state == LockState::Active,
        is_new_activity(activity, s.last_seen),
        !lifecycle_locks(lifecycle_of_code(code), s.grace_start, now),
        elapsed(now, later) < s.session.controller.idle_timeout,
        !lifecycle_locks(
            lifecycle_of_code(later_code),
            s.ticked(now, activity, code).grace_start,
            later,
        ),
    ensures
        ({
            let end = s.ticked(now, activity, code).ticked(later, later_activity, later_code);
            &&& stays_unlocked(s.session, end.session)
            &&& end.session.controller.state == LockState::Active
        }),
{
}

/// A tick takes a report of activity into account once: the same report does not defer
/// the lock a second time.
pub proof fn law_activity_counts_once<V>(
    s: TickModel<V>,
    now: nat,
    activity: i64,
    code: u8,
)
    ensures
        !is_new_activity(activity, s.ticked(now, activity, code).last_seen),
{
}

/// A detached frontend locks the session at the next tick.
pub proof fn law_detached_locks_at_once<V>(s: TickModel<V>, now: nat, activity: i64)
    requires
        s.session.is_unlocked(),
    ensures
        has_locked(
            s.session,
            s.ticked(now, activity, code_of_lifecycle(LifecycleStateDto::Detached)).session,
        ),
        s.ticked(now, activity, code_of_lifecycle(LifecycleStateDto::Detached)).grace_start is None,
{
}

/// The first tick in the background starts the grace time and does not lock for it. A
/// tick later in the background locks if the grace time is over, and otherwise leaves it
/// running from where it began. `Hidden` and `Paused` may take turns. The idle deadline
/// is taken to lie ahead.
pub proof fn law_background_grace<V>(
    s: TickModel<V>,
    start: nat,
    activity: i64,
    code: u8,
    later: nat,
    later_activity: i64,
    later_code: u8,
)
    requires
        s.session.is_unlocked(),
        s.grace_start is None,
        s.session.controller.state == LockState::Active,
        in_background(lifecycle_of_code(code)),
        in_background(lifecycle_of_code(later_code)),
        s.ticked(start, activity, code).session.controller.state == LockState::Active,
    ensures
        ({
            let first = s.ticked(start, activity, code);
            let second = first.ticked(later, later_activity, later_code);
            &&& stays_unlocked(s.session, first.session)
            &&& first.grace_start == Some(start)
            &&& if elapsed(start, later) >= seconds(LIFECYCLE_GRACE_SECS as nat) {
                has_locked(s.session, second.session) && second.grace_start is None
            } else {
                stays_unlocked(s.session, second.session) && second.grace_start == Some(start)
            }
        }),
{
}

/// A running grace time outlasts every tick in the background that comes before its end.
pub proof fn law_grace_keeps_running<V>(s: TickModel<V>, now: nat, activity: i64, code: u8)
    requires
        s.grace_start is Some,
        in_background(lifecycle_of_code(code)),
        elapsed(s.grace_start->0, now) < seconds(LIFECYCLE_GRACE_SECS as nat),
    ensures
        s.ticked(now, activity, code).grace_start == s.grace_start,
{
}

/// An inactive frontend neither starts nor ends a grace time, and locks no session whose
/// idle deadline lies ahead.
pub proof fn law_inactive_changes_nothing<V>(s: TickModel<V>, now: nat, activity: i64)
    requires
        s.session.is_unlocked(),
        s.session.controller.state == LockState::Active,
    ensures
        ({
            let end = s.ticked(now, activity, code_of_lifecycle(LifecycleStateDto::Inactive));
            &&& end.grace_start == s.grace_start
            &&& stays_unlocked(s.session, end.session)
        }),
{
}

/// A frontend that comes back before the idle deadline ends its grace time, however long
/// that ran, and its return counts as activity. Going to the background again starts a
/// new grace time.
pub proof fn law_resuming_cancels_the_grace<V>(
    s: TickModel<V>,
    now: nat,
    activity: i64,
    later: nat,
    later_activity: i64,
    later_code: u8,
)
    requires
        s.session.is_unlocked(),
        s.grace_start is Some,
        s.session.controller.state == LockState::Active,
        s.ticked(now, activity, code_of_lifecycle(LifecycleStateDto::Resumed)).session.controller.state
            == LockState::Active,
        in_background(lifecycle_of_code(later_code)),
    ensures
        ({
            let back = s.ticked(now, activity, code_of_lifecycle(LifecycleStateDto::Resumed));
            let away = back.ticked(later, later_activity, later_code);
            &&& stays_unlocked(s.session, back.session)
            &&& back.grace_start is None
            &&& back.session.controller.last_activity == now
            &&& stays_unlocked(s.session, away.session)
            &&& away.grace_start == Some(later)
        }),
{
}

/// Ticks of a locked session open nothing and send nothing.
pub proof fn law_locked_session_stays_quiet<V>(s: TickModel<V>, now: nat, activity: i64, code: u8)
    requires
        !s.session.is_unlocked(),
    ensures
        ({
            let end = s.ticked(now, activity, code);
            &&& !end.session.is_unlocked()
            &&& end.session.credentials == s.session.credentials
            &&& end.session.outlet.sent == s.session.outlet.sent
        }),
{
}

/// Whichever way a session locks, the credentials go with the vault and the frontend is
/// told once.
pub proof fn law_every_lock_path_drops_the_credentials<V>(
    s: AppModel<V>,
    now: nat,
    activity: i64,
    code: u8,
)
    requires
        s.wf(),
        s.session.is_unlocked(),
    ensures
        has_locked(s.session, s.locked().session),
        has_locked(s.session, s.shut_down().session),
        has_locked(s.session, s.session.recovered()),
        ({
            let end = s.ticked(now, activity, code).session;
            stays_unlocked(s.session, end) || has_locked(s.session, end)
        }),
        ({
            let end = s.driven(now).session;
            stays_unlocked(s.session, end) || has_locked(s.session, end)
        }),
{
}

/// The ticker and ticks made by hand follow the same rules, and neither touches what the
/// other remembers of grace time and of activity seen.
pub proof fn law_ticker_and_manual_ticks_keep_apart<V>(
    s: AppModel<V>,
    now: nat,
    activity: i64,
    code: u8,
)
    ensures
        s.ticked(now, activity, code).ticker() == s.ticker().ticked(now, activity, code),
        s.ticked(now, activity, code).manual_grace_start == s.manual_grace_start,
        s.ticked(now, activity, code).manual_last_seen == s.manual_last_seen,
        s.driven(now).by_hand() == s.by_hand().ticked(now, s.last_activity, s.lifecycle_state),
        s.driven(now).grace_start == s.grace_start,
        s.driven(now).last_seen == s.last_seen,
{
}

/// Locking a second time changes nothing and sends nothing.
pub proof fn law_locking_is_idempotent<V>(s: AppModel<V>)
    ensures
        s.locked().locked() == s.locked(),
{
}

/// Shutting down a second time changes nothing and finds no ticker to wait for.
pub proof fn law_shutdown_is_idempotent<V>(s: AppModel<V>)
    ensures
        s.shut_down().shut_down() == s.shut_down(),
        !s.shut_down().ticker_attached,
        s.shut_down().ticker_shutdown,
{
}

/// Unlocking and locking again leads back to a locked session over the same vaults and
/// the same sink, which was sent `Unlocked` and then `Locked`. It can be unlocked again.
pub proof fn law_unlock_lock_cycle<V>(
    s: SessionModel<V>,
    vault: V,
    credentials: CredentialsModel,
    now: nat,
)
    requires
        s.wf(),
        !s.is_unlocked(),
    ensures
        ({
            let open = s.opened(vault, credentials, now);
            let end = open.after_lock_request();
            &&& open.vault == Some(vault)
            &&& open.credentials == Some(credentials)
            &&& open.controller.state == LockState::Active
            &&& open.wf()
            &&& end == (SessionModel {
                controller: end.controller,
                outlet: end.outlet,
                ..s
            })
            &&& end.outlet.sink == s.outlet.sink
            &&& end.controller.state == LockState::Locked
            &&& end.controller.idle_timeout == s.controller.idle_timeout
            &&& end.wf()
            &&& s.outlet.sink is Some ==> end.outlet.sent == s.outlet.sent.push(
                LockEvent::Unlocked,
            ).push(LockEvent::Locked)
            &&& s.outlet.sink is None ==> end.outlet.sent == s.outlet.sent
        }),
{
}

/// The first tick after an unlock counts the unlock itself as activity: the idle timeout
/// runs from there.
pub proof fn law_unlock_starts_the_timeout<V>(
    s: TickModel<V>,
    vault: V,
    credentials: CredentialsModel,
    opened_at: nat,
    millis: i64,
    now: nat,
    code: u8,
)
    requires
        s.session.wf(),
        !s.session.is_unlocked(),
        is_new_activity(millis, s.last_seen),
        !lifecycle_locks(lifecycle_of_code(code), s.grace_start, now),
    ensures
        ({
            let open = TickModel {
                session: s.session.opened(vault, credentials, opened_at),
                ..s
            };
            let end = open.ticked(now, millis, code);
            &&& stays_unlocked(open.session, end.session)
            &&& end.session.controller.state == LockState::Active
            &&& end.session.controller.last_activity == now
        }),
{
}

/// What one tick finds.
pub struct TickInput {
    pub now: nat,
    pub activity: i64,
    pub code: u8,
}

/// A session after a series of ticks.
pub open spec fn after_ticks<V>(s: TickModel<V>, ticks: Seq<TickInput>) -> TickModel<V>
    decreases ticks.len(),
{
    if ticks.len() == 0 {
        s
    } else {
        let last = ticks.last();
        after_ticks(s, ticks.drop_last()).ticked(last.now, last.activity, last.code)
    }
}

/// An idle session is locked after any series of two or more ticks, however many they
/// are and whatever all but the first of them find, and the frontend is told once.
pub proof fn law_idle_session_locks_under_any_ticks<V>(s: TickModel<V>, ticks: Seq<TickInput>)
    requires
        s.session.wf(),
        s.session.is_unlocked(),
        ticks.len() >= 2,
        s.session.controller.is_idle(ticks[0].now),
        !is_new_activity(ticks[0].activity, s.last_seen),
    ensures
        has_locked(s.session, after_ticks(s, ticks).session),
    decreases ticks.len(),
{
    let last = ticks.last();
    let before = ticks.drop_last();
    if ticks.len() == 2 {
        let first = ticks[0];
        assert(before.last() == first);
        assert(after_ticks(s, before.drop_last()) == s);
        assert(after_ticks(s, before) == s.ticked(first.now, first.activity, first.code));
        law_idle_session_locks(
            s,
            first.now,
            first.activity,
            first.code,
            last.now,
            last.activity,
            last.code,
        );
    } else {
        law_idle_session_locks_under_any_ticks(s, before);
        law_locked_session_stays_quiet(after_ticks(s, before), last.now, last.activity, last.code);
    }
}

/// A frontend that stays in the background ends up locked: at the latest with the first
/// tick after the grace time, however many ticks came before it.
pub proof fn law_background_ends_in_a_lock<V>(s: TickModel<V>, ticks: Seq<TickInput>)
    requires
        s.session.wf(),
        s.grace_start is Some,
        ticks.len() > 0,
        forall|i: int| 0 <= i < ticks.len() ==> in_background(
            lifecycle_of_code((#[trigger] ticks[i]).code),
        ),
        elapsed(s.grace_start->0, ticks.last().now) >= seconds(LIFECYCLE_GRACE_SECS as nat),
    ensures
        after_ticks(s, ticks).session.vault is None,
        after_ticks(s, ticks).session.credentials is None,
{
    let last = ticks.last();
    let before = ticks.drop_last();
    lemma_background_ticks(s, before);
    assert(in_background(lifecycle_of_code(ticks[ticks.len() - 1].code)));
}

/// Ticks in the background lock the session or leave its grace time running.
proof fn lemma_background_ticks<V>(s: TickModel<V>, ticks: Seq<TickInput>)
    requires
        s.session.wf(),
        s.grace_start is Some,
        forall|i: int| 0 <= i < ticks.len() ==> in_background(
            lifecycle_of_code((#[trigger] ticks[i]).code),
        ),
    ensures
        after_ticks(s, ticks).session.vault is Some
            ==> after_ticks(s, ticks).grace_start == s.grace_start,
        after_ticks(s, ticks).session.vault is Some
            <==> after_ticks(s, ticks).session.credentials is Some,
    decreases ticks.len(),
{
    if ticks.len() > 0 {
        let before = ticks.drop_last();
        assert forall|i: int| 0 <= i < before.len() implies in_background(
            lifecycle_of_code((#[trigger] before[i]).code),
        ) by {
            assert(before[i] == ticks[i]);
        }
        lemma_background_ticks(s, before);
        assert(in_background(lifecycle_of_code(ticks[ticks.len() - 1].code)));
    }
}

/// Something that happens to a session.
pub enum SessionStep<V> {
    Attach { sink: Option<Box<dyn EventSink<LockEvent>>> },
    Activity { millis: i64 },
    Lifecycle { state: LifecycleStateDto },
    Open { vault: V, credentials: CredentialsModel, now: nat, millis: i64 },
    Lock,
    Tick { now: nat, activity: i64, code: u8 },
    DriveTick { now: nat },
    Recover,
    Shutdown,
}

/// A session after one step. An unlock of an unlocked session changes nothing.
pub open spec fn after_step<V>(s: AppModel<V>, step: SessionStep<V>) -> AppModel<V> {
    match step {
        SessionStep::Attach { sink } => AppModel { session: s.session.with_sink(sink), ..s },
        SessionStep::Activity { millis } => AppModel { last_activity: millis, ..s },
        SessionStep::Lifecycle { state } => AppModel {
            lifecycle_state: code_of_lifecycle(state),
            ..s
        },
        SessionStep::Open { vault, credentials, now, millis } => if s.session.is_unlocked() {
            s
        } else {
            AppModel {
                session: s.session.opened(vault, credentials, now),
                last_activity: millis,
                ..s
            }
        },
        SessionStep::Lock => s.locked(),
        SessionStep::Tick { now, activity, code } => s.ticked(now, activity, code),
        SessionStep::DriveTick { now } => s.driven(now),
        SessionStep::Recover => s.entered(true),
        SessionStep::Shutdown => s.shut_down(),
    }
}

/// A session after a series of steps.
pub open spec fn after_steps<V>(s: AppModel<V>, steps: Seq<SessionStep<V>>) -> AppModel<V>
    decreases steps.len(),
{
    if steps.len() == 0 {
        s
    } else {
        after_step(after_steps(s, steps.drop_last()), steps.last())
    }
}

/// Whatever happens to a consistent session, as every new one is: it holds credentials exactly while a vault is open,
/// no vault is open under a locked controller, the last event that the frontend was sent
/// is the truth, and what follows an `Unlocked` event is a `Locked` one. The vaults it
/// knows and its idle timeout stay what they were.
pub proof fn law_every_history_is_consistent<V>(s: AppModel<V>, steps: Seq<SessionStep<V>>)
    requires
        s.session.wf(),
    ensures
        after_steps(s, steps).session.wf(),
        after_steps(s, steps).session.registry == s.session.registry,
        after_steps(s, steps).session.controller.idle_timeout == s.session.controller.idle_timeout,
    decreases steps.len(),
{
    if steps.len() > 0 {
        law_every_history_is_consistent(s, steps.drop_last());
        lemma_step_keeps_wf(after_steps(s, steps.drop_last()), steps.last());
    }
}

/// One step keeps the session's invariant.
proof fn lemma_step_keeps_wf<V>(s: AppModel<V>, step: SessionStep<V>)
    requires
        s.session.wf(),
    ensures
        after_step(s, step).session.wf(),
{
}

/// Events take turns, and the first is `Unlocked`.
pub open spec fn strictly_alternates(sent: Seq<LockEvent>) -> bool {
    forall|i: int|
        0 <= i < sent.len() ==> #[trigger] sent[i] == (if i % 2 == 0 {
            LockEvent::Unlocked
        } else {
            LockEvent::Locked
        })
}

/// A sink that is attached to a locked session and stays attached is sent `Unlocked` and
/// `Locked` in strict turns, as long as no holder of the session fails half-way. A vault
/// is open exactly when the number of events is odd.
pub proof fn law_events_take_turns<V>(s: AppModel<V>, steps: Seq<SessionStep<V>>)
    requires
        !s.session.is_unlocked(),
        s.session.outlet.sink is Some,
        s.session.outlet.sent.len() == 0,
        forall|i: int|
            0 <= i < steps.len() ==> !(#[trigger] steps[i] is Attach) && !(steps[i] is Recover),
    ensures
        ({
            let end = after_steps(s, steps).session;
            &&& end.outlet.sink == s.session.outlet.sink
            &&& strictly_alternates(end.outlet.sent)
            &&& end.is_unlocked() <==> end.outlet.sent.len() % 2 == 1
        }),
    decreases steps.len(),
{
    if steps.len() > 0 {
        let before = steps.drop_last();
        assert forall|i: int| 0 <= i < before.len() implies !(#[trigger] before[i] is Attach) && !(
        before[i] is Recover) by {
            assert(before[i] == steps[i]);
        }
        law_events_take_turns(s, before);
        assert(!(steps[steps.len() - 1] is Attach) && !(steps[steps.len() - 1] is Recover));
    }
}

/// Entering a session that no holder left poisoned changes nothing. Entering a poisoned
/// one drops vault and credentials and tells the frontend, and keeps the vaults it knows,
/// the controller and the sink.
pub proof fn law_entering_a_session<V>(s: AppModel<V>)
    ensures
        s.entered(false) == s,
        ({
            let end = s.entered(true).session;
            &&& end.vault is None
            &&& end.credentials is None
            &&& end.outlet.sent == sent_after(s.session, LockEvent::Locked)
            &&& end.outlet.sink == s.session.outlet.sink
            &&& end.registry == s.session.registry
            &&& end.controller == s.session.controller
        }),
{
}

/// A session after steps that each enter it anew while it is poisoned.
pub open spec fn after_poisoned_steps<V>(s: AppModel<V>, steps: Seq<SessionStep<V>>) -> AppModel<V>
    decreases steps.len(),
{
    if steps.len() == 0 {
        s
    } else {
        after_step(after_poisoned_steps(s, steps.drop_last()).entered(true), steps.last())
    }
}

/// A session that stays poisoned shows neither vault nor credentials to anyone who enters
/// it, whatever was done before: an unlock is gone by the next look. The session stays
/// consistent.
pub proof fn law_poisoned_session_shows_no_vault<V>(s: AppModel<V>, steps: Seq<SessionStep<V>>)
    requires
        s.session.wf(),
    ensures
        ({
            let seen = after_poisoned_steps(s, steps).entered(true).session;
            &&& seen.vault is None
            &&& seen.credentials is None
            &&& seen.wf()
        }),
        after_poisoned_steps(s, steps).session.wf(),
    decreases steps.len(),
{
    if steps.len() > 0 {
        let before = after_poisoned_steps(s, steps.drop_last());
        law_poisoned_session_shows_no_vault(s, steps.drop_last());
        lemma_step_keeps_wf(before.entered(true), steps.last());
    }
    lemma_step_keeps_wf(after_poisoned_steps(s, steps), SessionStep::Recover);
}

/// Only the ticker's ticks move what the ticker remembers, and only ticks by hand move
/// what those remember: both carry their account over from one tick to the next, whatever
/// happens in between.
pub proof fn law_ticks_carry_their_memory_over<V>(s: AppModel<V>, step: SessionStep<V>)
    ensures
        !(step is Tick) ==> {
            &&& after_step(s, step).grace_start == s.grace_start
            &&& after_step(s, step).last_seen == s.last_seen
        },
        !(step is DriveTick) ==> {
            &&& after_step(s, step).manual_grace_start == s.manual_grace_start
            &&& after_step(s, step).manual_last_seen == s.manual_last_seen
        },
{
}

/// What the ticker finds when it wakes up.
pub struct Wakeup {
    /// It has been told to stop.
    pub shutdown: bool,
    /// The session is free and usable.
    pub available: bool,
    pub input: TickInput,
}

/// The ticker has stopped by the end of these wake-ups.
pub open spec fn has_stopped(wakeups: Seq<Wakeup>) -> bool {
    exists|i: int| 0 <= i < wakeups.len() && (#[trigger] wakeups[i]).shutdown
}

/// A session after the ticker's wake-ups.
pub open spec fn after_wakeups<V>(s: AppModel<V>, wakeups: Seq<Wakeup>) -> AppModel<V>
    decreases wakeups.len(),
{
    if wakeups.len() == 0 {
        s
    } else {
        let before = after_wakeups(s, wakeups.drop_last());
        let last = wakeups.last();
        if !has_stopped(wakeups.drop_last()) && ticker_decision(last.shutdown, last.available)
            == TickerAction::Tick {
            before.ticked(last.input.now, last.input.activity, last.input.code)
        } else {
            before
        }
    }
}

/// What the wake-ups found, one after the other.
pub open spec fn inputs(wakeups: Seq<Wakeup>) -> Seq<TickInput> {
    wakeups.map_values(|w: Wakeup| w.input)
}

/// Until it is told to stop, a ticker that finds the session free at every wake-up ticks
/// it each time, with what it finds then and with what it remembers from the tick before.
/// Everything else of the session's surroundings stays as it was.
pub proof fn law_ticker_ticks_at_every_wakeup<V>(s: AppModel<V>, wakeups: Seq<Wakeup>)
    requires
        forall|i: int|
            0 <= i < wakeups.len() ==> !(#[trigger] wakeups[i]).shutdown && wakeups[i].available,
    ensures
        after_wakeups(s, wakeups).ticker() == after_ticks(s.ticker(), inputs(wakeups)),
        after_wakeups(s, wakeups) == (AppModel {
            session: after_wakeups(s, wakeups).session,
            grace_start: after_wakeups(s, wakeups).grace_start,
            last_seen: after_wakeups(s, wakeups).last_seen,
            ..s
        }),
    decreases wakeups.len(),
{
    if wakeups.len() > 0 {
        let before = wakeups.drop_last();
        assert forall|i: int| 0 <= i < before.len() implies !(#[trigger] before[i]).shutdown
            && before[i].available by {
            assert(before[i] == wakeups[i]);
        }
        law_ticker_ticks_at_every_wakeup(s, before);
        assert(inputs(wakeups).drop_last() =~= inputs(before));
        assert(!wakeups[wakeups.len() - 1].shutdown && wakeups[wakeups.len() - 1].available);
        assert(!has_stopped(before));
    }
}

/// A ticker that was told to stop does nothing to the session any more.
pub proof fn law_stopped_ticker_stays_stopped<V>(
    s: AppModel<V>,
    wakeups: Seq<Wakeup>,
    next: Wakeup,
)
    requires
        has_stopped(wakeups) || next.shutdown,
    ensures
        after_wakeups(s, wakeups.push(next)) == after_wakeups(s, wakeups),
        has_stopped(wakeups.push(next)),
{
    let all = wakeups.push(next);
    assert(all.drop_last() =~= wakeups);
    if next.shutdown {
        assert(all[wakeups.len() as int].shutdown);
    } else {
        let i = choose|i: int| 0 <= i < wakeups.len() && (#[trigger] wakeups[i]).shutdown;
        assert(all[i].shutdown);
    }
}

} // verus!
