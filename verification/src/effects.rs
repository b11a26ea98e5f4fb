//! What the operations do, said of their inputs and results alone: in clock time, by the
//! codes and states that a frontend reports, and field by field.

use vstd::prelude::*;
use crate::auto_lock::{AutoLockModel, LockState, OsLockReason};
use crate::credentials::{keyfile_arg_view, keyfile_ref_view, keyfile_view, CredentialsModel, Keyfile, KeyfileModel};
use crate::dto::{AppInitConfig, KeyfileRef, LifecycleStateDto, LockEvent};
use crate::error::{FalachApiError, SecurityError};
use crate::event::EventSink;
use crate::laws::{after_ticks, TickInput};
use crate::lifecycle::{code_of_lifecycle, grace_after, grace_over, in_background, lifecycle_locks, lifecycle_of_code, moment_view, returned_in_grace};
use crate::outlet::OutletModel;
use crate::registry::{is_registered, registered_path, RegisteredVault, VaultEntry};
use crate::session::{is_new_session, selects, ticker_decision, AppModel, AppSession, PathSelection, TickerAction};
use crate::state::{alternates, given_credentials, is_new_activity, SessionModel, TickModel, UnlockRequest};
use crate::time::{elapsed, epoch_millis, is_wall_clock_millis, seconds, wall_clock_showed, Moment};

verus! {

// ---------------------------------------------------------------------------
// Clock time
// ---------------------------------------------------------------------------
/// Time that has passed leads from the earlier moment to the later one, and none has
/// passed since a moment that is still to come.
pub proof fn law_elapsed_leads_from_then_to_now(since: nat, now: nat)
    ensures
        since <= now ==> since + elapsed(since, now) == now,
        now <= since ==> elapsed(since, now) == 0,
{
}

/// A second is a thousand million nanoseconds.
pub proof fn law_seconds_in_nanoseconds(secs: nat)
    ensures
        seconds(secs) == secs * 1_000_000_000,
{
}

/// The milliseconds of a wall clock are the whole ones that lie before its reading, as
/// long as they fit, the largest number there is beyond that, and zero before the epoch.
pub proof fn law_wall_clock_counts_whole_milliseconds(n: u128)
    ensures
        epoch_millis(None) == 0,
        n < 9_223_372_036_854_775_808_000_000 ==> {
            &&& epoch_millis(Some(n)) * 1_000_000 <= n
            &&& n < (epoch_millis(Some(n)) + 1) * 1_000_000
        },
        n >= 9_223_372_036_854_775_808_000_000 ==> epoch_millis(Some(n)) == i64::MAX,
{
}

/// A time of the wall clock is the whole milliseconds of some reading.
pub proof fn law_time_of_the_wall_clock(millis: i64)
    requires
        is_wall_clock_millis(millis),
    ensures
        millis >= 0,
        exists|nanos: Option<u128>| #[trigger]
            wall_clock_showed(nanos) && match nanos {
                None => millis == 0,
                Some(n) => millis * 1_000_000 <= n && (n < (millis + 1) * 1_000_000 || millis
                    == i64::MAX),
            },
{
    let nanos = choose|nanos: Option<u128>| #[trigger]
        wall_clock_showed(nanos) && millis == epoch_millis(nanos);
    assert(wall_clock_showed(nanos));
}

/// A later reading of the wall clock never gives fewer milliseconds.
pub proof fn law_wall_clock_is_monotone(m: u128, n: u128)
    requires
        m <= n,
    ensures
        0 <= epoch_millis(Some(m)) <= epoch_millis(Some(n)) <= i64::MAX,
{
    assert(m / 1_000_000 <= n / 1_000_000) by (nonlinear_arith)
        requires
            m <= n,
    ;
}

// ---------------------------------------------------------------------------
// Lifecycle states and codes
// ---------------------------------------------------------------------------
/// Each state has its own code.
pub proof fn law_codes_of_the_states()
    ensures
        code_of_lifecycle(LifecycleStateDto::Resumed) == 0,
        code_of_lifecycle(LifecycleStateDto::Inactive) == 1,
        code_of_lifecycle(LifecycleStateDto::Hidden) == 2,
        code_of_lifecycle(LifecycleStateDto::Paused) == 3,
        code_of_lifecycle(LifecycleStateDto::Detached) == 4,
{
}

/// Each code stands for its own state, and every other one for a frontend in use.
pub proof fn law_states_of_the_codes(v: u8)
    ensures
        lifecycle_of_code(v) == LifecycleStateDto::Inactive <==> v == 1,
        lifecycle_of_code(v) == LifecycleStateDto::Hidden <==> v == 2,
        lifecycle_of_code(v) == LifecycleStateDto::Paused <==> v == 3,
        lifecycle_of_code(v) == LifecycleStateDto::Detached <==> v == 4,
        lifecycle_of_code(v) == LifecycleStateDto::Resumed <==> v == 0 || v > 4,
{
}

/// Hidden and paused frontends are in the background, and no others.
pub proof fn law_background_is_hidden_or_paused()
    ensures
        in_background(LifecycleStateDto::Hidden),
        in_background(LifecycleStateDto::Paused),
        !in_background(LifecycleStateDto::Resumed),
        !in_background(LifecycleStateDto::Inactive),
        !in_background(LifecycleStateDto::Detached),
{
}

/// A grace time is over fifteen seconds after it began, and one that never began is not.
pub proof fn law_grace_lasts_fifteen_seconds(started: nat, now: nat)
    ensures
        grace_over(Some(started), now) <==> now >= started + 15_000_000_000,
        !grace_over(None, now),
{
}

/// The lifecycle asks for a lock when the frontend is detached, and when it is hidden or
/// paused fifteen seconds after its grace time began; otherwise never.
pub proof fn law_when_the_lifecycle_locks(grace: Option<nat>, started: nat, now: nat)
    ensures
        lifecycle_locks(LifecycleStateDto::Detached, grace, now),
        !lifecycle_locks(LifecycleStateDto::Resumed, grace, now),
        !lifecycle_locks(LifecycleStateDto::Inactive, grace, now),
        !lifecycle_locks(LifecycleStateDto::Hidden, None, now),
        !lifecycle_locks(LifecycleStateDto::Paused, None, now),
        lifecycle_locks(LifecycleStateDto::Hidden, Some(started), now) <==> now >= started
            + 15_000_000_000,
        lifecycle_locks(LifecycleStateDto::Paused, Some(started), now) <==> now >= started
            + 15_000_000_000,
{
}

/// A grace time begins with the first look at a hidden or paused frontend, runs on for
/// fifteen seconds, and ends when the frontend comes back or goes away for good. An
/// inactive frontend leaves it alone.
pub proof fn law_course_of_the_grace_time(grace: Option<nat>, started: nat, now: nat)
    ensures
        grace_after(LifecycleStateDto::Resumed, grace, now) is None,
        grace_after(LifecycleStateDto::Detached, grace, now) is None,
        grace_after(LifecycleStateDto::Inactive, grace, now) == grace,
        grace_after(LifecycleStateDto::Hidden, None, now) == Some(now),
        grace_after(LifecycleStateDto::Paused, None, now) == Some(now),
        now < started + 15_000_000_000 ==> {
            &&& grace_after(LifecycleStateDto::Hidden, Some(started), now) == Some(started)
            &&& grace_after(LifecycleStateDto::Paused, Some(started), now) == Some(started)
        },
        now >= started + 15_000_000_000 ==> {
            &&& grace_after(LifecycleStateDto::Hidden, Some(started), now) is None
            &&& grace_after(LifecycleStateDto::Paused, Some(started), now) is None
        },
{
}

/// Coming back counts for a resumed frontend with a grace time running, and for no other.
pub proof fn law_who_returns_in_grace(grace: Option<nat>)
    ensures
        returned_in_grace(LifecycleStateDto::Resumed, grace) <==> grace is Some,
        !returned_in_grace(LifecycleStateDto::Inactive, grace),
        !returned_in_grace(LifecycleStateDto::Hidden, grace),
        !returned_in_grace(LifecycleStateDto::Paused, grace),
        !returned_in_grace(LifecycleStateDto::Detached, grace),
{
}

/// A moment that is there is read as its nanoseconds, one that is not as nothing.
pub proof fn law_optional_moments(moment: Moment)
    ensures
        moment_view(Some(moment)) == Some(moment@),
        moment_view(None) is None,
{
}

// ---------------------------------------------------------------------------
// The idle controller
// ---------------------------------------------------------------------------
/// A new controller is locked and keeps the timeout that it is given, whatever that is.
pub proof fn law_controller_keeps_its_timeout(idle_timeout: nat)
    ensures
        AutoLockModel::initial(idle_timeout).idle_timeout == idle_timeout,
        AutoLockModel::initial(idle_timeout).state == LockState::Locked,
        AutoLockModel::initial(idle_timeout).lock_reason is None,
{
}

/// No operation of the controller changes its timeout.
pub proof fn law_timeout_never_changes(c: AutoLockModel, now: nat, reason: OsLockReason)
    ensures
        c.unlocked(now).idle_timeout == c.idle_timeout,
        c.locked(reason).idle_timeout == c.idle_timeout,
        c.with_activity(now).idle_timeout == c.idle_timeout,
        c.ticked(now).idle_timeout == c.idle_timeout,
{
}

/// An unlock makes the controller active and starts the timeout there, from any state.
pub proof fn law_unlock_makes_active(c: AutoLockModel, now: nat)
    ensures
        c.unlocked(now).state == LockState::Active,
        c.unlocked(now).last_activity == now,
        c.unlocked(now).lock_reason == c.lock_reason,
{
}

/// A lock on request holds from any state, and its reason is kept.
pub proof fn law_lock_makes_locked(c: AutoLockModel, reason: OsLockReason)
    ensures
        c.locked(reason).state == LockState::Locked,
        c.locked(reason).lock_reason == Some(reason),
        c.locked(reason).last_activity == c.last_activity,
{
}

/// Activity of an active controller is its last activity from then on; an expired or
/// locked controller takes no notice.
pub proof fn law_activity_of_the_controller(c: AutoLockModel, now: nat)
    ensures
        c.state == LockState::Active ==> c.with_activity(now).last_activity == now,
        c.state != LockState::Active ==> c.with_activity(now).last_activity == c.last_activity,
        c.with_activity(now).state == c.state,
        c.with_activity(now).lock_reason == c.lock_reason,
{
}

/// An active controller expires at the first tick that comes its whole timeout after the
/// last activity or later, for every timeout, and stays active at every tick before. An
/// expired one is locked by a tick, and a locked one stays locked.
pub proof fn law_tick_of_the_controller(c: AutoLockModel, now: nat)
    requires
        c.idle_timeout > 0,
    ensures
        c.state == LockState::Active && now >= c.last_activity + c.idle_timeout ==> c.ticked(
            now,
        ).state == LockState::Expired,
        c.state == LockState::Active && now < c.last_activity + c.idle_timeout ==> c.ticked(
            now,
        ).state == LockState::Active,
        c.state == LockState::Expired ==> c.ticked(now).state == LockState::Locked,
        c.state == LockState::Locked ==> c.ticked(now).state == LockState::Locked,
        c.ticked(now).last_activity == c.last_activity,
        c.ticked(now).lock_reason == c.lock_reason,
        c.is_idle(now) <==> now >= c.last_activity + c.idle_timeout,
{
}

// ---------------------------------------------------------------------------
// Credentials and vaults
// ---------------------------------------------------------------------------
/// The credentials of an unlock are the password and the keyfile that were given, by path
/// or by bytes, and no keyfile if none was.
pub proof fn law_credentials_are_what_was_given(
    password: Seq<char>,
    keyfile: Option<KeyfileModel>,
    path: String,
    bytes: Vec<u8>,
)
    ensures
        given_credentials(password, keyfile).master == password,
        given_credentials(password, keyfile).keyfile == keyfile,
        keyfile_arg_view(Some(KeyfileRef::Path(path))) == Some(KeyfileModel::Path(path@)),
        keyfile_arg_view(Some(KeyfileRef::Bytes(bytes))) == Some(KeyfileModel::Bytes(bytes@)),
        keyfile_arg_view(None) is None,
        keyfile_ref_view(KeyfileRef::Path(path)) == KeyfileModel::Path(path@),
        keyfile_ref_view(KeyfileRef::Bytes(bytes)) == KeyfileModel::Bytes(bytes@),
{
}

/// A keyfile that is there is read as what it holds, one that is not as nothing.
pub proof fn law_optional_keyfiles(keyfile: Keyfile)
    ensures
        keyfile_view(Some(keyfile)) == Some(keyfile@),
        keyfile_view(None) is None,
{
}

/// Different passwords or keyfiles make different credentials.
pub proof fn law_credentials_tell_apart(
    password: Seq<char>,
    keyfile: Option<KeyfileModel>,
    other_password: Seq<char>,
    other_keyfile: Option<KeyfileModel>,
)
    requires
        given_credentials(password, keyfile) == given_credentials(other_password, other_keyfile),
    ensures
        password == other_password,
        keyfile == other_keyfile,
{
    assert(given_credentials(password, keyfile).master == password);
    assert(given_credentials(other_password, other_keyfile).master == other_password);
    assert(given_credentials(password, keyfile).keyfile == keyfile);
    assert(given_credentials(other_password, other_keyfile).keyfile == other_keyfile);
}

/// A request is read as its path, its password and its keyfile.
pub proof fn law_request_is_read_in_full(request: UnlockRequest)
    ensures
        request@.path == request.path@,
        request@.credentials.master == request.master@,
        request.keyfile is None ==> request@.credentials.keyfile is None,
        request.keyfile is Some ==> request@.credentials.keyfile == Some(request.keyfile->0@),
{
}

/// The path under a name is that of the first entry of that name.
pub proof fn law_path_is_that_of_the_first_entry(
    entries: Seq<VaultEntry>,
    name: Seq<char>,
    i: int,
)
    requires
        0 <= i < entries.len(),
        entries[i].name == name,
        forall|j: int| 0 <= j < i ==> (#[trigger] entries[j]).name != name,
    ensures
        is_registered(entries, name),
        registered_path(entries, name) == entries[i].path,
{
    assert(crate::registry::is_first_named(entries, name, i));
    let k = choose|k: int| crate::registry::is_first_named(entries, name, k);
    if k < i {
        assert(entries[k].name != name);
    } else if i < k {
        assert(entries[i].name != name);
    }
}

/// A name is registered if and only if some entry has it.
pub proof fn law_registered_names(entries: Seq<VaultEntry>, name: Seq<char>)
    ensures
        is_registered(entries, name) <==> exists|i: int|
            0 <= i < entries.len() && (#[trigger] entries[i]).name == name,
{
    if exists|i: int| 0 <= i < entries.len() && (#[trigger] entries[i]).name == name {
        let i = choose|i: int| 0 <= i < entries.len() && (#[trigger] entries[i]).name == name;
        lemma_some_entry_is_the_first(entries, name, i);
    }
}

/// Where an entry has a name, one entry is the first of that name.
proof fn lemma_some_entry_is_the_first(entries: Seq<VaultEntry>, name: Seq<char>, i: int)
    requires
        0 <= i < entries.len(),
        entries[i].name == name,
    ensures
        is_registered(entries, name),
    decreases i,
{
    if exists|j: int| 0 <= j < i && (#[trigger] entries[j]).name == name {
        let j = choose|j: int| 0 <= j < i && (#[trigger] entries[j]).name == name;
        lemma_some_entry_is_the_first(entries, name, j);
    } else {
        assert(crate::registry::is_first_named(entries, name, i));
    }
}

/// An entry is read as its name and its path.
pub proof fn law_entry_is_read_in_full(vault: RegisteredVault)
    ensures
        vault@.name == vault.name@,
        vault@.path == vault.path@,
{
}

// ---------------------------------------------------------------------------
// Events
// ---------------------------------------------------------------------------
/// An event goes to the end of what the sink was sent, and nowhere without a sink.
pub proof fn law_events_are_sent_in_order(o: OutletModel, event: LockEvent)
    ensures
        o.emit(event).sink == o.sink,
        o.sink is Some ==> {
            &&& o.emit(event).sent.len() == o.sent.len() + 1
            &&& o.emit(event).sent.last() == event
            &&& o.emit(event).sent.drop_last() == o.sent
        },
        o.sink is None ==> o.emit(event).sent == o.sent,
{
}

/// What was delivered was handed to the sink, event by event.
pub proof fn law_delivered_events_reached_the_sink(o: OutletModel, i: int)
    requires
        o.delivered(),
        o.sink is Some,
        0 <= i < o.sent.len(),
    ensures
        o.sink->0.took(o.sent[i]),
{
}

// ---------------------------------------------------------------------------
// Locking and unlocking
// ---------------------------------------------------------------------------
/// A new session holds nothing and knows the vaults and the controller it is given.
pub proof fn law_new_state_holds_nothing<V>(registry: Seq<VaultEntry>, controller: AutoLockModel)
    ensures
        SessionModel::<V>::initial(registry, controller).registry == registry,
        SessionModel::<V>::initial(registry, controller).controller == controller,
        SessionModel::<V>::initial(registry, controller).vault is None,
        SessionModel::<V>::initial(registry, controller).credentials is None,
        SessionModel::<V>::initial(registry, controller).outlet.sink is None,
        SessionModel::<V>::initial(registry, controller).outlet.sent.len() == 0,
{
}

/// A session is unlocked if and only if it holds a vault.
pub proof fn law_unlocked_means_a_vault<V>(s: SessionModel<V>)
    ensures
        s.is_unlocked() <==> s.vault is Some,
{
}

/// Opening puts exactly this vault and these credentials into the session, starts the
/// idle timeout then, and sends `Unlocked`.
pub proof fn law_opening<V>(s: SessionModel<V>, vault: V, credentials: CredentialsModel, now: nat)
    ensures
        ({
            let end = s.opened(vault, credentials, now);
            &&& end.vault == Some(vault)
            &&& end.credentials == Some(credentials)
            &&& end.controller.state == LockState::Active
            &&& end.controller.last_activity == now
            &&& end.controller.idle_timeout == s.controller.idle_timeout
            &&& end.registry == s.registry
            &&& end.outlet.sink == s.outlet.sink
            &&& s.outlet.sink is Some ==> end.outlet.sent == s.outlet.sent.push(LockEvent::Unlocked)
            &&& s.outlet.sink is None ==> end.outlet.sent == s.outlet.sent
        }),
{
}

/// A lock takes vault and credentials, locks the controller, sends `Locked`, and leaves
/// the rest.
pub proof fn law_locking_down<V>(s: SessionModel<V>)
    ensures
        ({
            let end = s.locked_down();
            &&& end.vault is None
            &&& end.credentials is None
            &&& end.controller.state == LockState::Locked
            &&& end.controller.lock_reason == Some(OsLockReason::Manual)
            &&& end.controller.idle_timeout == s.controller.idle_timeout
            &&& end.registry == s.registry
            &&& end.outlet.sink == s.outlet.sink
            &&& s.outlet.sink is Some ==> end.outlet.sent == s.outlet.sent.push(LockEvent::Locked)
            &&& s.outlet.sink is None ==> end.outlet.sent == s.outlet.sent
        }),
        s.vault is Some ==> s.after_lock_request() == s.locked_down(),
        s.vault is None ==> s.after_lock_request() == s,
{
}

/// Recovery takes vault and credentials, sends `Locked`, and leaves the rest, the
/// controller too.
pub proof fn law_recovering<V>(s: SessionModel<V>)
    ensures
        ({
            let end = s.recovered();
            &&& end.vault is None
            &&& end.credentials is None
            &&& end.controller == s.controller
            &&& end.registry == s.registry
            &&& end.outlet.sink == s.outlet.sink
            &&& s.outlet.sink is Some ==> end.outlet.sent == s.outlet.sent.push(LockEvent::Locked)
            &&& s.outlet.sink is None ==> end.outlet.sent == s.outlet.sent
        }),
{
}

/// A new sink replaces the old one, has been sent nothing, and touches nothing else.
pub proof fn law_attaching<V>(s: SessionModel<V>, sink: Option<Box<dyn EventSink<LockEvent>>>)
    ensures
        s.with_sink(sink).outlet.sink == sink,
        s.with_sink(sink).outlet.sent.len() == 0,
        s.with_sink(sink).vault == s.vault,
        s.with_sink(sink).credentials == s.credentials,
        s.with_sink(sink).controller == s.controller,
        s.with_sink(sink).registry == s.registry,
{
}

/// A consistent session holds credentials exactly while it holds a vault, holds no vault
/// under a locked controller, and has told its sink the truth last.
pub proof fn law_consistency_means<V>(s: SessionModel<V>)
    requires
        s.wf(),
    ensures
        s.vault is Some <==> s.credentials is Some,
        s.vault is Some ==> s.controller.state != LockState::Locked,
        s.controller.idle_timeout > 0,
        s.outlet.sent.len() > 0 && s.vault is Some ==> s.outlet.sent.last() == LockEvent::Unlocked,
        s.outlet.sent.len() > 0 && s.vault is None ==> s.outlet.sent.last() == LockEvent::Locked,
        s.outlet.sink is None ==> s.outlet.sent.len() == 0,
        forall|i: int, j: int|
            #![trigger s.outlet.sent[i], s.outlet.sent[j]]
            0 <= i && j == i + 1 && j < s.outlet.sent.len() && s.outlet.sent[i]
                == LockEvent::Unlocked ==> s.outlet.sent[j] == LockEvent::Locked,
        alternates(s.outlet.sent),
{
}

// ---------------------------------------------------------------------------
// Ticks
// ---------------------------------------------------------------------------
/// A tick has a new report of activity before it when the reported time is not zero and
/// not the one that the tick before saw, however large the numbers are.
pub proof fn law_new_activity(activity: i64, last_seen: i64)
    ensures
        is_new_activity(activity, last_seen) <==> activity != 0 && activity != last_seen,
{
}

/// A tick remembers the report of activity that it saw. It never changes the vaults that
/// the session knows, its sink, or its timeout.
pub proof fn law_tick_leaves_the_rest<V>(s: TickModel<V>, now: nat, activity: i64, code: u8)
    ensures
        ({
            let end = s.ticked(now, activity, code);
            &&& end.last_seen == activity
            &&& end.session.registry == s.session.registry
            &&& end.session.outlet.sink == s.session.outlet.sink
            &&& end.session.controller.idle_timeout == s.session.controller.idle_timeout
        }),
{
}

/// A tick leaves a vault with its credentials in place and sends nothing, or takes both
/// and sends `Locked`. A session without a vault gets none and sends nothing.
pub proof fn law_tick_locks_or_leaves<V>(s: TickModel<V>, now: nat, activity: i64, code: u8)
    ensures
        ({
            let end = s.ticked(now, activity, code).session;
            ||| end.vault == s.session.vault && end.credentials == s.session.credentials
                && end.outlet.sent == s.session.outlet.sent && end.controller.lock_reason
                == s.session.controller.lock_reason
            ||| s.session.vault is Some && end.vault is None && end.credentials is None && (
            s.session.outlet.sink is Some ==> end.outlet.sent == s.session.outlet.sent.push(
                LockEvent::Locked,
            )) && (s.session.outlet.sink is None ==> end.outlet.sent == s.session.outlet.sent)
                && end.controller.state == LockState::Locked && end.controller.lock_reason == Some(
                OsLockReason::Manual,
            )
        }),
{
}

/// Idle lock in clock time: a session with an open vault whose last activity was at `a`
/// and whose timeout is `t`, ticked at `a + t` or later without new activity, is locked by
/// the next tick, for every timeout and whatever that next tick finds.
pub proof fn law_idle_lock_in_clock_time<V>(
    s: TickModel<V>,
    a: nat,
    t: nat,
    now: nat,
    activity: i64,
    code: u8,
    later: nat,
    later_activity: i64,
    later_code: u8,
)
    requires
        s.session.vault is Some,
        s.session.controller.state == LockState::Active || s.session.controller.state
            == LockState::Expired,
        s.session.controller.last_activity == a,
        s.session.controller.idle_timeout == t,
        t > 0,
        now >= a + t,
        activity == 0 || activity == s.last_seen,
    ensures
        ({
            let end = s.ticked(now, activity, code).ticked(later, later_activity, later_code).session;
            &&& end.vault is None
            &&& end.credentials is None
            &&& end.controller.state == LockState::Locked
            &&& s.session.outlet.sink is Some ==> end.outlet.sent == s.session.outlet.sent.push(
                LockEvent::Locked,
            )
        }),
{
}

/// The tick that finds the deadline passed makes the controller expired and keeps the
/// vault, unless the lifecycle locks.
pub proof fn law_deadline_expires_first<V>(s: TickModel<V>, now: nat, activity: i64, code: u8)
    requires
        s.session.vault is Some,
        s.session.controller.state == LockState::Active,
        s.session.controller.idle_timeout > 0,
        now >= s.session.controller.last_activity + s.session.controller.idle_timeout,
        activity == 0 || activity == s.last_seen,
        code != 4,
        (code == 2 || code == 3) && s.grace_start is Some ==> now < s.grace_start->0
            + 15_000_000_000,
    ensures
        s.ticked(now, activity, code).session.vault == s.session.vault,
        s.ticked(now, activity, code).session.credentials == s.session.credentials,
        s.ticked(now, activity, code).session.outlet.sent == s.session.outlet.sent,
        s.ticked(now, activity, code).session.controller.state == LockState::Expired,
        s.ticked(now, activity, code).session.controller.last_activity
            == s.session.controller.last_activity,
{
}

/// Before the deadline in clock time nothing locks a frontend that is resumed, inactive,
/// or in the background within its grace time, and its controller stays active.
pub proof fn law_no_idle_lock_before_its_time<V>(
    s: TickModel<V>,
    now: nat,
    activity: i64,
    code: u8,
)
    requires
        s.session.vault is Some,
        s.session.controller.state == LockState::Active,
        s.session.controller.idle_timeout > 0,
        now < s.session.controller.last_activity + s.session.controller.idle_timeout,
        code != 4,
        (code == 2 || code == 3) && s.grace_start is Some ==> now < s.grace_start->0
            + 15_000_000_000,
    ensures
        ({
            let end = s.ticked(now, activity, code).session;
            &&& end.vault == s.session.vault
            &&& end.credentials == s.session.credentials
            &&& end.outlet.sent == s.session.outlet.sent
            &&& end.controller.state == LockState::Active
        }),
{
}

/// A report of activity that is new makes the tick that sees it the last activity of an
/// active controller. Without one, and without a return from the background, the last
/// activity stays what it was; so it does once the deadline has passed.
pub proof fn law_activity_moves_the_deadline<V>(
    s: TickModel<V>,
    now: nat,
    activity: i64,
    code: u8,
)
    requires
        s.session.controller.idle_timeout > 0,
    ensures
        ({
            let end = s.ticked(now, activity, code).session.controller;
            &&& s.session.controller.state == LockState::Active && activity != 0 && activity
                != s.last_seen ==> end.last_activity == now && end.state != LockState::Expired
            &&& (activity == 0 || activity == s.last_seen) && (s.grace_start is None || 1 <= code
                <= 4) ==> end.last_activity == s.session.controller.last_activity
            &&& s.session.controller.state != LockState::Active ==> end.last_activity
                == s.session.controller.last_activity
        }),
{
}

/// Activity defers the lock in clock time: after a tick at `now` that saw a new report,
/// the session is unlocked and active at every tick before `now` plus the timeout.
pub proof fn law_activity_defers_in_clock_time<V>(
    s: TickModel<V>,
    now: nat,
    activity: i64,
    code: u8,
    later: nat,
    later_activity: i64,
    later_code: u8,
)
    requires
        s.session.vault is Some,
        s.session.controller.state == LockState::Active,
        s.session.controller.idle_timeout > 0,
        activity != 0,
        activity != s.last_seen,
        code == 0 || code == 1,
        later_code == 0 || later_code == 1,
        later < now + s.session.controller.idle_timeout,
    ensures
        ({
            let end = s.ticked(now, activity, code).ticked(later, later_activity, later_code).session;
            &&& end.vault == s.session.vault
            &&& end.credentials == s.session.credentials
            &&& end.controller.state == LockState::Active
        }),
{
}

/// A detached frontend loses its vault at the very tick that sees it, and any running
/// grace time ends.
pub proof fn law_detached_code_locks<V>(s: TickModel<V>, now: nat, activity: i64)
    requires
        s.session.vault is Some,
    ensures
        ({
            let end = s.ticked(now, activity, 4);
            &&& end.session.vault is None
            &&& end.session.credentials is None
            &&& end.session.controller.state == LockState::Locked
            &&& s.session.outlet.sink is Some ==> end.session.outlet.sent
                == s.session.outlet.sent.push(LockEvent::Locked)
            &&& end.grace_start is None
        }),
{
}

/// A frontend that is seen hidden, or paused, with no grace time running begins one, and
/// is not locked for it.
pub proof fn law_background_begins_a_grace_time<V>(
    s: TickModel<V>,
    now: nat,
    activity: i64,
    code: u8,
)
    requires
        code == 2 || code == 3,
        s.grace_start is None,
    ensures
        s.ticked(now, activity, code).grace_start == Some(now),
        s.session.controller.state == LockState::Active ==> {
            &&& s.ticked(now, activity, code).session.vault == s.session.vault
            &&& s.ticked(now, activity, code).session.credentials == s.session.credentials
        },
{
}

/// Fifteen seconds after its grace time began, a tick that sees the frontend hidden, or
/// paused, locks the session and ends the grace time. Before that it does neither.
pub proof fn law_background_locks_after_fifteen_seconds<V>(
    s: TickModel<V>,
    started: nat,
    now: nat,
    activity: i64,
    code: u8,
)
    requires
        code == 2 || code == 3,
        s.grace_start == Some(started),
        s.session.vault is Some,
    ensures
        now >= started + 15_000_000_000 ==> {
            &&& s.ticked(now, activity, code).session.vault is None
            &&& s.ticked(now, activity, code).session.credentials is None
            &&& s.ticked(now, activity, code).session.controller.state == LockState::Locked
            &&& s.ticked(now, activity, code).grace_start is None
            &&& s.session.outlet.sink is Some ==> s.ticked(now, activity, code).session.outlet.sent
                == s.session.outlet.sent.push(LockEvent::Locked)
        },
        now < started + 15_000_000_000 ==> s.ticked(now, activity, code).grace_start == Some(
            started,
        ),
        now < started + 15_000_000_000 && s.session.controller.state == LockState::Active ==> {
            &&& s.ticked(now, activity, code).session.vault == s.session.vault
            &&& s.ticked(now, activity, code).session.credentials == s.session.credentials
            &&& s.ticked(now, activity, code).session.outlet.sent == s.session.outlet.sent
        },
{
}

/// An inactive frontend leaves the grace time alone; a resumed one ends it.
pub proof fn law_foreground_and_the_grace_time<V>(
    s: TickModel<V>,
    now: nat,
    activity: i64,
    code: u8,
)
    ensures
        code == 1 ==> s.ticked(now, activity, code).grace_start == s.grace_start,
        code == 0 || code > 4 ==> s.ticked(now, activity, code).grace_start is None,
{
}

/// A resumed frontend whose grace time ran has been active at that tick, as far as the
/// idle deadline did not pass there.
pub proof fn law_return_is_activity<V>(s: TickModel<V>, now: nat, activity: i64)
    requires
        s.grace_start is Some,
        s.session.controller.state == LockState::Active,
        s.session.controller.idle_timeout > 0,
        now < s.session.controller.last_activity + s.session.controller.idle_timeout,
    ensures
        s.ticked(now, activity, 0).session.controller.last_activity == now,
        s.ticked(now, activity, 0).session.controller.state == LockState::Active,
        s.ticked(now, activity, 0).session.vault == s.session.vault,
{
}

/// A tick makes no controller active that was not. Without a vault the lifecycle does not
/// touch it: it expires when its deadline has passed without new activity, and stays
/// active otherwise.
pub proof fn law_tick_of_a_session_without_a_vault<V>(
    s: TickModel<V>,
    now: nat,
    activity: i64,
    code: u8,
)
    requires
        s.session.vault is None,
        s.session.controller.idle_timeout > 0,
    ensures
        ({
            let end = s.ticked(now, activity, code).session;
            let seen = activity != 0 && activity != s.last_seen;
            let due = s.session.controller.last_activity + s.session.controller.idle_timeout;
            &&& end.vault is None
            &&& end.credentials == s.session.credentials
            &&& end.outlet.sent == s.session.outlet.sent
            &&& s.session.controller.state != LockState::Active ==> end.controller.state
                == LockState::Locked
            &&& s.session.controller.state == LockState::Active && (seen || now < due)
                ==> end.controller.state == LockState::Active
            &&& s.session.controller.state == LockState::Active && !seen && now >= due
                ==> end.controller.state == LockState::Expired
        }),
{
}

/// An expired controller locks a session with a vault at the next tick, whatever it finds.
pub proof fn law_expired_tick_locks<V>(s: TickModel<V>, now: nat, activity: i64, code: u8)
    requires
        s.session.vault is Some,
        s.session.controller.state == LockState::Expired,
    ensures
        s.ticked(now, activity, code).session.vault is None,
        s.ticked(now, activity, code).session.credentials is None,
        s.ticked(now, activity, code).session.controller.state == LockState::Locked,
{
}

// ---------------------------------------------------------------------------
// Series of ticks
// ---------------------------------------------------------------------------
/// A session that is idle in clock time at the first of two or more ticks ends up locked,
/// and its sink was sent one `Locked`.
pub proof fn law_idle_series_locks<V>(s: TickModel<V>, ticks: Seq<TickInput>)
    requires
        s.session.vault is Some,
        s.session.controller.state == LockState::Active || s.session.controller.state
            == LockState::Expired,
        s.session.controller.idle_timeout > 0,
        ticks.len() >= 2,
        ticks[0].now >= s.session.controller.last_activity + s.session.controller.idle_timeout,
        ticks[0].activity == 0 || ticks[0].activity == s.last_seen,
    ensures
        after_ticks(s, ticks).session.vault is None,
        after_ticks(s, ticks).session.credentials is None,
        s.session.outlet.sink is Some ==> after_ticks(s, ticks).session.outlet.sent
            == s.session.outlet.sent.push(LockEvent::Locked),
    decreases ticks.len(),
{
    let last = ticks.last();
    let before = ticks.drop_last();
    if ticks.len() == 2 {
        let first = ticks[0];
        assert(before.last() == first);
        assert(after_ticks(s, before.drop_last()) == s);
        assert(after_ticks(s, before) == s.ticked(first.now, first.activity, first.code));
        law_idle_lock_in_clock_time(
            s,
            s.session.controller.last_activity,
            s.session.controller.idle_timeout,
            first.now,
            first.activity,
            first.code,
            last.now,
            last.activity,
            last.code,
        );
    } else {
        law_idle_series_locks(s, before);
    }
}

/// After an unlock at `a`, a session with timeout `t` is unlocked at every tick from `a`
/// until just before `a + t`, whatever activity they find, while its frontend is resumed
/// or inactive.
pub proof fn law_unlocked_until_the_timeout<V>(
    s: TickModel<V>,
    vault: V,
    credentials: CredentialsModel,
    a: nat,
    ticks: Seq<TickInput>,
)
    requires
        s.session.controller.idle_timeout > 0,
        forall|i: int|
            0 <= i < ticks.len() ==> a <= (#[trigger] ticks[i]).now < a
                + s.session.controller.idle_timeout && (ticks[i].code == 0 || ticks[i].code == 1),
    ensures
        ({
            let open = TickModel { session: s.session.opened(vault, credentials, a), ..s };
            let end = after_ticks(open, ticks).session;
            &&& end.vault == Some(vault)
            &&& end.credentials == Some(credentials)
            &&& end.outlet.sent == open.session.outlet.sent
            &&& end.controller.state == LockState::Active
            &&& end.controller.idle_timeout == s.session.controller.idle_timeout
            &&& end.controller.last_activity >= a
        }),
    decreases ticks.len(),
{
    if ticks.len() > 0 {
        let before = ticks.drop_last();
        assert forall|i: int| 0 <= i < before.len() implies a <= (#[trigger] before[i]).now < a
            + s.session.controller.idle_timeout && (before[i].code == 0 || before[i].code == 1) by {
            assert(before[i] == ticks[i]);
        }
        law_unlocked_until_the_timeout(s, vault, credentials, a, before);
        assert(a <= ticks[ticks.len() - 1].now);
    }
}

/// A user of whom every tick sees a new report is never locked out for idleness, however
/// far apart the ticks are.
pub proof fn law_busy_user_is_not_locked_out<V>(s: TickModel<V>, ticks: Seq<TickInput>)
    requires
        s.session.vault is Some,
        s.session.controller.state == LockState::Active,
        s.session.controller.idle_timeout > 0,
        forall|i: int|
            0 <= i < ticks.len() ==> (#[trigger] ticks[i]).activity != 0 && (ticks[i].code == 0
                || ticks[i].code == 1),
        ticks.len() > 0 ==> ticks[0].activity != s.last_seen,
        forall|i: int, j: int|
            #![trigger ticks[i], ticks[j]]
            0 <= i && j == i + 1 && j < ticks.len() ==> ticks[i].activity != ticks[j].activity,
    ensures
        ({
            let end = after_ticks(s, ticks);
            &&& end.session.vault == s.session.vault
            &&& end.session.credentials == s.session.credentials
            &&& end.session.outlet.sent == s.session.outlet.sent
            &&& end.session.controller.state == LockState::Active
            &&& end.session.controller.idle_timeout == s.session.controller.idle_timeout
            &&& ticks.len() > 0 ==> end.session.controller.last_activity == ticks.last().now
            &&& ticks.len() > 0 ==> end.last_seen == ticks.last().activity
            &&& ticks.len() == 0 ==> end.last_seen == s.last_seen
        }),
    decreases ticks.len(),
{
    if ticks.len() > 0 {
        let before = ticks.drop_last();
        let k = ticks.len() - 1;
        assert forall|i: int| 0 <= i < before.len() implies (#[trigger] before[i]).activity != 0 && (
        before[i].code == 0 || before[i].code == 1) by {
            assert(before[i] == ticks[i]);
        }
        assert forall|i: int, j: int|
            #![trigger before[i], before[j]]
            0 <= i && j == i + 1 && j < before.len() implies before[i].activity
            != before[j].activity by {
            assert(ticks[i].activity != ticks[j].activity);
        }
        if before.len() > 0 {
            assert(before[0] == ticks[0]);
        }
        law_busy_user_is_not_locked_out(s, before);
        if k > 0 {
            assert(before.last() == ticks[k - 1]);
            assert(ticks[k - 1].activity != ticks[k].activity);
        }
        assert(ticks[k].activity != 0);
    }
}

/// A frontend that is hidden or paused at every one of a series of ticks, of which the
/// last comes fifteen seconds after the first or later, ends up locked.
pub proof fn law_long_background_locks<V>(s: TickModel<V>, ticks: Seq<TickInput>)
    requires
        s.session.vault is Some ==> s.session.credentials is Some,
        s.session.vault is None ==> s.session.credentials is None,
        s.grace_start is None,
        ticks.len() >= 2,
        forall|i: int|
            0 <= i < ticks.len() ==> (#[trigger] ticks[i]).code == 2 || ticks[i].code == 3,
        ticks.last().now >= ticks[0].now + 15_000_000_000,
    ensures
        after_ticks(s, ticks).session.vault is None,
        after_ticks(s, ticks).session.credentials is None,
{
    let before = ticks.drop_last();
    assert forall|i: int| 0 <= i < before.len() implies (#[trigger] before[i]).code == 2
        || before[i].code == 3 by {
        assert(before[i] == ticks[i]);
    }
    assert(before[0] == ticks[0]);
    lemma_background_series(s, before);
    assert(ticks[ticks.len() - 1].code == 2 || ticks[ticks.len() - 1].code == 3);
}

/// Ticks in the background lock the session or keep the grace time that the first began.
proof fn lemma_background_series<V>(s: TickModel<V>, ticks: Seq<TickInput>)
    requires
        s.session.vault is Some <==> s.session.credentials is Some,
        s.grace_start is None,
        ticks.len() >= 1,
        forall|i: int|
            0 <= i < ticks.len() ==> (#[trigger] ticks[i]).code == 2 || ticks[i].code == 3,
    ensures
        ({
            let end = after_ticks(s, ticks);
            &&& end.session.vault is Some <==> end.session.credentials is Some
            &&& end.session.vault is Some ==> end.grace_start == Some(ticks[0].now)
        }),
    decreases ticks.len(),
{
    let before = ticks.drop_last();
    assert(ticks[ticks.len() - 1].code == 2 || ticks[ticks.len() - 1].code == 3);
    if ticks.len() == 1 {
        assert(after_ticks(s, before) == s);
    } else {
        assert forall|i: int| 0 <= i < before.len() implies (#[trigger] before[i]).code == 2
            || before[i].code == 3 by {
            assert(before[i] == ticks[i]);
        }
        assert(before[0] == ticks[0]);
        lemma_background_series(s, before);
    }
}

// ---------------------------------------------------------------------------
// The session and its surroundings
// ---------------------------------------------------------------------------
/// A tick of the ticker is a tick on the session and on the ticker's own memory, with the
/// reports it is given; everything else stays.
pub proof fn law_ticker_tick_field_by_field<V>(s: AppModel<V>, now: nat, activity: i64, code: u8)
    ensures
        ({
            let from = TickModel {
                session: s.session,
                grace_start: s.grace_start,
                last_seen: s.last_seen,
            };
            let to = from.ticked(now, activity, code);
            let end = s.ticked(now, activity, code);
            &&& end.session == to.session
            &&& end.grace_start == to.grace_start
            &&& end.last_seen == to.last_seen
            &&& end.manual_grace_start == s.manual_grace_start
            &&& end.manual_last_seen == s.manual_last_seen
            &&& end.last_activity == s.last_activity
            &&& end.lifecycle_state == s.lifecycle_state
            &&& end.ticker_shutdown == s.ticker_shutdown
            &&& end.ticker_attached == s.ticker_attached
            &&& end.clock == s.clock
        }),
{
}

/// A tick by hand is a tick on the session and on a memory of its own, with the reports
/// of activity and lifecycle that the session has; everything else stays.
pub proof fn law_manual_tick_field_by_field<V>(s: AppModel<V>, now: nat)
    ensures
        ({
            let from = TickModel {
                session: s.session,
                grace_start: s.manual_grace_start,
                last_seen: s.manual_last_seen,
            };
            let to = from.ticked(now, s.last_activity, s.lifecycle_state);
            let end = s.driven(now);
            &&& end.session == to.session
            &&& end.manual_grace_start == to.grace_start
            &&& end.manual_last_seen == to.last_seen
            &&& end.grace_start == s.grace_start
            &&& end.last_seen == s.last_seen
            &&& end.last_activity == s.last_activity
            &&& end.lifecycle_state == s.lifecycle_state
            &&& end.ticker_shutdown == s.ticker_shutdown
            &&& end.ticker_attached == s.ticker_attached
            &&& end.clock == s.clock
        }),
{
}

/// A lock request takes vault and credentials of an unlocked session and touches nothing
/// but the session; a shutdown does the same, and tells and forgets the ticker.
pub proof fn law_lock_and_shutdown_field_by_field<V>(s: AppModel<V>)
    ensures
        s.locked().session.vault is None,
        s.session.vault is Some ==> s.locked().session.credentials is None,
        s.session.vault is Some && s.session.outlet.sink is Some
            ==> s.locked().session.outlet.sent == s.session.outlet.sent.push(LockEvent::Locked),
        s.session.vault is None ==> s.locked() == s,
        s.locked() == (AppModel { session: s.locked().session, ..s }),
        s.shut_down().session == s.locked().session,
        s.shut_down().ticker_shutdown,
        !s.shut_down().ticker_attached,
        s.shut_down() == (AppModel {
            session: s.locked().session,
            ticker_shutdown: true,
            ticker_attached: false,
            ..s
        }),
{
}

/// Entering a poisoned session recovers the session and touches nothing else; entering any
/// other changes nothing.
pub proof fn law_entering_field_by_field<V>(s: AppModel<V>)
    ensures
        s.entered(false) == s,
        s.entered(true) == (AppModel { session: s.entered(true).session, ..s }),
        s.entered(true).session.vault is None,
        s.entered(true).session.credentials is None,
        s.entered(true).session.controller == s.session.controller,
        s.entered(true).session.registry == s.session.registry,
        s.entered(true).session.outlet.sink == s.session.outlet.sink,
        s.session.outlet.sink is Some ==> s.entered(true).session.outlet.sent
            == s.session.outlet.sent.push(LockEvent::Locked),
        s.session.outlet.sink is None ==> s.entered(true).session.outlet.sent
            == s.session.outlet.sent,
{
}

/// A session that is set up with a timeout above zero exists and has that very timeout;
/// it is locked, knows the vaults that were loaded, and has seen nothing yet. With a
/// timeout of zero there is no session.
pub proof fn law_new_session_field_by_field<V>(
    res: Result<AppSession<V>, FalachApiError>,
    registry: Seq<VaultEntry>,
    idle_timeout: nat,
    ticker_attached: bool,
    prefix: Seq<char>,
)
    requires
        is_new_session(res, registry, idle_timeout, ticker_attached, prefix),
    ensures
        res is Ok <==> idle_timeout > 0,
        res matches Ok(session) ==> {
            &&& session@.session.controller.idle_timeout == idle_timeout
            &&& session@.session.controller.state == LockState::Locked
            &&& session@.session.registry == registry
            &&& session@.session.vault is None
            &&& session@.session.credentials is None
            &&& session@.session.outlet.sink is None
            &&& session@.last_activity == 0
            &&& session@.lifecycle_state == 0
            &&& !session@.ticker_shutdown
            &&& session@.ticker_attached == ticker_attached
            &&& session@.grace_start is None
            &&& session@.last_seen == 0
            &&& session@.manual_grace_start is None
            &&& session@.manual_last_seen == 0
        },
        res matches Err(error) ==> (error matches FalachApiError::Internal { context } && context@
            == prefix + "the idle timeout is zero"@),
{
}

/// A new session keeps the timeout it was configured with: unlocked at `a`, it is unlocked
/// at every tick before `a` plus that timeout, while its frontend is resumed or inactive.
pub proof fn law_new_session_keeps_its_timeout<V>(
    session: AppSession<V>,
    registry: Seq<VaultEntry>,
    idle_timeout: nat,
    ticker_attached: bool,
    prefix: Seq<char>,
    vault: V,
    credentials: CredentialsModel,
    a: nat,
    ticks: Seq<TickInput>,
)
    requires
        is_new_session(Ok(session), registry, idle_timeout, ticker_attached, prefix),
        forall|i: int|
            0 <= i < ticks.len() ==> a <= (#[trigger] ticks[i]).now < a + idle_timeout && (
            ticks[i].code == 0 || ticks[i].code == 1),
    ensures
        ({
            let open = TickModel {
                session: session@.session.opened(vault, credentials, a),
                grace_start: session@.grace_start,
                last_seen: session@.last_seen,
            };
            let end = after_ticks(open, ticks).session;
            end.vault == Some(vault) && end.credentials == Some(credentials)
        }),
{
    let from = TickModel {
        session: session@.session,
        grace_start: session@.grace_start,
        last_seen: session@.last_seen,
    };
    law_unlocked_until_the_timeout(from, vault, credentials, a, ticks);
}

/// The directories are those of the configuration: both if both are given, the state
/// directory alone if only that is, and otherwise what the environment says.
pub proof fn law_directories_of_the_configuration(cfg: AppInitConfig, paths: PathSelection)
    requires
        selects(cfg, paths),
    ensures
        cfg.state_dir is None <==> paths is Environment,
        cfg.state_dir is Some && cfg.config_dir is Some <==> paths is StateAndConfig,
        cfg.state_dir is Some && cfg.config_dir is None <==> paths is StateOnly,
        paths matches PathSelection::StateAndConfig { state_dir, config_dir } ==> state_dir@
            == cfg.state_dir->0@ && config_dir@ == cfg.config_dir->0@,
        paths matches PathSelection::StateOnly { state_dir } ==> state_dir@ == cfg.state_dir->0@,
{
}

/// The ticker stops if and only if it is told to, and ticks if and only if it is not and
/// the session is there to be ticked.
pub proof fn law_decisions_of_the_ticker(shutdown: bool, available: bool)
    ensures
        ticker_decision(shutdown, available) == TickerAction::Stop <==> shutdown,
        ticker_decision(shutdown, available) == TickerAction::Tick <==> !shutdown && available,
        ticker_decision(shutdown, available) == TickerAction::Skip <==> !shutdown && !available,
{
}

/// The errors say what they are asked to say.
pub proof fn law_errors_say_what_they_mean(error: FalachApiError, text: Seq<char>)
    ensures
        error.is_internal(text) <==> (error matches FalachApiError::Internal { context } && context@
            == text),
        error.is_file_not_found(text) <==> (error matches FalachApiError::FileNotFound { path }
            && path@ == text),
        SecurityError::ZeroIdleTimeout.text() == "the idle timeout is zero"@,
{
}

} // verus!
