//! The part of a session that only one thread may touch at a time.

use vstd::prelude::*;
use crate::auto_lock::{AutoLockController, AutoLockModel, LockState, OsLockReason};
use crate::credentials::{keyfile_arg_view, keyfile_view, CredentialsModel, Keyfile, KeyfileModel, MasterPassword, SessionCredentials};
use crate::dto::{KeyfileRef, LifecycleStateDto, LockEvent};
use crate::error::FalachApiError;
use crate::event::EventSink;
use crate::lifecycle::{grace_after, lifecycle_locks, lifecycle_of_code, moment_view, observe_lifecycle, returned_in_grace};
use crate::outlet::{LockOutlet, OutletModel};
use crate::registry::{is_registered, registered_path, VaultEntry, VaultRegistry};
use crate::time::Moment;

verus! {

/// The session's state as the contracts speak of it.
pub struct SessionModel<V> {
    pub registry: Seq<VaultEntry>,
    pub vault: Option<V>,
    pub credentials: Option<CredentialsModel>,
    pub controller: AutoLockModel,
    /// The sink, and what it was sent.
    pub outlet: OutletModel,
}

/// What follows an `Unlocked` event is a `Locked` one.
pub open spec fn alternates(sent: Seq<LockEvent>) -> bool {
    forall|i: int, j: int|
        #![trigger sent[i], sent[j]]
        0 <= i && j == i + 1 && j < sent.len() && sent[i] == LockEvent::Unlocked ==> sent[j]
            == LockEvent::Locked
}

impl<V> SessionModel<V> {
    /// A session that holds no vault and has no sink.
    pub open spec fn initial(
        registry: Seq<VaultEntry>,
        controller: AutoLockModel,
    ) -> SessionModel<V> {
        SessionModel {
            registry,
            vault: None,
            credentials: None,
            controller,
            outlet: OutletModel { sink: None, sent: Seq::empty() },
        }
    }

    pub open spec fn is_unlocked(self) -> bool {
        self.vault is Some
    }

    /// What holds of a session at all times.
    pub open spec fn wf(self) -> bool {
        // Credentials are kept exactly as long as a vault is open.
        &&& self.vault is Some <==> self.credentials is Some
        // A vault does not stay open under a locked controller.
        &&& self.vault is Some ==> self.controller.state != LockState::Locked
        &&& self.outlet.sink is None ==> self.outlet.sent.len() == 0
        // The last event that the frontend was sent is the truth.
        &&& self.outlet.sent.len() > 0 ==> (self.outlet.sent.last() == LockEvent::Unlocked
            <==> self.vault is Some)
        &&& alternates(self.outlet.sent)
        &&& self.controller.idle_timeout > 0
    }

    pub open spec fn emit(self, event: LockEvent) -> SessionModel<V> {
        SessionModel { outlet: self.outlet.emit(event), ..self }
    }

    /// Vault and credentials are gone, the controller is locked, the frontend is told.
    pub open spec fn locked_down(self) -> SessionModel<V> {
        SessionModel {
            vault: None,
            credentials: None,
            controller: self.controller.locked(OsLockReason::Manual),
            ..self
        }.emit(LockEvent::Locked)
    }

    /// Locks a session that is unlocked and leaves any other as it is.
    pub open spec fn after_lock_request(self) -> SessionModel<V> {
        if self.is_unlocked() {
            self.locked_down()
        } else {
            self
        }
    }

    /// What is left of a session whose holder failed half-way.
    pub open spec fn recovered(self) -> SessionModel<V> {
        SessionModel { vault: None, credentials: None, ..self }.emit(LockEvent::Locked)
    }

    pub open spec fn opened(
        self,
        vault: V,
        credentials: CredentialsModel,
        now: nat,
    ) -> SessionModel<V> {
        SessionModel {
            vault: Some(vault),
            credentials: Some(credentials),
            controller: self.controller.unlocked(now),
            ..self
        }.emit(LockEvent::Unlocked)
    }

    /// Another sink, which has been sent nothing yet, stands in place of the present one.
    pub open spec fn with_sink(
        self,
        sink: Option<Box<dyn EventSink<LockEvent>>>,
    ) -> SessionModel<V> {
        SessionModel { outlet: OutletModel { sink, sent: Seq::empty() }, ..self }
    }

    /// The controller once a tick has looked at new activity and at the clock.
    pub open spec fn controller_at(
        self,
        now: nat,
        activity_millis: i64,
        last_seen: i64,
    ) -> AutoLockModel {
        if is_new_activity(activity_millis, last_seen) {
            self.controller.with_activity(now).ticked(now)
        } else {
            self.controller.ticked(now)
        }
    }

    /// A tick finds a reason to lock: the lifecycle, or a user who stayed away.
    pub open spec fn tick_locks(
        self,
        now: nat,
        activity_millis: i64,
        lifecycle: LifecycleStateDto,
        grace: Option<nat>,
        last_seen: i64,
    ) -> bool {
        lifecycle_locks(lifecycle, grace, now) || self.controller_at(
            now,
            activity_millis,
            last_seen,
        ).state == LockState::Locked
    }

    pub open spec fn ticked(
        self,
        now: nat,
        activity_millis: i64,
        lifecycle: LifecycleStateDto,
        grace: Option<nat>,
        last_seen: i64,
    ) -> SessionModel<V> {
        let timed = self.controller_at(now, activity_millis, last_seen);
        let ticked = SessionModel {
            controller: if returned_in_grace(lifecycle, grace) {
                timed.with_activity(now)
            } else {
                timed
            },
            ..self
        };
        if self.tick_locks(now, activity_millis, lifecycle, grace, last_seen) {
            ticked.after_lock_request()
        } else {
            ticked
        }
    }
}

/// A session and what whoever ticks it remembers from tick to tick.
pub struct TickModel<V> {
    pub session: SessionModel<V>,
    /// When the grace time began that is running, in nanoseconds of the monotonic clock.
    pub grace_start: Option<nat>,
    /// The report of activity that the last tick saw.
    pub last_seen: i64,
}

impl<V> TickModel<V> {
    /// One tick that finds these reports of activity and lifecycle.
    pub open spec fn ticked(self, now: nat, activity_millis: i64, lifecycle_code: u8) -> TickModel<
        V,
    > {
        let lifecycle = lifecycle_of_code(lifecycle_code);
        TickModel {
            session: self.session.ticked(
                now,
                activity_millis,
                lifecycle,
                self.grace_start,
                self.last_seen,
            ),
            grace_start: grace_after(lifecycle, self.grace_start, now),
            last_seen: activity_millis,
        }
    }
}

/// A report of activity that no tick has seen yet. Zero means that none was made.
pub open spec fn is_new_activity(activity_millis: i64, last_seen: i64) -> bool {
    activity_millis != 0 && activity_millis != last_seen
}

/// A vault to open, and with what.
pub struct UnlockRequest {
    pub path: String,
    pub master: MasterPassword,
    pub keyfile: Option<Keyfile>,
}

/// A request as the contracts speak of it.
pub struct UnlockModel {
    pub path: Seq<char>,
    pub credentials: CredentialsModel,
}

impl View for UnlockRequest {
    type V = UnlockModel;

    open spec fn view(&self) -> UnlockModel {
        UnlockModel {
            path: self.path@,
            credentials: CredentialsModel {
                master: self.master@,
                keyfile: keyfile_view(self.keyfile),
            },
        }
    }
}

/// The credentials that a frontend's password and keyfile make up.
pub open spec fn given_credentials(
    master_password: Seq<char>,
    keyfile: Option<KeyfileModel>,
) -> CredentialsModel {
    CredentialsModel { master: master_password, keyfile }
}

pub struct SessionState<V> {
    registry: VaultRegistry,
    vault: Option<V>,
    credentials: Option<SessionCredentials>,
    controller: AutoLockController,
    outlet: LockOutlet,
}

impl<V> View for SessionState<V> {
    type V = SessionModel<V>;

    closed spec fn view(&self) -> SessionModel<V> {
        SessionModel {
            registry: self.registry@,
            vault: self.vault,
            credentials: match self.credentials {
                Some(credentials) => Some(credentials@),
                None => None,
            },
            controller: self.controller@,
            outlet: self.outlet@,
        }
    }
}

impl<V> SessionState<V> {
    pub fn new(registry: VaultRegistry, controller: AutoLockController) -> (state: SessionState<V>)
        ensures
            state@ == SessionModel::<V>::initial(registry@, controller@),
            controller@.idle_timeout > 0 ==> state@.wf(),
            state@.outlet.delivered(),
    {
        SessionState {
            registry,
            vault: None,
            credentials: None,
            controller,
            outlet: LockOutlet::new(None),
        }
    }

    pub fn is_unlocked(&self) -> (unlocked: bool)
        ensures
            unlocked == self@.is_unlocked(),
    {
        self.vault.is_some()
    }

    pub fn has_credentials(&self) -> (kept: bool)
        ensures
            kept == (self@.credentials is Some),
    {
        self.credentials.is_some()
    }

    /// Replaces the sink. The new one has been sent nothing yet.
    pub fn set_sink(&mut self, sink: Option<Box<dyn EventSink<LockEvent>>>)
        ensures
            final(self)@ == old(self)@.with_sink(sink),
            old(self)@.wf() ==> final(self)@.wf(),
            old(self)@.outlet.delivered() ==> final(self)@.outlet.delivered(),
    {
        self.outlet = LockOutlet::new(sink);
    }

    /// Sends an event to the sink, if there is one.
    pub fn push_lock_event(&mut self, event: LockEvent)
        ensures
            final(self)@ == old(self)@.emit(event),
            old(self)@.outlet.sink matches Some(sink) ==> sink.took(event),
            old(self)@.outlet.delivered() ==> final(self)@.outlet.delivered(),
    {
        self.outlet.send_event(event);
    }

    /// Drops vault and credentials, locks the controller and tells the frontend.
    pub fn do_lock(&mut self)
        ensures
            final(self)@ == old(self)@.locked_down(),
            old(self)@.wf() ==> final(self)@.wf(),
            old(self)@.outlet.delivered() ==> final(self)@.outlet.delivered(),
    {
        self.vault = None;
        self.credentials = None;
        self.controller.lock_now(OsLockReason::Manual);
        self.push_lock_event(LockEvent::Locked);
    }

    /// Locks if unlocked.
    pub fn lock_now(&mut self)
        ensures
            final(self)@ == old(self)@.after_lock_request(),
            old(self)@.wf() ==> final(self)@.wf(),
            old(self)@.outlet.delivered() ==> final(self)@.outlet.delivered(),
    {
        if self.is_unlocked() {
            self.do_lock();
        }
    }

    /// Drops vault and credentials after a holder of the session failed half-way, and
    /// tells the frontend. The controller stays as it is.
    pub fn recover_poisoned(&mut self)
        ensures
            final(self)@ == old(self)@.recovered(),
            old(self)@.wf() ==> final(self)@.wf(),
            old(self)@.outlet.delivered() ==> final(self)@.outlet.delivered(),
    {
        self.vault = None;
        self.credentials = None;
        self.push_lock_event(LockEvent::Locked);
    }

    /// Says which vault to open for an unlock, and with what. The request is refused
    /// where a vault is open already, and where no vault has that name.
    pub fn prepare_unlock(
        &self,
        name: &str,
        master_password: String,
        keyfile: Option<KeyfileRef>,
    ) -> (res: Result<UnlockRequest, FalachApiError>)
        ensures
            self@.is_unlocked() ==> (res matches Err(error) && error.is_internal(
                "a vault is already unlocked"@,
            )),
            !self@.is_unlocked() && !is_registered(self@.registry, name@) ==> (res matches Err(error)
                && error.is_file_not_found(name@)),
            !self@.is_unlocked() && is_registered(self@.registry, name@) ==> (res matches Ok(request)
                && request@ == (UnlockModel {
                path: registered_path(self@.registry, name@),
                credentials: given_credentials(master_password@, keyfile_arg_view(keyfile)),
            })),
            // The opener gets exactly the password and the keyfile that were given, and the
            // path of the first vault of that name.
            res matches Ok(request) ==> {
                &&& request.master@ == master_password@
                &&& keyfile is None ==> request.keyfile is None
                &&& keyfile matches Some(KeyfileRef::Path(path)) ==> (request.keyfile matches Some(
                    k,
                ) && k@ == KeyfileModel::Path(path@))
                &&& keyfile matches Some(KeyfileRef::Bytes(bytes)) ==> (
                request.keyfile matches Some(k) && k@ == KeyfileModel::Bytes(bytes@))
                &&& self@.vault is None
                &&& exists|i: int|
                    0 <= i < self@.registry.len() && (#[trigger] self@.registry[i]).name == name@
                        && self@.registry[i].path == request.path@ && forall|j: int|
                        0 <= j < i ==> (#[trigger] self@.registry[j]).name != name@
            },
    {
        let mut master = MasterPassword::new(master_password);
        let keyfile = match keyfile {
            Some(source) => Some(Keyfile::new(source)),
            None => None,
        };
        if self.is_unlocked() {
            master.zeroize();
            return Err(FalachApiError::internal("a vault is already unlocked"));
        }
        match self.registry.get(name) {
            Some(vault) => Ok(UnlockRequest { path: vault.path.clone(), master, keyfile }),
            None => Err(FalachApiError::FileNotFound { path: name.to_owned() }),
        }
    }

    /// Takes an opened vault and the request that opened it into the session.
    pub fn finish_unlock(&mut self, request: UnlockRequest, vault: V, now: Moment)
        ensures
            final(self)@ == old(self)@.opened(vault, request@.credentials, now@),
            final(self)@.vault == Some(vault),
            final(self)@.credentials matches Some(kept) && {
                &&& kept.master == request.master@
                &&& request.keyfile is None ==> kept.keyfile is None
                &&& request.keyfile matches Some(k) ==> kept.keyfile == Some(k@)
            },
            final(self)@.controller.last_activity == now@,
            final(self)@.controller.idle_timeout == old(self)@.controller.idle_timeout,
            old(self)@.wf() && !old(self)@.is_unlocked() ==> final(self)@.wf(),
            old(self)@.outlet.delivered() ==> final(self)@.outlet.delivered(),
    {
        self.controller.unlock(now);
        self.credentials = Some(SessionCredentials::new(request.master, request.keyfile));
        self.vault = Some(vault);
        self.push_lock_event(LockEvent::Unlocked);
    }
}

/// One tick of the session at `now`: looks at reported activity, at the idle deadline
/// and at the lifecycle, and locks where one of them asks for it.
pub fn tick_inner<V>(
    state: &mut SessionState<V>,
    now: Moment,
    activity_millis: i64,
    lifecycle: LifecycleStateDto,
    grace_start: &mut Option<Moment>,
    last_seen_activity: &mut i64,
)
    ensures
        final(state)@ == old(state)@.ticked(
            now@,
            activity_millis,
            lifecycle,
            moment_view(*old(grace_start)),
            *old(last_seen_activity),
        ),
        moment_view(*final(grace_start)) == grace_after(
            lifecycle,
            moment_view(*old(grace_start)),
            now@,
        ),
        *final(last_seen_activity) == activity_millis,
        // A report of activity that differs from the last one moves the idle deadline.
        old(state)@.controller.state == LockState::Active && activity_millis != 0
            && activity_millis != *old(last_seen_activity)
            ==> final(state)@.controller.last_activity == now@,
        (activity_millis == 0 || activity_millis == *old(last_seen_activity)) && (lifecycle
            != LifecycleStateDto::Resumed || *old(grace_start) is None)
            ==> final(state)@.controller.last_activity == old(state)@.controller.last_activity,
        // A detached frontend, and one that stayed in the background, is locked out.
        lifecycle == LifecycleStateDto::Detached ==> final(state)@.vault is None,
        (lifecycle == LifecycleStateDto::Hidden || lifecycle == LifecycleStateDto::Paused) && (*old(
            grace_start,
        ) matches Some(started) && now@ >= started@ + 15_000_000_000) ==> final(state)@.vault is None,
        // The lock comes with the tick after the one that found the deadline passed.
        old(state)@.controller.state != LockState::Active ==> final(state)@.vault is None,
        old(state)@.controller.state == LockState::Active && (activity_millis == 0
            || activity_millis == *old(last_seen_activity)) && old(state)@.controller.idle_timeout > 0
            && now@ >= old(state)@.controller.last_activity + old(state)@.controller.idle_timeout
            ==> final(state)@.controller.state != LockState::Active,
        old(state)@.wf() ==> final(state)@.wf(),
        old(state)@.outlet.delivered() ==> final(state)@.outlet.delivered(),
{
    if activity_millis != 0 && activity_millis != *last_seen_activity {
        state.controller.register_activity(now);
    }
    *last_seen_activity = activity_millis;

    let lock_state = state.controller.tick(now);

    let verdict = observe_lifecycle(lifecycle, now, grace_start);
    if verdict.counts_as_activity {
        state.controller.register_activity(now);
    }
    let should_lock = verdict.lock || lock_state == LockState::Locked;

    if should_lock && state.is_unlocked() {
        state.do_lock();
    }
}

} // verus!
