//! A session as a frontend uses it.

use vstd::prelude::*;
use crate::auto_lock::{AutoLockConfig, AutoLockController, AutoLockModel, LockState};
use crate::credentials::{keyfile_arg_view, KeyfileModel};
use crate::dto::{AppInitConfig, KeyfileRef, LifecycleStateDto, LockEvent};
use crate::error::{FalachApiError, SecurityError};
use crate::event::EventSink;
use crate::lifecycle::{code_of_lifecycle, lifecycle_from_u8, lifecycle_to_u8, moment_view};
use crate::registry::{is_registered, registered_path, VaultEntry, VaultRegistry};
use crate::state::{given_credentials, tick_inner, SessionModel, SessionState, TickModel, UnlockModel, UnlockRequest};
use crate::time::{epoch_millis_now, is_wall_clock_millis, Moment, MonotonicClock, Span};

verus! {

/// A session and its surroundings as the contracts speak of them.
pub struct AppModel<V> {
    pub session: SessionModel<V>,
    pub clock: MonotonicClock,
    /// When activity was last reported, in milliseconds of the wall clock; zero if never.
    pub last_activity: i64,
    /// The code of the lifecycle state that was reported last.
    pub lifecycle_state: u8,
    /// The ticker has been told to stop.
    pub ticker_shutdown: bool,
    /// A ticker runs that nobody has waited for yet.
    pub ticker_attached: bool,
    /// What the ticker remembers: when the grace time began that it sees running, and
    /// the report of activity that its last tick saw.
    pub grace_start: Option<nat>,
    pub last_seen: i64,
    /// What ticks made by hand remember.
    pub manual_grace_start: Option<nat>,
    pub manual_last_seen: i64,
}

impl<V> AppModel<V> {
    /// A session that has just been set up.
    pub open spec fn initial(
        registry: Seq<VaultEntry>,
        idle_timeout: nat,
        ticker_attached: bool,
        clock: MonotonicClock,
    ) -> AppModel<V> {
        AppModel {
            session: SessionModel::initial(registry, AutoLockModel::initial(idle_timeout)),
            clock,
            last_activity: 0,
            lifecycle_state: 0,
            ticker_shutdown: false,
            ticker_attached,
            grace_start: None,
            last_seen: 0,
            manual_grace_start: None,
            manual_last_seen: 0,
        }
    }

    pub open spec fn wf(self) -> bool {
        self.session.wf() && self.session.outlet.delivered()
    }

    /// The session as the ticker finds it.
    pub open spec fn ticker(self) -> TickModel<V> {
        TickModel {
            session: self.session,
            grace_start: self.grace_start,
            last_seen: self.last_seen,
        }
    }

    /// The session as a tick made by hand finds it.
    pub open spec fn by_hand(self) -> TickModel<V> {
        TickModel {
            session: self.session,
            grace_start: self.manual_grace_start,
            last_seen: self.manual_last_seen,
        }
    }

    /// One tick of the ticker that finds these reports of activity and lifecycle.
    pub open spec fn ticked(self, now: nat, activity_millis: i64, lifecycle_code: u8) -> AppModel<
        V,
    > {
        let next = self.ticker().ticked(now, activity_millis, lifecycle_code);
        AppModel {
            session: next.session,
            grace_start: next.grace_start,
            last_seen: next.last_seen,
            ..self
        }
    }

    /// One tick made by hand, which looks at the session's own reports.
    pub open spec fn driven(self, now: nat) -> AppModel<V> {
        let next = self.by_hand().ticked(now, self.last_activity, self.lifecycle_state);
        AppModel {
            session: next.session,
            manual_grace_start: next.grace_start,
            manual_last_seen: next.last_seen,
            ..self
        }
    }

    /// A session as whoever enters it finds it: dropped to locked where a holder failed
    /// half-way, and as it was left otherwise.
    pub open spec fn entered(self, poisoned: bool) -> AppModel<V> {
        if poisoned {
            AppModel { session: self.session.recovered(), ..self }
        } else {
            self
        }
    }

    pub open spec fn locked(self) -> AppModel<V> {
        AppModel { session: self.session.after_lock_request(), ..self }
    }

    pub open spec fn shut_down(self) -> AppModel<V> {
        AppModel { ticker_shutdown: true, ticker_attached: false, ..self.locked() }
    }
}

/// Which directories a session works in.
pub enum PathSelection {
    StateAndConfig { state_dir: String, config_dir: String },
    StateOnly { state_dir: String },
    /// What the environment says.
    Environment,
}

/// The selection is what the configuration asks for. A configuration directory alone
/// selects nothing: both are then taken from the environment.
pub open spec fn selects(cfg: AppInitConfig, paths: PathSelection) -> bool {
    match (cfg.state_dir, cfg.config_dir) {
        (Some(state), Some(config)) => paths matches PathSelection::StateAndConfig {
            state_dir,
            config_dir,
        } && state_dir@ == state@ && config_dir@ == config@,
        (Some(state), None) => paths matches PathSelection::StateOnly { state_dir } && state_dir@
            == state@,
        (None, _) => paths == PathSelection::Environment,
    }
}

/// Picks the directories for a configuration.
pub fn select_paths(cfg: &AppInitConfig) -> (paths: PathSelection)
    ensures
        selects(*cfg, paths),
{
    match (&cfg.state_dir, &cfg.config_dir) {
        (Some(state), Some(config)) => PathSelection::StateAndConfig {
            state_dir: state.clone(),
            config_dir: config.clone(),
        },
        (Some(state), None) => PathSelection::StateOnly { state_dir: state.clone() },
        _ => PathSelection::Environment,
    }
}

/// What the ticker does after one more second.
#[derive(Clone, Copy, PartialEq, Eq, Structural, Debug)]
pub enum TickerAction {
    /// End the ticker.
    Stop,
    /// Let this second pass.
    Skip,
    /// Tick the session.
    Tick,
}

/// What the ticker does: it stops when told to, and lets the second pass when the session
/// is in use or not usable.
pub open spec fn ticker_decision(shutdown: bool, session_available: bool) -> TickerAction {
    if shutdown {
        TickerAction::Stop
    } else if session_available {
        TickerAction::Tick
    } else {
        TickerAction::Skip
    }
}

/// Decides what the ticker does after one more second.
pub fn ticker_action(shutdown: bool, session_available: bool) -> (action: TickerAction)
    ensures
        action == ticker_decision(shutdown, session_available),
{
    if shutdown {
        TickerAction::Stop
    } else if session_available {
        TickerAction::Tick
    } else {
        TickerAction::Skip
    }
}

/// A session over vaults of type `V`.
pub struct AppSession<V> {
    inner: SessionState<V>,
    clock: MonotonicClock,
    last_activity: i64,
    lifecycle_state: u8,
    ticker_shutdown: bool,
    ticker_attached: bool,
    grace_start: Option<Moment>,
    last_seen: i64,
    manual_grace_start: Option<Moment>,
    manual_last_seen: i64,
}

impl<V> View for AppSession<V> {
    type V = AppModel<V>;

    closed spec fn view(&self) -> AppModel<V> {
        AppModel {
            session: self.inner@,
            clock: self.clock,
            last_activity: self.last_activity,
            lifecycle_state: self.lifecycle_state,
            ticker_shutdown: self.ticker_shutdown,
            ticker_attached: self.ticker_attached,
            grace_start: moment_view(self.grace_start),
            last_seen: self.last_seen,
            manual_grace_start: moment_view(self.manual_grace_start),
            manual_last_seen: self.manual_last_seen,
        }
    }
}

/// A new session is what these settings ask for: locked, with a clock whose origin was
/// read from the system's; or refused because the controller cannot be built, with the
/// reason behind `prefix`.
pub open spec fn is_new_session<V>(
    res: Result<AppSession<V>, FalachApiError>,
    registry: Seq<VaultEntry>,
    idle_timeout: nat,
    ticker_attached: bool,
    prefix: Seq<char>,
) -> bool {
    match res {
        Ok(session) => {
            &&& idle_timeout > 0
            &&& session@ == AppModel::<V>::initial(
                registry,
                idle_timeout,
                ticker_attached,
                session@.clock,
            )
            &&& session@.clock.origin_was_read()
            &&& session@.wf()
        },
        Err(error) => {
            &&& idle_timeout == 0
            &&& error.is_internal(prefix + SecurityError::ZeroIdleTimeout.text())
        },
    }
}

/// Sets up a session that a ticker is going to drive. `load` makes the chosen
/// directories ready and reads the registry of vaults from them.
pub fn init_app<V, L>(cfg: &AppInitConfig, auto_lock: AutoLockConfig, load: L) -> (res: Result<
    AppSession<V>,
    FalachApiError,
>) where L: FnOnce(&PathSelection) -> Result<VaultRegistry, FalachApiError>
    requires
        forall|paths: &PathSelection| selects(*cfg, *paths) ==> #[trigger] load.requires((paths,)),
    ensures
        exists|paths: &PathSelection, loaded: Result<VaultRegistry, FalachApiError>|
            {
                &&& selects(*cfg, *paths)
                &&& #[trigger] load.ensures((paths,), loaded)
                &&& match loaded {
                    Ok(registry) => is_new_session(
                        res,
                        registry@,
                        auto_lock.idle_timeout@,
                        true,
                        "auto-lock controller init: "@,
                    ),
                    Err(error) => res == Err::<AppSession<V>, FalachApiError>(error),
                }
            },
        res matches Ok(session) ==> {
            &&& session@.session.controller.idle_timeout == auto_lock.idle_timeout@
            &&& session@.session.vault is None
            &&& session@.session.credentials is None
        },
{
    let paths = select_paths(cfg);
    match load(&paths) {
        Ok(registry) => AppSession::with_controller(
            registry,
            auto_lock,
            true,
            "auto-lock controller init: ",
        ),
        Err(error) => Err(error),
    }
}

impl<V> AppSession<V> {
    fn with_controller(
        registry: VaultRegistry,
        auto_lock: AutoLockConfig,
        ticker_attached: bool,
        prefix: &str,
    ) -> (res: Result<AppSession<V>, FalachApiError>)
        ensures
            is_new_session(
                res,
                registry@,
                auto_lock.idle_timeout@,
                ticker_attached,
                prefix@,
            ),
            res matches Ok(session) ==> {
                &&& session@.session.controller.idle_timeout == auto_lock.idle_timeout@
                &&& session@.session.vault is None
                &&& session@.session.credentials is None
            },
    {
        match AutoLockController::new(auto_lock) {
            Ok(controller) => Ok(
                AppSession {
                    inner: SessionState::new(registry, controller),
                    clock: MonotonicClock::start(),
                    last_activity: 0,
                    lifecycle_state: lifecycle_to_u8(LifecycleStateDto::Resumed),
                    ticker_shutdown: false,
                    ticker_attached,
                    grace_start: None,
                    last_seen: 0,
                    manual_grace_start: None,
                    manual_last_seen: 0,
                },
            ),
            Err(error) => Err(FalachApiError::controller_init(prefix, error)),
        }
    }

    /// A session without a ticker, to be driven by `drive_tick`, over the registry that
    /// was loaded. A registry that could not be loaded is reported first.
    pub fn for_test(
        loaded: Result<VaultRegistry, FalachApiError>,
        auto_lock: AutoLockConfig,
    ) -> (res: Result<AppSession<V>, FalachApiError>)
        ensures
            match loaded {
                Ok(registry) => is_new_session(
                    res,
                    registry@,
                    auto_lock.idle_timeout@,
                    false,
                    "controller init: "@,
                ),
                Err(error) => res == Err::<AppSession<V>, FalachApiError>(error),
            },
            res matches Ok(session) ==> {
                &&& session@.session.controller.idle_timeout == auto_lock.idle_timeout@
                &&& session@.session.vault is None
                &&& session@.session.credentials is None
            },
            loaded is Ok && auto_lock.idle_timeout@ > 0 ==> res is Ok,
    {
        match loaded {
            Ok(registry) => AppSession::with_controller(
                registry,
                auto_lock,
                false,
                "controller init: ",
            ),
            Err(error) => Err(error),
        }
    }

    /// A session without a ticker that locks after this time without activity.
    pub fn for_test_with_timeout(
        loaded: Result<VaultRegistry, FalachApiError>,
        idle_timeout: Span,
    ) -> (res: Result<AppSession<V>, FalachApiError>)
        ensures
            match loaded {
                Ok(registry) => is_new_session(
                    res,
                    registry@,
                    idle_timeout@,
                    false,
                    "controller init: "@,
                ),
                Err(error) => res == Err::<AppSession<V>, FalachApiError>(error),
            },
            res matches Ok(session) ==> {
                &&& session@.session.controller.idle_timeout == idle_timeout@
                &&& session@.session.vault is None
                &&& session@.session.credentials is None
            },
            loaded is Ok && idle_timeout@ > 0 ==> res is Ok,
    {
        AppSession::for_test(loaded, AutoLockConfig { idle_timeout })
    }

    /// The current moment of the session's clock.
    pub fn now(&self) -> (moment: Moment)
        ensures
            self@.clock.showed(moment),
    {
        self.clock.now()
    }

    /// Sends the session's events to this sink from now on.
    pub fn lock_events(&mut self, sink: Box<dyn EventSink<LockEvent>>)
        ensures
            final(self)@.session.outlet.sink is Some,
            final(self)@.session.outlet.sink->0 == sink,
            final(self)@ == (AppModel {
                session: old(self)@.session.with_sink(final(self)@.session.outlet.sink),
                ..old(self)@
            }),
            old(self)@.wf() ==> final(self)@.wf(),
    {
        let present = Some(sink);
        self.inner.set_sink(present);
    }

    /// The time of the last report of activity, in milliseconds of the wall clock.
    pub fn last_activity(&self) -> (millis: i64)
        ensures
            millis == self@.last_activity,
    {
        self.last_activity
    }

    /// Records activity at a given time of the wall clock. The session itself is not
    /// touched: the next tick looks at the record.
    pub fn record_activity(&mut self, millis: i64)
        ensures
            final(self)@ == (AppModel { last_activity: millis, ..old(self)@ }),
            old(self)@.wf() ==> final(self)@.wf(),
    {
        self.last_activity = millis;
    }

    /// Records activity at the present time of the wall clock.
    pub fn report_activity(&mut self)
        ensures
            is_wall_clock_millis(final(self)@.last_activity),
            final(self)@ == (AppModel {
                last_activity: final(self)@.last_activity,
                ..old(self)@
            }),
            old(self)@.wf() ==> final(self)@.wf(),
    {
        let millis = epoch_millis_now();
        self.record_activity(millis);
    }

    /// Records what the frontend says of its lifecycle. The next tick looks at it.
    pub fn report_lifecycle_state(&mut self, state: LifecycleStateDto)
        ensures
            final(self)@ == (AppModel {
                lifecycle_state: code_of_lifecycle(state),
                ..old(self)@
            }),
            old(self)@.wf() ==> final(self)@.wf(),
    {
        self.lifecycle_state = lifecycle_to_u8(state);
    }

    /// Unlocks the vault of that name. `open` opens it; `build_tree` reads from it what
    /// the frontend shows. A session that is unlocked, a name that nobody registered and
    /// a vault that does not open leave the session as it was. In the first two cases
    /// nothing is opened: `open` may be called for the one request that a locked session
    /// makes of a registered name, and for no other.
    pub fn unlock<T, O, B>(
        &mut self,
        name: &str,
        master_password: String,
        keyfile: Option<KeyfileRef>,
        open: O,
        build_tree: B,
    ) -> (res: Result<T, FalachApiError>) where
        O: FnOnce(&UnlockRequest) -> Result<V, FalachApiError>,
        B: FnOnce(&V) -> T,

        requires
            !old(self)@.session.is_unlocked() && is_registered(old(self)@.session.registry, name@)
                ==> forall|request: &UnlockRequest|
                request@ == (UnlockModel {
                    path: registered_path(old(self)@.session.registry, name@),
                    credentials: given_credentials(master_password@, keyfile_arg_view(keyfile)),
                }) ==> #[trigger] open.requires((request,)),
            forall|request: &UnlockRequest, vault: V| #[trigger]
                open.ensures((request,), Ok(vault)) ==> build_tree.requires((&vault,)),
        ensures
            old(self)@.session.is_unlocked() ==> {
                &&& res matches Err(error)
                &&& error.is_internal("a vault is already unlocked"@)
                &&& final(self)@ == old(self)@
            },
            !old(self)@.session.is_unlocked() && !is_registered(
                old(self)@.session.registry,
                name@,
            ) ==> {
                &&& res matches Err(error)
                &&& error.is_file_not_found(name@)
                &&& final(self)@ == old(self)@
            },
            !old(self)@.session.is_unlocked() && is_registered(old(self)@.session.registry, name@)
                ==> exists|request: &UnlockRequest, opened: Result<V, FalachApiError>|
                {
                    &&& request@ == (UnlockModel {
                        path: registered_path(old(self)@.session.registry, name@),
                        credentials: given_credentials(master_password@, keyfile_arg_view(keyfile)),
                    })
                    &&& request.master@ == master_password@
                    &&& keyfile is None ==> request.keyfile is None
                    &&& keyfile matches Some(KeyfileRef::Path(path)) ==> (
                    request.keyfile matches Some(k) && k@ == KeyfileModel::Path(path@))
                    &&& keyfile matches Some(KeyfileRef::Bytes(bytes)) ==> (
                    request.keyfile matches Some(k) && k@ == KeyfileModel::Bytes(bytes@))
                    &&& #[trigger] open.ensures((request,), opened)
                    &&& match opened {
                        Ok(vault) => {
                            &&& res matches Ok(tree)
                            &&& build_tree.ensures((&vault,), tree)
                            &&& exists|now: Moment| #[trigger]
                                old(self)@.clock.showed(now) && final(self)@.session == old(
                                    self,
                                )@.session.opened(
                                    vault,
                                    given_credentials(master_password@, keyfile_arg_view(keyfile)),
                                    now@,
                                )
                            &&& is_wall_clock_millis(final(self)@.last_activity)
                            &&& final(self)@ == (AppModel {
                                session: final(self)@.session,
                                last_activity: final(self)@.last_activity,
                                ..old(self)@
                            })
                        },
                        Err(error) => {
                            &&& res == Err::<T, FalachApiError>(error)
                            &&& final(self)@ == old(self)@
                        },
                    }
                },
            // What an unlock keeps is the password and the keyfile that were given.
            res is Ok ==> {
                &&& final(self)@.session.vault is Some
                &&& final(self)@.session.credentials matches Some(kept) && {
                    &&& kept.master == master_password@
                    &&& keyfile is None ==> kept.keyfile is None
                    &&& keyfile matches Some(KeyfileRef::Path(path)) ==> kept.keyfile == Some(
                        KeyfileModel::Path(path@),
                    )
                    &&& keyfile matches Some(KeyfileRef::Bytes(bytes)) ==> kept.keyfile == Some(
                        KeyfileModel::Bytes(bytes@),
                    )
                }
                &&& final(self)@.session.controller.idle_timeout == old(
                    self,
                )@.session.controller.idle_timeout
            },
            res is Err ==> final(self)@ == old(self)@,
            old(self)@.wf() ==> final(self)@.wf(),
    {
        let request = match self.inner.prepare_unlock(name, master_password, keyfile) {
            Ok(request) => request,
            Err(error) => {
                return Err(error);
            },
        };
        match open(&request) {
            Ok(vault) => {
                let now = self.clock.now();
                self.last_activity = epoch_millis_now();
                let tree = build_tree(&vault);
                self.inner.finish_unlock(request, vault, now);
                Ok(tree)
            },
            Err(error) => Err(error),
        }
    }

    /// Locks the session if it is unlocked.
    pub fn lock_now(&mut self) -> (res: Result<(), FalachApiError>)
        ensures
            res is Ok,
            final(self)@ == old(self)@.locked(),
            final(self)@.session.vault is None,
            old(self)@.session.vault is Some ==> final(self)@.session.credentials is None,
            old(self)@.session.vault is Some && old(self)@.session.outlet.sink is Some
                ==> final(self)@.session.outlet.sent == old(self)@.session.outlet.sent.push(
                LockEvent::Locked,
            ),
            old(self)@.wf() ==> final(self)@.wf(),
    {
        self.inner.lock_now();
        Ok(())
    }

    /// Locks the session and tells the ticker to stop. The result says whether there is
    /// a ticker to wait for: only the first call finds one.
    pub fn shutdown(&mut self) -> (wait_for_ticker: bool)
        ensures
            wait_for_ticker == old(self)@.ticker_attached,
            final(self)@ == old(self)@.shut_down(),
            final(self)@.ticker_shutdown,
            !final(self)@.ticker_attached,
            final(self)@.session.vault is None,
            old(self)@.session.vault is Some ==> final(self)@.session.credentials is None,
            old(self)@.session.vault is Some && old(self)@.session.outlet.sink is Some
                ==> final(self)@.session.outlet.sent == old(self)@.session.outlet.sent.push(
                LockEvent::Locked,
            ),
            old(self)@.wf() ==> final(self)@.wf(),
    {
        self.ticker_shutdown = true;
        self.inner.lock_now();
        let attached = self.ticker_attached;
        self.ticker_attached = false;
        attached
    }

    /// Whether the ticker has been told to stop.
    pub fn is_shut_down(&self) -> (told: bool)
        ensures
            told == self@.ticker_shutdown,
    {
        self.ticker_shutdown
    }

    /// Whether a ticker runs that nobody has waited for yet.
    pub fn has_ticker(&self) -> (attached: bool)
        ensures
            attached == self@.ticker_attached,
    {
        self.ticker_attached
    }

    /// Enters the session. A session that a failed holder left poisoned is recovered every
    /// time; any other is left as it is.
    pub fn lock_state(&mut self, poisoned: bool)
        ensures
            final(self)@ == old(self)@.entered(poisoned),
            old(self)@.wf() ==> final(self)@.wf(),
    {
        if poisoned {
            self.recover_poisoned();
        }
    }

    /// Makes the session usable again after one of its holders failed half-way: vault
    /// and credentials are dropped and the frontend is told that it is locked.
    pub fn recover_poisoned(&mut self)
        ensures
            final(self)@ == old(self)@.entered(true),
            final(self)@.session.vault is None,
            final(self)@.session.credentials is None,
            final(self)@.session.controller == old(self)@.session.controller,
            old(self)@.wf() ==> final(self)@.wf(),
    {
        self.inner.recover_poisoned();
    }

    /// One tick of the ticker at `now` that finds these reports of activity and lifecycle.
    pub fn tick(&mut self, now: Moment, activity_millis: i64, lifecycle_code: u8)
        ensures
            final(self)@ == old(self)@.ticked(now@, activity_millis, lifecycle_code),
            // A report of activity that differs from the last one moves the idle deadline.
            old(self)@.session.controller.state == LockState::Active && activity_millis != 0 && activity_millis != old(self)@.last_seen
                ==> final(self)@.session.controller.last_activity == now@,
            (activity_millis == 0 || activity_millis == old(self)@.last_seen) && (1 <= lifecycle_code <= 4 || old(self)@.grace_start is None)
                ==> final(self)@.session.controller.last_activity == old(
                self,
            )@.session.controller.last_activity,
            // Neither a detached frontend nor one that stayed in the background keeps a vault.
            lifecycle_code == 4 ==> final(self)@.session.vault is None,
            (lifecycle_code == 2 || lifecycle_code == 3) && old(self)@.grace_start is Some && now@ >= old(self)@.grace_start->0 + 15_000_000_000
                ==> final(self)@.session.vault is None,
            // The lock comes with the tick after the one that found the deadline passed.
            old(self)@.session.controller.state != LockState::Active
                ==> final(self)@.session.vault is None,
            old(self)@.session.controller.state == LockState::Active && (activity_millis == 0 || activity_millis == old(self)@.last_seen)
                && old(self)@.session.controller.idle_timeout > 0 && now@ >= old(
                self,
            )@.session.controller.last_activity + old(self)@.session.controller.idle_timeout
                ==> final(self)@.session.controller.state != LockState::Active,
            old(self)@.wf() ==> final(self)@.wf(),
    {
        let lifecycle = lifecycle_from_u8(lifecycle_code);
        tick_inner(
            &mut self.inner,
            now,
            activity_millis,
            lifecycle,
            &mut self.grace_start,
            &mut self.last_seen,
        );
    }

    /// One tick by hand at `now`. It keeps its own account of grace time and of activity
    /// seen, apart from the ticker's.
    pub fn drive_tick(&mut self, now: Moment)
        ensures
            final(self)@ == old(self)@.driven(now@),
            // A report of activity that differs from the last one moves the idle deadline.
            old(self)@.session.controller.state == LockState::Active && old(self)@.last_activity != 0 && old(self)@.last_activity != old(self)@.manual_last_seen
                ==> final(self)@.session.controller.last_activity == now@,
            (old(self)@.last_activity == 0 || old(self)@.last_activity == old(self)@.manual_last_seen) && (1 <= old(self)@.lifecycle_state <= 4 || old(self)@.manual_grace_start is None)
                ==> final(self)@.session.controller.last_activity == old(
                self,
            )@.session.controller.last_activity,
            // Neither a detached frontend nor one that stayed in the background keeps a vault.
            old(self)@.lifecycle_state == 4 ==> final(self)@.session.vault is None,
            (old(self)@.lifecycle_state == 2 || old(self)@.lifecycle_state == 3) && old(self)@.manual_grace_start is Some && now@ >= old(self)@.manual_grace_start->0 + 15_000_000_000
                ==> final(self)@.session.vault is None,
            // The lock comes with the tick after the one that found the deadline passed.
            old(self)@.session.controller.state != LockState::Active
                ==> final(self)@.session.vault is None,
            old(self)@.session.controller.state == LockState::Active && (old(self)@.last_activity == 0 || old(self)@.last_activity == old(self)@.manual_last_seen)
                && old(self)@.session.controller.idle_timeout > 0 && now@ >= old(
                self,
            )@.session.controller.last_activity + old(self)@.session.controller.idle_timeout
                ==> final(self)@.session.controller.state != LockState::Active,
            old(self)@.wf() ==> final(self)@.wf(),
    {
        let activity_millis = self.last_activity;
        let lifecycle = lifecycle_from_u8(self.lifecycle_state);
        tick_inner(
            &mut self.inner,
            now,
            activity_millis,
            lifecycle,
            &mut self.manual_grace_start,
            &mut self.manual_last_seen,
        );
    }

    pub fn has_vault(&self) -> (open: bool)
        ensures
            open == self@.session.is_unlocked(),
    {
        self.inner.is_unlocked()
    }

    pub fn has_credentials(&self) -> (kept: bool)
        ensures
            kept == (self@.session.credentials is Some),
    {
        self.inner.has_credentials()
    }
}

} // verus!
