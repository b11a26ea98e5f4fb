use std::sync::mpsc;
use std::sync::{Arc, Mutex};

use falach_api::auto_lock::{AutoLockConfig, AutoLockController, LockState, OsLockReason};
use falach_api::credentials::{Keyfile, MasterPassword, SessionCredentials};
use falach_api::dto::{AppInitConfig, KeyfileRef, LifecycleStateDto, LockEvent};
use falach_api::error::{FalachApiError, SecurityError};
use falach_api::event::{EventSink, MpscEventSink};
use falach_api::lifecycle::{lifecycle_from_u8, lifecycle_to_u8, LIFECYCLE_GRACE_SECS};
use falach_api::registry::{RegisteredVault, VaultRegistry};
use falach_api::session::{
    init_app, select_paths, ticker_action, AppSession, PathSelection, TickerAction,
};
use falach_api::state::UnlockRequest;
use falach_api::time::{epoch_millis_from, epoch_millis_now, Moment, Span};

/// A vault that says when it is dropped.
struct Handle {
    open: Arc<Mutex<u32>>,
}

impl Drop for Handle {
    fn drop(&mut self) {
        *self.open.lock().unwrap() -= 1;
    }
}

/// A sink that keeps a list.
struct ListSink {
    events: Arc<Mutex<Vec<LockEvent>>>,
}

impl EventSink<LockEvent> for ListSink {
    fn send(&self, event: LockEvent) {
        self.events.lock().unwrap().push(event);
    }
}

fn vault(name: &str, path: &str) -> RegisteredVault {
    RegisteredVault { name: name.to_string(), path: path.to_string() }
}

fn registry() -> VaultRegistry {
    VaultRegistry::new(vec![vault("a", "/a"), vault("b", "/b"), vault("a", "/late")])
}

fn at(secs: u64) -> Moment {
    Moment::from_nanos(secs as u128 * 1_000_000_000)
}

fn session(timeout_secs: u64) -> AppSession<u32> {
    AppSession::for_test_with_timeout(Ok(registry()), Span::from_secs(timeout_secs)).unwrap()
}

fn open_a(session: &mut AppSession<u32>) {
    let tree = session.unlock(
        "a",
        "pw".to_string(),
        None,
        |_request: &UnlockRequest| Ok(7),
        |vault: &u32| vault + 1,
    );
    assert!(matches!(tree, Ok(8)));
}

fn listening(session: &mut AppSession<u32>) -> Arc<Mutex<Vec<LockEvent>>> {
    let events = Arc::new(Mutex::new(Vec::new()));
    session.lock_events(Box::new(ListSink { events: Arc::clone(&events) }));
    events
}

#[test]
fn spans_and_moments() {
    assert_eq!(Span::from_secs(15), Span::from_nanos(15_000_000_000));
    assert_eq!(Span::from_secs(u64::MAX), Span::from_nanos(18446744073709551615_000_000_000));
    assert!(Span::from_nanos(0).is_zero());
    assert!(!Span::from_nanos(1).is_zero());
    assert!(Span::from_nanos(2).at_least(&Span::from_nanos(2)));
    assert!(!Span::from_nanos(1).at_least(&Span::from_nanos(2)));
    assert_eq!(at(5).duration_since(at(3)), Span::from_secs(2));
    assert_eq!(at(3).duration_since(at(5)), Span::from_nanos(0));
    assert_eq!(at(3).checked_add(Span::from_secs(2)), Some(at(5)));
    assert_eq!(Moment::from_nanos(u128::MAX).checked_add(Span::from_nanos(1)), None);
}

#[test]
fn wall_clock_millis() {
    assert_eq!(epoch_millis_from(None), 0);
    assert_eq!(epoch_millis_from(Some(999_999)), 0);
    assert_eq!(epoch_millis_from(Some(1_700_000_000_123_999_999)), 1_700_000_000_123);
    assert_eq!(epoch_millis_from(Some(i64::MAX as u128 * 1_000_000)), i64::MAX);
    assert_eq!(epoch_millis_from(Some(i64::MAX as u128 * 1_000_000 + 1_000_000)), i64::MAX);
    assert_eq!(epoch_millis_from(Some(u128::MAX)), i64::MAX);
    let first = epoch_millis_now();
    assert!(first > 1_500_000_000_000);
}

#[test]
fn session_clock_moves_forward() {
    let session = session(5);
    let first = session.now();
    let mut turns: u64 = 0;
    while session.now() == first {
        turns += 1;
        assert!(turns < 100_000_000);
    }
    assert!(!session.now().duration_since(first).is_zero());
}

#[test]
fn lifecycle_codes() {
    let states = [
        LifecycleStateDto::Resumed,
        LifecycleStateDto::Inactive,
        LifecycleStateDto::Hidden,
        LifecycleStateDto::Paused,
        LifecycleStateDto::Detached,
    ];
    for (code, state) in states.iter().enumerate() {
        assert_eq!(lifecycle_to_u8(*state), code as u8);
        assert_eq!(lifecycle_from_u8(code as u8), *state);
    }
    assert_eq!(lifecycle_from_u8(5), LifecycleStateDto::Resumed);
    assert_eq!(lifecycle_from_u8(255), LifecycleStateDto::Resumed);
    assert_eq!(LIFECYCLE_GRACE_SECS, 15);
}

#[test]
fn controller_runs_from_active_to_expired_to_locked() {
    let config = AutoLockConfig { idle_timeout: Span::from_secs(5) };
    let mut controller = AutoLockController::new(config).unwrap();
    assert_eq!(controller.state(), LockState::Locked);
    assert_eq!(controller.tick(at(0)), LockState::Locked);
    controller.register_activity(at(0));
    assert_eq!(controller.state(), LockState::Locked);
    controller.unlock(at(10));
    assert_eq!(controller.tick(at(14)), LockState::Active);
    controller.register_activity(at(14));
    assert_eq!(controller.tick(at(18)), LockState::Active);
    assert_eq!(controller.tick(at(19)), LockState::Expired);
    controller.register_activity(at(19));
    assert_eq!(controller.tick(at(19)), LockState::Locked);
    controller.unlock(at(30));
    assert_eq!(controller.lock_reason(), None);
    controller.lock_now(OsLockReason::Manual);
    assert_eq!(controller.lock_reason(), Some(OsLockReason::Manual));
    assert_eq!(controller.state(), LockState::Locked);
}

#[test]
fn zero_timeout_is_refused() {
    let zero = AutoLockConfig { idle_timeout: Span::from_secs(0) };
    assert!(matches!(AutoLockController::new(zero), Err(SecurityError::ZeroIdleTimeout)));
    let by_hand: Result<AppSession<u32>, FalachApiError> = AppSession::for_test(Ok(registry()), zero);
    assert!(matches!(
        by_hand,
        Err(FalachApiError::Internal { context }) if context == "controller init: the idle timeout is zero"
    ));
    let cfg = AppInitConfig { state_dir: None, config_dir: None };
    let by_app: Result<AppSession<u32>, FalachApiError> =
        init_app(&cfg, zero, |_paths: &PathSelection| Ok(registry()));
    assert!(matches!(
        by_app,
        Err(FalachApiError::Internal { context })
            if context == "auto-lock controller init: the idle timeout is zero"
    ));
}

#[test]
fn directories_follow_the_configuration() {
    let dir = |s: &str| Some(s.to_string());
    assert!(matches!(
        select_paths(&AppInitConfig { state_dir: dir("/s"), config_dir: dir("/c") }),
        PathSelection::StateAndConfig { state_dir, config_dir } if state_dir == "/s" && config_dir == "/c"
    ));
    assert!(matches!(
        select_paths(&AppInitConfig { state_dir: dir("/s"), config_dir: None }),
        PathSelection::StateOnly { state_dir } if state_dir == "/s"
    ));
    assert!(matches!(
        select_paths(&AppInitConfig { state_dir: None, config_dir: dir("/c") }),
        PathSelection::Environment
    ));
    assert!(matches!(
        select_paths(&AppInitConfig { state_dir: None, config_dir: None }),
        PathSelection::Environment
    ));
}

#[test]
fn failed_load_is_passed_on() {
    let cfg = AppInitConfig { state_dir: None, config_dir: None };
    let config = AutoLockConfig { idle_timeout: Span::from_secs(1) };
    let res: Result<AppSession<u32>, FalachApiError> = init_app(&cfg, config, |_paths: &PathSelection| {
        Err(FalachApiError::FileNotFound { path: "vaults.toml".to_string() })
    });
    assert!(matches!(res, Err(FalachApiError::FileNotFound { path }) if path == "vaults.toml"));
}

#[test]
fn failed_load_is_reported_before_a_bad_timeout() {
    let zero = AutoLockConfig { idle_timeout: Span::from_secs(0) };
    let failed = || Err(FalachApiError::FileNotFound { path: "vaults.toml".to_string() });
    let res: Result<AppSession<u32>, FalachApiError> = AppSession::for_test(failed(), zero);
    assert!(matches!(res, Err(FalachApiError::FileNotFound { path }) if path == "vaults.toml"));
    let res: Result<AppSession<u32>, FalachApiError> =
        AppSession::for_test_with_timeout(failed(), Span::from_secs(0));
    assert!(matches!(res, Err(FalachApiError::FileNotFound { path }) if path == "vaults.toml"));
}

#[test]
fn ticker_and_manual_ticks_keep_apart() {
    let mut session = session(600);
    open_a(&mut session);
    let t0 = session.now();
    let later = |secs: u64| t0.checked_add(Span::from_secs(secs)).unwrap();
    session.tick(later(0), 1, 2);
    // A tick by hand sees the frontend resumed; the ticker's grace time goes on.
    session.drive_tick(later(5));
    session.tick(later(14), 1, 2);
    assert!(session.has_vault());
    session.report_lifecycle_state(LifecycleStateDto::Hidden);
    // The ticker's grace time is over, but the one of ticks by hand begins only now.
    session.drive_tick(later(15));
    assert!(session.has_vault());
    session.tick(later(15), 1, 2);
    assert!(!session.has_vault());
}

#[test]
fn registry_finds_the_first_of_a_name() {
    let registry = registry();
    assert_eq!(registry.get("a").unwrap().path, "/a");
    assert_eq!(registry.get("b").unwrap().path, "/b");
    assert!(registry.get("c").is_none());
    assert!(registry.get("").is_none());
}

#[test]
fn unknown_vault_is_not_found() {
    let mut session = session(5);
    let res = session.unlock(
        "nobody",
        "pw".to_string(),
        None,
        |_request: &UnlockRequest| -> Result<u32, FalachApiError> { panic!("nothing to open") },
        |vault: &u32| *vault,
    );
    assert!(matches!(res, Err(FalachApiError::FileNotFound { path }) if path == "nobody"));
    assert!(!session.has_vault());
    assert_eq!(session.last_activity(), 0);
}

#[test]
fn unlocked_session_refuses_another_unlock() {
    let mut session = session(5);
    let events = listening(&mut session);
    open_a(&mut session);
    let res = session.unlock(
        "b",
        "pw".to_string(),
        None,
        |_request: &UnlockRequest| -> Result<u32, FalachApiError> { panic!("nothing to open") },
        |vault: &u32| *vault,
    );
    assert!(matches!(
        res,
        Err(FalachApiError::Internal { context }) if context == "a vault is already unlocked"
    ));
    assert!(session.has_vault() && session.has_credentials());
    assert_eq!(*events.lock().unwrap(), vec![LockEvent::Unlocked]);
}

#[test]
fn contended_vault_is_reported() {
    let mut session = session(5);
    let res = session.unlock(
        "a",
        "pw".to_string(),
        None,
        |_request: &UnlockRequest| -> Result<u32, FalachApiError> {
            Err(FalachApiError::VaultContended { holder_pid: Some(4711) })
        },
        |vault: &u32| *vault,
    );
    assert!(matches!(res, Err(FalachApiError::VaultContended { holder_pid: Some(4711) })));
    assert!(!session.has_vault() && !session.has_credentials());
}

#[test]
fn opener_gets_path_password_and_keyfile() {
    let mut session = session(5);
    let res = session.unlock(
        "b",
        "secret".to_string(),
        Some(KeyfileRef::Bytes(vec![1, 2, 3])),
        |request: &UnlockRequest| {
            assert_eq!(request.path, "/b");
            assert_eq!(request.master.expose(), "secret");
            let keyfile = request.keyfile.as_ref().unwrap();
            assert!(matches!(keyfile.expose(), KeyfileRef::Bytes(b) if *b == vec![1, 2, 3]));
            Ok(1)
        },
        |vault: &u32| *vault,
    );
    assert!(matches!(res, Ok(1)));
    assert!(session.last_activity() > 0);
}

#[test]
fn secrets_are_wiped() {
    let mut master = MasterPassword::new("hunter2".to_string());
    assert_eq!(master.expose(), "hunter2");
    master.zeroize();
    assert_eq!(master.expose(), "");
    let mut bytes = Keyfile::new(KeyfileRef::Bytes(vec![9, 9]));
    bytes.zeroize();
    assert!(matches!(bytes.expose(), KeyfileRef::Bytes(b) if b.is_empty()));
    let mut path = Keyfile::new(KeyfileRef::Path("/key".to_string()));
    assert!(matches!(path.expose(), KeyfileRef::Path(p) if p == "/key"));
    path.zeroize();
    assert!(matches!(path.expose(), KeyfileRef::Path(p) if p.is_empty()));
}

#[test]
fn credentials_do_not_show_in_logs() {
    let credentials = SessionCredentials::new(
        MasterPassword::new("hunter2".to_string()),
        Some(Keyfile::new(KeyfileRef::Path("/key".to_string()))),
    );
    assert_eq!(credentials.debug_text(), "SessionCredentials(***)");
    assert_eq!(credentials.master().expose(), "hunter2");
    assert!(matches!(credentials.keyfile().unwrap().expose(), KeyfileRef::Path(p) if p == "/key"));
}

#[test]
fn channel_sink_passes_events_on() {
    let (tx, rx) = mpsc::channel();
    let sink = MpscEventSink::new(tx);
    sink.send(LockEvent::Unlocked);
    sink.send(LockEvent::Locked);
    assert_eq!(rx.recv(), Ok(LockEvent::Unlocked));
    assert_eq!(rx.recv(), Ok(LockEvent::Locked));
    drop(rx);
    sink.send(LockEvent::Locked);
}

#[test]
fn locking_drops_the_vault_itself() {
    let open = Arc::new(Mutex::new(0));
    let mut session: AppSession<Handle> =
        AppSession::for_test_with_timeout(Ok(registry()), Span::from_secs(5)).unwrap();
    let handle = Arc::clone(&open);
    let res = session.unlock(
        "a",
        "pw".to_string(),
        None,
        move |_request: &UnlockRequest| {
            *handle.lock().unwrap() += 1;
            Ok(Handle { open: handle })
        },
        |_vault: &Handle| (),
    );
    assert!(res.is_ok());
    assert_eq!(*open.lock().unwrap(), 1);
    session.lock_now().unwrap();
    assert_eq!(*open.lock().unwrap(), 0);
}

#[test]
fn locking_twice_tells_once() {
    let mut session = session(5);
    let events = listening(&mut session);
    session.lock_now().unwrap();
    assert!(events.lock().unwrap().is_empty());
    open_a(&mut session);
    session.lock_now().unwrap();
    session.lock_now().unwrap();
    session.shutdown();
    session.tick(at(100), 0, 4);
    assert_eq!(*events.lock().unwrap(), vec![LockEvent::Unlocked, LockEvent::Locked]);
}

#[test]
fn only_the_present_sink_is_told() {
    let mut session = session(5);
    let first = listening(&mut session);
    open_a(&mut session);
    let second = listening(&mut session);
    session.lock_now().unwrap();
    assert_eq!(*first.lock().unwrap(), vec![LockEvent::Unlocked]);
    assert_eq!(*second.lock().unwrap(), vec![LockEvent::Locked]);
}

#[test]
fn shutdown_twice_finds_one_ticker() {
    let cfg = AppInitConfig { state_dir: None, config_dir: None };
    let config = AutoLockConfig { idle_timeout: Span::from_secs(1) };
    let mut session: AppSession<u32> =
        init_app(&cfg, config, |_paths: &PathSelection| Ok(registry())).unwrap();
    assert!(session.has_ticker() && !session.is_shut_down());
    let events = listening(&mut session);
    open_a(&mut session);
    assert!(session.shutdown());
    assert!(!session.has_ticker() && session.is_shut_down());
    assert!(!session.shutdown());
    assert_eq!(*events.lock().unwrap(), vec![LockEvent::Unlocked, LockEvent::Locked]);
}

#[test]
fn ticker_decisions() {
    assert_eq!(ticker_action(true, true), TickerAction::Stop);
    assert_eq!(ticker_action(true, false), TickerAction::Stop);
    assert_eq!(ticker_action(false, true), TickerAction::Tick);
    assert_eq!(ticker_action(false, false), TickerAction::Skip);
}

#[test]
fn recovery_drops_everything_and_always_tells() {
    let mut session = session(5);
    let events = listening(&mut session);
    open_a(&mut session);
    session.recover_poisoned();
    assert!(!session.has_vault() && !session.has_credentials());
    session.recover_poisoned();
    assert_eq!(
        *events.lock().unwrap(),
        vec![LockEvent::Unlocked, LockEvent::Locked, LockEvent::Locked]
    );
    open_a(&mut session);
    assert!(session.has_vault());
}

#[test]
fn entering_a_poisoned_session_recovers_it_every_time() {
    let mut session = session(5);
    let events = listening(&mut session);
    open_a(&mut session);
    session.lock_state(false);
    assert!(session.has_vault());
    session.lock_state(true);
    assert!(!session.has_vault() && !session.has_credentials());
    open_a(&mut session);
    session.lock_state(true);
    assert!(!session.has_vault() && !session.has_credentials());
    assert_eq!(
        *events.lock().unwrap(),
        vec![LockEvent::Unlocked, LockEvent::Locked, LockEvent::Unlocked, LockEvent::Locked]
    );
}

#[test]
fn events_take_turns() {
    let mut session = session(5);
    let events = listening(&mut session);
    session.lock_now().unwrap();
    open_a(&mut session);
    session.tick(at(1_000_000), 0, 4);
    session.tick(at(1_000_001), 0, 4);
    open_a(&mut session);
    session.shutdown();
    open_a(&mut session);
    assert!(session.has_vault());
    assert_eq!(
        *events.lock().unwrap(),
        vec![
            LockEvent::Unlocked,
            LockEvent::Locked,
            LockEvent::Unlocked,
            LockEvent::Locked,
            LockEvent::Unlocked,
        ]
    );
}

#[test]
fn new_activity_defers_the_idle_lock() {
    let mut session = session(5);
    open_a(&mut session);
    let t0 = session.now();
    let later = |secs: u64| t0.checked_add(Span::from_secs(secs)).unwrap();
    session.tick(later(0), 1, 0);
    session.tick(later(4), 2, 0);
    session.tick(later(8), 2, 0);
    session.tick(later(9), 2, 0);
    assert!(session.has_vault());
    // The deadline has passed: activity comes too late.
    session.tick(later(9), 3, 0);
    assert!(!session.has_vault());
}

#[test]
fn zero_is_no_report_of_activity() {
    let mut session = session(5);
    open_a(&mut session);
    let t0 = session.now();
    let later = |secs: u64| t0.checked_add(Span::from_secs(secs)).unwrap();
    session.record_activity(0);
    session.drive_tick(later(6));
    session.drive_tick(later(6));
    assert!(!session.has_vault());
}

#[test]
fn reports_do_not_touch_the_session() {
    let mut session = session(5);
    open_a(&mut session);
    session.record_activity(0);
    session.report_activity();
    assert!(session.last_activity() > 1_500_000_000_000);
    session.report_lifecycle_state(LifecycleStateDto::Detached);
    assert!(session.has_vault());
}

#[test]
fn grace_ends_at_its_limit_and_not_before() {
    let hidden = lifecycle_to_u8(LifecycleStateDto::Hidden);
    let paused = lifecycle_to_u8(LifecycleStateDto::Paused);
    let inactive = lifecycle_to_u8(LifecycleStateDto::Inactive);
    let mut session = session(600);
    open_a(&mut session);
    let t0 = session.now();
    let later = |nanos: u128| t0.checked_add(Span::from_nanos(nanos)).unwrap();
    session.tick(later(0), 1, hidden);
    session.tick(later(14_999_999_999), 1, paused);
    assert!(session.has_vault());
    session.tick(later(20_000_000_000), 1, inactive);
    assert!(session.has_vault());
    session.tick(later(20_000_000_000), 1, hidden);
    assert!(!session.has_vault());
}

#[test]
fn resuming_counts_as_activity() {
    let mut session = session(5);
    open_a(&mut session);
    let t0 = session.now();
    let later = |secs: u64| t0.checked_add(Span::from_secs(secs)).unwrap();
    session.tick(later(0), 1, 2);
    session.tick(later(4), 1, 0);
    session.tick(later(8), 1, 0);
    session.tick(later(8), 1, 0);
    assert!(session.has_vault());
    session.tick(later(9), 1, 0);
    session.tick(later(9), 1, 0);
    assert!(!session.has_vault());
}
