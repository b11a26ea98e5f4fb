use std::sync::mpsc;

use falach_api::auto_lock::AutoLockConfig;
use falach_api::dto::{AppInitConfig, LifecycleStateDto, LockEvent};
use falach_api::error::FalachApiError;
use falach_api::event::{EventSink, MpscEventSink};
use falach_api::registry::{RegisteredVault, VaultRegistry};
use falach_api::session::{init_app, AppSession, PathSelection};
use falach_api::state::UnlockRequest;
use falach_api::time::{Moment, Span};

#[derive(Debug)]
struct TestVault {
    root_uuid: String,
    root_name: String,
}

#[derive(Debug)]
struct TestTree {
    root_uuid: String,
    root_name: String,
}

struct RecordingLockSink {
    rx: mpsc::Receiver<LockEvent>,
}

impl RecordingLockSink {
    fn new() -> (Box<dyn EventSink<LockEvent>>, Self) {
        let (tx, rx) = mpsc::channel();
        let sink: Box<dyn EventSink<LockEvent>> = Box::new(MpscEventSink::new(tx));
        (sink, Self { rx })
    }

    fn drain(&self) -> Vec<LockEvent> {
        let mut events = Vec::new();
        while let Ok(e) = self.rx.try_recv() {
            events.push(e);
        }
        events
    }
}

fn config() -> AutoLockConfig {
    AutoLockConfig { idle_timeout: Span::from_secs(300) }
}

fn registry_with(name: &str) -> VaultRegistry {
    VaultRegistry::new(vec![RegisteredVault {
        name: name.to_string(),
        path: format!("/state/{name}.kdbx"),
    }])
}

fn open_with(
    request: &UnlockRequest,
    name: &str,
    password: &str,
) -> Result<TestVault, FalachApiError> {
    assert_eq!(request.path, format!("/state/{name}.kdbx"));
    if request.master.expose() == password {
        Ok(TestVault { root_uuid: "5f1c".to_string(), root_name: "Root".to_string() })
    } else {
        Err(FalachApiError::AuthenticationFailed)
    }
}

fn tree_of(vault: &TestVault) -> TestTree {
    TestTree { root_uuid: vault.root_uuid.clone(), root_name: vault.root_name.clone() }
}

fn try_unlock(
    session: &mut AppSession<TestVault>,
    name: &str,
    right_password: &str,
    password: &str,
) -> Result<TestTree, FalachApiError> {
    session.unlock(
        name,
        password.to_string(),
        None,
        |request: &UnlockRequest| open_with(request, name, right_password),
        tree_of,
    )
}

fn session_with_vault(name: &str) -> AppSession<TestVault> {
    AppSession::for_test(Ok(registry_with(name)), config()).expect("create session")
}

fn session_with_vault_and_sink(name: &str) -> (AppSession<TestVault>, RecordingLockSink) {
    let mut session = session_with_vault(name);
    let (sink, recording) = RecordingLockSink::new();
    session.lock_events(sink);
    (session, recording)
}

fn unlocked_session(name: &str, password: &str) -> (AppSession<TestVault>, RecordingLockSink) {
    let (mut session, recording) = session_with_vault_and_sink(name);
    try_unlock(&mut session, name, password, password).expect("unlock");
    (session, recording)
}

fn after(moment: Moment, secs: u64) -> Moment {
    moment.checked_add(Span::from_secs(secs)).expect("moment")
}

#[test]
fn init_creates_session_with_locked_state() {
    let session: AppSession<TestVault> =
        AppSession::for_test(Ok(VaultRegistry::new(Vec::new())), config()).expect("init");
    assert!(!session.has_vault(), "session should start with no vault");
    assert!(
        !session.has_credentials(),
        "session should start with no credentials"
    );
}

#[test]
fn init_app_uses_state_dir_from_config() {
    let cfg = AppInitConfig { state_dir: Some("/tmp/env/state".to_string()), config_dir: None };
    let mut session: AppSession<TestVault> = init_app(&cfg, config(), |paths: &PathSelection| {
        assert!(matches!(
            paths,
            PathSelection::StateOnly { state_dir } if state_dir == "/tmp/env/state"
        ));
        Ok(VaultRegistry::new(Vec::new()))
    })
    .expect("init_app");
    session.shutdown();
}

#[test]
fn init_unlock_browse_lock_unlock_cycle_maintains_consistent_state() {
    let name = "test-vault";
    let password = "correct-horse-battery-staple";
    let (mut session, recording) = session_with_vault_and_sink(name);

    assert!(!session.has_vault(), "pre-unlock: no vault");

    let tree = try_unlock(&mut session, name, password, password).expect("first unlock");
    assert!(session.has_vault(), "post-unlock: vault present");
    assert!(
        session.has_credentials(),
        "post-unlock: credentials retained (D-11)"
    );
    assert!(!tree.root_uuid.is_empty(), "tree has a root group uuid");

    let events = recording.drain();
    assert!(
        events.iter().any(|e| matches!(e, LockEvent::Unlocked)),
        "unlock event should be emitted"
    );

    session.lock_now().expect("lock");
    assert!(!session.has_vault(), "post-lock: vault dropped");
    assert!(!session.has_credentials(), "post-lock: credentials dropped");

    let events = recording.drain();
    assert!(
        events.iter().any(|e| matches!(e, LockEvent::Locked)),
        "locked event should be emitted"
    );

    let tree2 = try_unlock(&mut session, name, password, password).expect("second unlock");
    assert!(session.has_vault(), "re-unlock: vault present");
    assert!(session.has_credentials(), "re-unlock: credentials retained");
    assert_eq!(tree.root_name, tree2.root_name, "same vault tree root");
}

#[test]
fn wrong_password_returns_authentication_failed_and_keeps_session_locked() {
    let name = "test-vault";
    let (mut session, _recording) = session_with_vault_and_sink(name);

    let result = try_unlock(&mut session, name, "correct-password", "wrong-password");
    assert!(
        matches!(result, Err(FalachApiError::AuthenticationFailed)),
        "expected AuthenticationFailed, got: {result:?}"
    );
    assert!(!session.has_vault(), "no vault after failed unlock");
    assert!(
        !session.has_credentials(),
        "no credentials after failed unlock"
    );
}

#[test]
fn unlock_already_unlocked_returns_error() {
    let name = "test-vault";
    let password = "test-pass";
    let (mut session, _recording) = unlocked_session(name, password);

    let result = try_unlock(&mut session, name, password, password);
    assert!(
        matches!(result, Err(FalachApiError::Internal { .. })),
        "double unlock should error: {result:?}"
    );
    assert!(
        session.has_vault(),
        "vault still present after double-unlock attempt"
    );
}

#[test]
fn tick_past_idle_deadline_drops_vault_and_emits_locked_event() {
    let name = "test-vault";
    let password = "test-pass";
    let idle_timeout = Span::from_secs(5);

    let mut session: AppSession<TestVault> =
        AppSession::for_test_with_timeout(Ok(registry_with(name)), idle_timeout).expect("session");
    let (sink, recording) = RecordingLockSink::new();
    session.lock_events(sink);

    try_unlock(&mut session, name, password, password).expect("unlock");
    assert!(session.has_vault(), "vault present after unlock");

    let now = session.now();

    // The first tick picks up the unlock as activity: the idle deadline starts from here.
    session.drive_tick(now);

    session.drive_tick(after(now, 1));
    assert!(session.has_vault(), "vault still present after 1s");

    session.drive_tick(after(now, 4));
    assert!(session.has_vault(), "vault still present after 4s");

    // At 5s the idle deadline passes; at 6s the vault is dropped.
    session.drive_tick(after(now, 5));
    session.drive_tick(after(now, 6));

    assert!(!session.has_vault(), "vault dropped after idle expiry");
    assert!(
        !session.has_credentials(),
        "credentials dropped after idle expiry"
    );

    let events = recording.drain();
    assert!(
        events.iter().any(|e| matches!(e, LockEvent::Locked)),
        "LockEvent::Locked emitted on idle expiry"
    );
}

#[test]
fn lifecycle_grace_semantics_match_design_table() {
    let name = "test-vault";
    let password = "test-pass";
    let idle_timeout = Span::from_secs(600);

    let mut session: AppSession<TestVault> =
        AppSession::for_test_with_timeout(Ok(registry_with(name)), idle_timeout).expect("session");
    let (sink, recording) = RecordingLockSink::new();
    session.lock_events(sink);
    try_unlock(&mut session, name, password, password).expect("unlock");

    let t0 = session.now();

    // Inactive: no action.
    session.report_lifecycle_state(LifecycleStateDto::Inactive);
    session.drive_tick(after(t0, 1));
    assert!(session.has_vault(), "inactive: vault still present");

    // Paused: starts the grace time.
    session.report_lifecycle_state(LifecycleStateDto::Paused);
    session.drive_tick(after(t0, 2));
    assert!(
        session.has_vault(),
        "paused: vault present (grace just started)"
    );

    session.drive_tick(after(t0, 16));
    assert!(session.has_vault(), "paused+14s: vault still present");

    // Resumed: cancels the grace time.
    session.report_lifecycle_state(LifecycleStateDto::Resumed);
    session.drive_tick(after(t0, 17));
    assert!(
        session.has_vault(),
        "resumed: vault still present, grace cancelled"
    );

    // Hidden: starts it again.
    session.report_lifecycle_state(LifecycleStateDto::Hidden);
    session.drive_tick(after(t0, 18));
    assert!(session.has_vault(), "hidden: grace started");

    session.drive_tick(after(t0, 33));
    session.drive_tick(after(t0, 34));

    assert!(!session.has_vault(), "hidden+15s: vault dropped");
    assert!(
        !session.has_credentials(),
        "hidden+15s: credentials dropped"
    );

    let events = recording.drain();
    assert!(
        events.iter().any(|e| matches!(e, LockEvent::Locked)),
        "locked event emitted on lifecycle grace expiry"
    );
}

#[test]
fn lifecycle_detached_locks_immediately() {
    let name = "test-vault";
    let password = "test-pass";
    let (mut session, recording) = unlocked_session(name, password);

    session.report_lifecycle_state(LifecycleStateDto::Detached);
    let now = session.now();
    session.drive_tick(now);

    assert!(!session.has_vault(), "detached: vault dropped immediately");
    assert!(
        !session.has_credentials(),
        "detached: credentials dropped immediately"
    );
    assert!(
        recording
            .drain()
            .iter()
            .any(|e| matches!(e, LockEvent::Locked)),
        "locked event on detach"
    );
}

#[test]
fn session_credentials_dropped_on_every_lock_path() {
    // Path 1: manual lock
    {
        let (mut session, _rec) = unlocked_session("v1", "p1");
        assert!(session.has_credentials(), "pre-lock: credentials present");
        session.lock_now().expect("manual lock");
        assert!(
            !session.has_credentials(),
            "manual lock: credentials dropped"
        );
    }

    // Path 2: idle auto-lock
    {
        let mut session: AppSession<TestVault> =
            AppSession::for_test_with_timeout(Ok(registry_with("v2")), Span::from_secs(2))
                .expect("session");
        try_unlock(&mut session, "v2", "p2", "p2").expect("unlock");
        assert!(session.has_credentials(), "pre-idle: credentials present");
        let t0 = session.now();
        session.drive_tick(t0);
        session.drive_tick(after(t0, 2));
        session.drive_tick(after(t0, 3));
        assert!(!session.has_credentials(), "idle lock: credentials dropped");
    }

    // Path 3: lifecycle (detached)
    {
        let (mut session, _rec) = unlocked_session("v3", "p3");
        assert!(
            session.has_credentials(),
            "pre-lifecycle: credentials present"
        );
        session.report_lifecycle_state(LifecycleStateDto::Detached);
        let now = session.now();
        session.drive_tick(now);
        assert!(
            !session.has_credentials(),
            "lifecycle lock: credentials dropped"
        );
    }

    // Path 4: shutdown
    {
        let (mut session, _rec) = unlocked_session("v4", "p4");
        assert!(
            session.has_credentials(),
            "pre-shutdown: credentials present"
        );
        session.shutdown();
        assert!(!session.has_credentials(), "shutdown: credentials dropped");
    }
}

#[test]
fn multiple_sessions_per_process_harden_once() {
    let cfg1 = AppInitConfig { state_dir: Some("/tmp/env1/state".to_string()), config_dir: None };
    let mut session1: AppSession<TestVault> =
        init_app(&cfg1, config(), |_paths: &PathSelection| Ok(VaultRegistry::new(Vec::new())))
            .expect("session 1 via init_app");

    let cfg2 = AppInitConfig { state_dir: Some("/tmp/env2/state".to_string()), config_dir: None };
    let mut session2: AppSession<TestVault> =
        init_app(&cfg2, config(), |_paths: &PathSelection| Ok(VaultRegistry::new(Vec::new())))
            .expect("session 2 via init_app");

    assert!(!session1.has_vault(), "session 1 starts locked");
    assert!(!session2.has_vault(), "session 2 starts locked");
    session2.shutdown();
    session1.shutdown();
}
