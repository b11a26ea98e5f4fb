//! Plain values that cross the boundary between a session and its frontend.

use vstd::prelude::*;

verus! {

/// What the frontend last reported about its own place on the screen.
#[derive(Clone, Copy, PartialEq, Eq, Structural, Debug)]
pub enum LifecycleStateDto {
    Resumed,
    Inactive,
    Hidden,
    Paused,
    Detached,
}

/// What a session tells its frontend.
#[derive(Clone, Copy, PartialEq, Eq, Structural, Debug)]
pub enum LockEvent {
    Locked,
    Unlocked,
}

/// Where the frontend wants the session's files.
#[derive(Debug)]
pub struct AppInitConfig {
    pub state_dir: Option<String>,
    pub config_dir: Option<String>,
}

/// A keyfile as the frontend names it: by path, or by its bytes.
pub enum KeyfileRef {
    Path(String),
    Bytes(Vec<u8>),
}

} // verus!
