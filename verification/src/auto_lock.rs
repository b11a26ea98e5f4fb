//! The idle auto-lock: a state machine that the session drives with the clock.

use vstd::prelude::*;
use crate::error::SecurityError;
use crate::time::{elapsed, Moment, Span};

verus! {

/// How the controller sees the session.
#[derive(Clone, Copy, PartialEq, Eq, Structural, Debug)]
pub enum LockState {
    /// In use; the idle deadline lies ahead.
    Active,
    /// The idle deadline has passed; the next tick locks.
    Expired,
    /// Locked until the next unlock.
    Locked,
}

/// Why a lock was asked for.
#[derive(Clone, Copy, PartialEq, Eq, Structural, Debug)]
pub enum OsLockReason {
    /// The session itself asks for it.
    Manual,
}

#[derive(Clone, Copy, PartialEq, Eq, Structural, Debug)]
pub struct AutoLockConfig {
    /// How long the user may be inactive.
    pub idle_timeout: Span,
}

/// The controller as the contracts speak of it; times in nanoseconds.
pub struct AutoLockModel {
    pub idle_timeout: nat,
    pub state: LockState,
    pub last_activity: nat,
    /// Why the last lock was asked for.
    pub lock_reason: Option<OsLockReason>,
}

impl AutoLockModel {
    /// A controller that has not been unlocked yet.
    pub open spec fn initial(idle_timeout: nat) -> AutoLockModel {
        AutoLockModel {
            idle_timeout,
            state: LockState::Locked,
            last_activity: 0,
            lock_reason: None,
        }
    }

    /// The user has been inactive for the whole timeout.
    pub open spec fn is_idle(self, now: nat) -> bool {
        elapsed(self.last_activity, now) >= self.idle_timeout
    }

    pub open spec fn unlocked(self, now: nat) -> AutoLockModel {
        AutoLockModel { state: LockState::Active, last_activity: now, ..self }
    }

    pub open spec fn locked(self, reason: OsLockReason) -> AutoLockModel {
        AutoLockModel { state: LockState::Locked, lock_reason: Some(reason), ..self }
    }

    /// Activity moves the deadline only as long as the deadline has not passed.
    pub open spec fn with_activity(self, now: nat) -> AutoLockModel {
        if self.state == LockState::Active {
            AutoLockModel { last_activity: now, ..self }
        } else {
            self
        }
    }

    pub open spec fn ticked(self, now: nat) -> AutoLockModel {
        AutoLockModel {
            state: if self.state != LockState::Active {
                LockState::Locked
            } else if self.is_idle(now) {
                LockState::Expired
            } else {
                LockState::Active
            },
            ..self
        }
    }
}

pub struct AutoLockController {
    config: AutoLockConfig,
    state: LockState,
    last_activity: Moment,
    lock_reason: Option<OsLockReason>,
}

impl View for AutoLockController {
    type V = AutoLockModel;

    closed spec fn view(&self) -> AutoLockModel {
        AutoLockModel {
            idle_timeout: self.config.idle_timeout@,
            state: self.state,
            last_activity: self.last_activity@,
            lock_reason: self.lock_reason,
        }
    }
}

impl AutoLockController {
    /// A locked controller. A timeout of zero is rejected: it would never let a session
    /// be used.
    pub fn new(config: AutoLockConfig) -> (res: Result<AutoLockController, SecurityError>)
        ensures
            match res {
                Ok(controller) => config.idle_timeout@ > 0 && controller@ == AutoLockModel::initial(
                    config.idle_timeout@,
                ),
                Err(error) => config.idle_timeout@ == 0 && error == SecurityError::ZeroIdleTimeout,
            },
            res matches Ok(controller) ==> controller@.idle_timeout == config.idle_timeout@
                && controller@.state == LockState::Locked,
    {
        if config.idle_timeout.is_zero() {
            Err(SecurityError::ZeroIdleTimeout)
        } else {
            Ok(
                AutoLockController {
                    config,
                    state: LockState::Locked,
                    last_activity: Moment::from_nanos(0),
                    lock_reason: None,
                },
            )
        }
    }

    pub fn state(&self) -> (state: LockState)
        ensures
            state == self@.state,
    {
        self.state
    }

    /// Why the last lock was asked for, if one was.
    pub fn lock_reason(&self) -> (reason: Option<OsLockReason>)
        ensures
            reason == self@.lock_reason,
    {
        self.lock_reason
    }

    /// Starts a use of the session at `now`.
    pub fn unlock(&mut self, now: Moment)
        ensures
            final(self)@ == old(self)@.unlocked(now@),
            final(self)@.state == LockState::Active,
            final(self)@.last_activity == now@,
            final(self)@.idle_timeout == old(self)@.idle_timeout,
    {
        self.state = LockState::Active;
        self.last_activity = now;
    }

    pub fn lock_now(&mut self, reason: OsLockReason)
        ensures
            final(self)@ == old(self)@.locked(reason),
            final(self)@.state == LockState::Locked,
            final(self)@.lock_reason == Some(reason),
            final(self)@.idle_timeout == old(self)@.idle_timeout,
    {
        self.state = LockState::Locked;
        self.lock_reason = Some(reason);
    }

    pub fn register_activity(&mut self, now: Moment)
        ensures
            final(self)@ == old(self)@.with_activity(now@),
            old(self)@.state == LockState::Active ==> final(self)@.last_activity == now@,
            old(self)@.state != LockState::Active ==> final(self)@ == old(self)@,
            final(self)@.state == old(self)@.state,
            final(self)@.idle_timeout == old(self)@.idle_timeout,
    {
        if self.state == LockState::Active {
            self.last_activity = now;
        }
    }

    /// Moves the state on to what it is at `now`.
    pub fn tick(&mut self, now: Moment) -> (state: LockState)
        ensures
            final(self)@ == old(self)@.ticked(now@),
            state == final(self)@.state,
            old(self)@.state == LockState::Active && old(self)@.idle_timeout > 0 ==> {
                &&& state == LockState::Expired <==> now@ >= old(self)@.last_activity + old(
                    self,
                )@.idle_timeout
                &&& state == LockState::Active <==> now@ < old(self)@.last_activity + old(
                    self,
                )@.idle_timeout
            },
            old(self)@.state != LockState::Active ==> state == LockState::Locked,
            final(self)@.last_activity == old(self)@.last_activity,
            final(self)@.idle_timeout == old(self)@.idle_timeout,
    {
        let next = match self.state {
            LockState::Active => if now.duration_since(self.last_activity).at_least(
                &self.config.idle_timeout,
            ) {
                LockState::Expired
            } else {
                LockState::Active
            },
            LockState::Expired | LockState::Locked => LockState::Locked,
        };
        self.state = next;
        next
    }
}

} // verus!
