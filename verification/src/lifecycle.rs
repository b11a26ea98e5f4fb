//! The frontend's lifecycle: its one-byte code, and the grace time in the background.

use vstd::prelude::*;
use crate::dto::LifecycleStateDto;
use crate::time::{elapsed, seconds, Moment, Span};

verus! {

/// How long a frontend may stay in the background before the session locks.
pub const LIFECYCLE_GRACE_SECS: u64 = 15;

/// The state that a code stands for. Codes without a state of their own mean `Resumed`.
pub open spec fn lifecycle_of_code(v: u8) -> LifecycleStateDto {
    if v == 1 {
        LifecycleStateDto::Inactive
    } else if v == 2 {
        LifecycleStateDto::Hidden
    } else if v == 3 {
        LifecycleStateDto::Paused
    } else if v == 4 {
        LifecycleStateDto::Detached
    } else {
        LifecycleStateDto::Resumed
    }
}

/// The code of a state.
pub open spec fn code_of_lifecycle(state: LifecycleStateDto) -> u8 {
    match state {
        LifecycleStateDto::Resumed => 0,
        LifecycleStateDto::Inactive => 1,
        LifecycleStateDto::Hidden => 2,
        LifecycleStateDto::Paused => 3,
        LifecycleStateDto::Detached => 4,
    }
}

pub fn lifecycle_from_u8(v: u8) -> (state: LifecycleStateDto)
    ensures
        state == lifecycle_of_code(v),
        state == LifecycleStateDto::Inactive <==> v == 1,
        state == LifecycleStateDto::Hidden <==> v == 2,
        state == LifecycleStateDto::Paused <==> v == 3,
        state == LifecycleStateDto::Detached <==> v == 4,
{
    match v {
        1 => LifecycleStateDto::Inactive,
        2 => LifecycleStateDto::Hidden,
        3 => LifecycleStateDto::Paused,
        4 => LifecycleStateDto::Detached,
        _ => LifecycleStateDto::Resumed,
    }
}

pub fn lifecycle_to_u8(state: LifecycleStateDto) -> (v: u8)
    ensures
        v == code_of_lifecycle(state),
        v <= 4,
        v == 0 <==> state == LifecycleStateDto::Resumed,
        v == 1 <==> state == LifecycleStateDto::Inactive,
        v == 2 <==> state == LifecycleStateDto::Hidden,
        v == 3 <==> state == LifecycleStateDto::Paused,
        v == 4 <==> state == LifecycleStateDto::Detached,
{
    match state {
        LifecycleStateDto::Resumed => 0,
        LifecycleStateDto::Inactive => 1,
        LifecycleStateDto::Hidden => 2,
        LifecycleStateDto::Paused => 3,
        LifecycleStateDto::Detached => 4,
    }
}

/// The frontend is in the background.
pub open spec fn in_background(lifecycle: LifecycleStateDto) -> bool {
    lifecycle == LifecycleStateDto::Hidden || lifecycle == LifecycleStateDto::Paused
}

/// A grace time that began at `grace` is over at `now`.
pub open spec fn grace_over(grace: Option<nat>, now: nat) -> bool {
    grace matches Some(started) && elapsed(started, now) >= seconds(LIFECYCLE_GRACE_SECS as nat)
}

/// The lifecycle alone asks for the session to lock.
pub open spec fn lifecycle_locks(
    lifecycle: LifecycleStateDto,
    grace: Option<nat>,
    now: nat,
) -> bool {
    lifecycle == LifecycleStateDto::Detached || (in_background(lifecycle) && grace_over(grace, now))
}

/// When the running grace time began, once the lifecycle has been looked at.
pub open spec fn grace_after(
    lifecycle: LifecycleStateDto,
    grace: Option<nat>,
    now: nat,
) -> Option<nat> {
    if lifecycle == LifecycleStateDto::Inactive {
        grace
    } else if !in_background(lifecycle) || grace_over(grace, now) {
        None
    } else if grace is None {
        Some(now)
    } else {
        grace
    }
}

/// The frontend came back while its grace time was running.
pub open spec fn returned_in_grace(lifecycle: LifecycleStateDto, grace: Option<nat>) -> bool {
    lifecycle == LifecycleStateDto::Resumed && grace is Some
}

/// The nanoseconds at which an optional moment lies.
pub open spec fn moment_view(moment: Option<Moment>) -> Option<nat> {
    match moment {
        Some(m) => Some(m@),
        None => None,
    }
}

/// What one look at the lifecycle asks of the session.
pub struct LifecycleVerdict {
    /// The return of the frontend counts as user activity.
    pub counts_as_activity: bool,
    /// The session is to lock.
    pub lock: bool,
}

/// Looks at the lifecycle at `now` and moves the grace time on.
pub fn observe_lifecycle(
    lifecycle: LifecycleStateDto,
    now: Moment,
    grace_start: &mut Option<Moment>,
) -> (verdict: LifecycleVerdict)
    ensures
        verdict.counts_as_activity == returned_in_grace(lifecycle, moment_view(*old(grace_start))),
        verdict.lock == lifecycle_locks(lifecycle, moment_view(*old(grace_start)), now@),
        moment_view(*final(grace_start)) == grace_after(
            lifecycle,
            moment_view(*old(grace_start)),
            now@,
        ),
        verdict.counts_as_activity <==> lifecycle == LifecycleStateDto::Resumed && *old(
            grace_start,
        ) is Some,
        verdict.lock <==> lifecycle == LifecycleStateDto::Detached || ((lifecycle
            == LifecycleStateDto::Hidden || lifecycle == LifecycleStateDto::Paused) && (*old(
            grace_start,
        ) matches Some(started) && now@ >= started@ + 15_000_000_000)),
        lifecycle == LifecycleStateDto::Inactive ==> *final(grace_start) == *old(grace_start),
        lifecycle == LifecycleStateDto::Hidden || lifecycle == LifecycleStateDto::Paused ==> {
            &&& *old(grace_start) is None ==> *final(grace_start) == Some(now)
            &&& *old(grace_start) is Some && !verdict.lock ==> *final(grace_start) == *old(
                grace_start,
            )
            &&& verdict.lock ==> *final(grace_start) is None
        },
        lifecycle == LifecycleStateDto::Resumed || lifecycle == LifecycleStateDto::Detached
            ==> *final(grace_start) is None,
{
    let mut counts_as_activity = false;
    let mut lock = false;
    match lifecycle {
        LifecycleStateDto::Resumed => {
            if grace_start.take().is_some() {
                counts_as_activity = true;
            }
        },
        LifecycleStateDto::Inactive => {},
        LifecycleStateDto::Hidden | LifecycleStateDto::Paused => {
            match *grace_start {
                None => {
                    *grace_start = Some(now);
                },
                Some(started) => {
                    if now.duration_since(started).at_least(&Span::from_secs(LIFECYCLE_GRACE_SECS)) {
                        lock = true;
                        *grace_start = None;
                    }
                },
            }
        },
        LifecycleStateDto::Detached => {
            lock = true;
            *grace_start = None;
        },
    }
    LifecycleVerdict { counts_as_activity, lock }
}

} // verus!
