//! Points and spans of the monotonic clock, and the wall clock in milliseconds.

use vstd::prelude::*;

verus! {

/// Nanoseconds in one second.
pub const NANOS_PER_SEC: u128 = 1_000_000_000;

/// Nanoseconds in one millisecond.
pub const NANOS_PER_MILLI: u128 = 1_000_000;

/// A length of time. Its view is the number of nanoseconds.
#[derive(Clone, Copy, PartialEq, Eq, Structural, Debug)]
pub struct Span {
    nanos: u128,
}

/// A point on the monotonic clock. Its view is the number of nanoseconds since the
/// clock's origin.
#[derive(Clone, Copy, PartialEq, Eq, Structural, Debug)]
pub struct Moment {
    nanos: u128,
}

impl View for Span {
    type V = nat;

    closed spec fn view(&self) -> nat {
        self.nanos as nat
    }
}

impl View for Moment {
    type V = nat;

    closed spec fn view(&self) -> nat {
        self.nanos as nat
    }
}

/// The nanoseconds from `since` to `now`, or none at all if `since` lies later.
pub open spec fn elapsed(since: nat, now: nat) -> nat {
    if since <= now {
        (now - since) as nat
    } else {
        0
    }
}

/// A whole number of seconds in nanoseconds.
pub open spec fn seconds(secs: nat) -> nat {
    secs * NANOS_PER_SEC as nat
}

impl Span {
    pub fn from_nanos(nanos: u128) -> (span: Span)
        ensures
            span@ == nanos,
    {
        Span { nanos }
    }

    pub fn from_secs(secs: u64) -> (span: Span)
        ensures
            span@ == seconds(secs as nat),
            span@ == secs * 1_000_000_000,
    {
        assert(secs as u128 * NANOS_PER_SEC <= u128::MAX) by (nonlinear_arith)
            requires
                secs <= u64::MAX,
                NANOS_PER_SEC == 1_000_000_000,
        ;
        Span { nanos: secs as u128 * NANOS_PER_SEC }
    }

    pub fn is_zero(&self) -> (zero: bool)
        ensures
            zero == (self@ == 0),
    {
        self.nanos == 0
    }

    /// Whether this span is as long as `other` or longer.
    pub fn at_least(&self, other: &Span) -> (reached: bool)
        ensures
            reached == (self@ >= other@),
    {
        self.nanos >= other.nanos
    }
}

impl Moment {
    pub fn from_nanos(nanos: u128) -> (moment: Moment)
        ensures
            moment@ == nanos,
    {
        Moment { nanos }
    }

    /// The moment `span` later, if the clock reaches that far.
    pub fn checked_add(&self, span: Span) -> (later: Option<Moment>)
        ensures
            later is Some <==> self@ + span@ <= u128::MAX,
            later matches Some(moment) ==> moment@ == self@ + span@,
    {
        match self.nanos.checked_add(span.nanos) {
            Some(nanos) => Some(Moment { nanos }),
            None => None,
        }
    }

    /// The time that has passed since `earlier`; zero if `earlier` is in fact later.
    pub fn duration_since(&self, earlier: Moment) -> (span: Span)
        ensures
            span@ == elapsed(earlier@, self@),
            earlier@ <= self@ ==> earlier@ + span@ == self@,
            self@ <= earlier@ ==> span@ == 0,
    {
        if earlier.nanos <= self.nanos {
            Span { nanos: self.nanos - earlier.nanos }
        } else {
            Span { nanos: 0 }
        }
    }
}

/// `std::time::Instant`, carried as an opaque value.
#[verifier::external_type_specification]
#[verifier::external_body]
pub struct ExStdInstant(std::time::Instant);

/// `std::time::Instant::now` reads the monotonic clock; nothing is claimed of the value.
pub assume_specification[ std::time::Instant::now ]() -> std::time::Instant;

/// Calls `std::time::Instant::elapsed` and gives the duration in nanoseconds. The
/// result depends on when the call is made, so nothing is claimed of it.
#[verifier::external_body]
fn nanos_since(origin: &std::time::Instant) -> u128 {
    origin.elapsed().as_nanos()
}

/// Calls `std::time::SystemTime::elapsed` on the Unix epoch and gives the duration in
/// nanoseconds, or nothing where the system clock stands before the epoch. The result
/// depends on when the call is made, so nothing is claimed of it.
#[verifier::external_body]
fn nanos_since_unix_epoch() -> Option<u128> {
    std::time::UNIX_EPOCH.elapsed().ok().map(|d| d.as_nanos())
}

/// The monotonic clock that a session reads. Its origin is the moment of its creation.
pub struct MonotonicClock {
    origin: std::time::Instant,
}

impl MonotonicClock {
    /// The clock's origin is a reading of the system's monotonic clock.
    pub closed spec fn origin_was_read(&self) -> bool {
        call_ensures(std::time::Instant::now, (), self.origin)
    }

    /// A reading of the clock may have given this moment.
    pub closed spec fn showed(&self, moment: Moment) -> bool {
        call_ensures(nanos_since, (&self.origin,), moment.nanos)
    }

    /// Starts a clock whose origin is the present reading of the system's monotonic clock.
    pub fn start() -> (clock: MonotonicClock)
        ensures
            clock.origin_was_read(),
    {
        let origin = std::time::Instant::now();
        let clock = MonotonicClock { origin };
        proof {
            law_origin_is_a_reading(clock);
        }
        clock
    }

    /// The current moment.
    pub fn now(&self) -> (moment: Moment)
        ensures
            self.showed(moment),
    {
        let nanos = nanos_since(&self.origin);
        let moment = Moment { nanos };
        proof {
            law_clock_shows_the_time_since_its_origin(*self, moment);
        }
        moment
    }
}

/// A clock's origin was read if and only if the system's monotonic clock gave it.
proof fn law_origin_is_a_reading(clock: MonotonicClock)
    ensures
        clock.origin_was_read() <==> call_ensures(std::time::Instant::now, (), clock.origin),
{
}

/// The moments that a clock shows are the nanoseconds since its origin, all of them and
/// no others.
proof fn law_clock_shows_the_time_since_its_origin(clock: MonotonicClock, moment: Moment)
    ensures
        clock.showed(moment) <==> exists|nanos: u128| #[trigger]
            call_ensures(nanos_since, (&clock.origin,), nanos) && moment@ == nanos,
{
}

/// A reading of the wall clock may have given these nanoseconds since the Unix epoch.
pub closed spec fn wall_clock_showed(nanos: Option<u128>) -> bool {
    call_ensures(nanos_since_unix_epoch, (), nanos)
}

/// What the wall clock shows is what the system's clock gave, unchanged.
proof fn law_wall_clock_shows_the_time_since_the_epoch(nanos: Option<u128>)
    ensures
        wall_clock_showed(nanos) <==> call_ensures(nanos_since_unix_epoch, (), nanos),
{
}

/// The milliseconds of some reading of the wall clock.
pub open spec fn is_wall_clock_millis(millis: i64) -> bool {
    exists|nanos: Option<u128>| #[trigger]
        wall_clock_showed(nanos) && millis == epoch_millis(nanos)
}

/// The wall clock's milliseconds for a reading in nanoseconds since the Unix epoch:
/// whole milliseconds, at most `i64::MAX`, and zero for a clock before the epoch.
pub open spec fn epoch_millis(nanos: Option<u128>) -> int {
    match nanos {
        None => 0,
        Some(n) => if n / NANOS_PER_MILLI <= i64::MAX {
            (n / NANOS_PER_MILLI) as int
        } else {
            i64::MAX as int
        },
    }
}

/// Turns a reading of the wall clock into milliseconds.
pub fn epoch_millis_from(nanos: Option<u128>) -> (millis: i64)
    ensures
        millis == epoch_millis(nanos),
        nanos is None ==> millis == 0,
        nanos matches Some(n) ==> millis * 1_000_000 <= n && (n < (millis + 1) * 1_000_000 || millis
            == i64::MAX),
{
    match nanos {
        None => 0,
        Some(n) => {
            let whole: u128 = n / NANOS_PER_MILLI;
            if whole <= i64::MAX as u128 {
                whole as i64
            } else {
                i64::MAX
            }
        },
    }
}

/// The wall clock in milliseconds since the Unix epoch: `epoch_millis_from` of what the
/// clock shows.
pub fn epoch_millis_now() -> (millis: i64)
    ensures
        is_wall_clock_millis(millis),
        millis >= 0,
{
    let nanos = nanos_since_unix_epoch();
    proof {
        law_wall_clock_shows_the_time_since_the_epoch(nanos);
    }
    epoch_millis_from(nanos)
}

} // verus!
