//! The frame clock of the run loop: it reads the machine's monotonic clock
//! and hands out the time between two frames in flicks.

use crate::timer::FLICKS_PER_SECOND;
use vstd::prelude::*;

verus! {

/// Number of nanoseconds in one second.
pub const NANOS_PER_SECOND: u64 = 1_000_000_000;

#[verifier::external_type_specification]
#[verifier::external_body]
pub struct ExInstant(std::time::Instant);

/// `std::time::Instant::now`: the present reading of the monotonic clock.
/// Nothing is claimed of it.
pub assume_specification[ std::time::Instant::now ]() -> (now: std::time::Instant);

/// `std::time::Instant::elapsed`: the time since the reading was taken.
/// Nothing is claimed of it.
pub assume_specification[ std::time::Instant::elapsed ](instant: &std::time::Instant) -> (elapsed:
    core::time::Duration);

/// `core::time::Duration::as_nanos`: the duration in whole nanoseconds.
/// Nothing is claimed of it.
pub assume_specification[ core::time::Duration::as_nanos ](
    duration: &core::time::Duration,
) -> (nanos: u128);

/// The whole flicks in a number of nanoseconds.
pub open spec fn flicks_in(nanos: nat) -> nat {
    nanos * (FLICKS_PER_SECOND as nat) / (NANOS_PER_SECOND as nat)
}

/// The whole flicks in a number of nanoseconds, or `u64::MAX` if they are
/// more than that.
pub fn flicks_from_nanos(nanos: u128) -> (flicks: u64)
    ensures
        flicks == if flicks_in(nanos as nat) > u64::MAX {
            u64::MAX as nat
        } else {
            flicks_in(nanos as nat)
        },
{
    if nanos >= 0x2_0000_0000_0000_0000 {
        assert(flicks_in(nanos as nat) > u64::MAX) by (nonlinear_arith)
            requires
                nanos >= 0x2_0000_0000_0000_0000,
                flicks_in(nanos as nat) == nanos * 705_600_000 / 1_000_000_000,
        ;
        u64::MAX
    } else {
        assert(nanos * 705_600_000 <= 0x2_0000_0000_0000_0000 * 705_600_000) by (nonlinear_arith)
            requires
                nanos < 0x2_0000_0000_0000_0000,
        ;
        let flicks: u128 = nanos * (FLICKS_PER_SECOND as u128) / (NANOS_PER_SECOND as u128);
        if flicks > u64::MAX as u128 {
            u64::MAX
        } else {
            flicks as u64
        }
    }
}

/// A clock that counts frames from its start.
pub struct FrameClock {
    origin: std::time::Instant,
    reached: u64,
}

impl FrameClock {
    /// The time of the latest frame, in flicks since the clock started.
    pub closed spec fn reached(&self) -> nat {
        self.reached as nat
    }

    /// A clock that starts now.
    pub fn start() -> (clock: Self)
        ensures
            clock.reached() == 0,
    {
        FrameClock { origin: std::time::Instant::now(), reached: 0 }
    }

    /// Reads the machine's clock and returns the flicks since the latest
    /// frame. Whatever the machine's clock says, time does not run back.
    pub fn frame(&mut self) -> (delta: u64)
        ensures
            final(self).reached() == old(self).reached() + delta,
    {
        let elapsed = self.origin.elapsed();
        let now = flicks_from_nanos(elapsed.as_nanos());
        self.step_to(now)
    }

    /// Moves the clock to `now`, in flicks since it started, and returns the
    /// flicks since the latest frame: none if `now` lies before that frame.
    pub fn step_to(&mut self, now: u64) -> (delta: u64)
        ensures
            delta == if now > old(self).reached() {
                now - old(self).reached()
            } else {
                0
            },
            final(self).reached() == old(self).reached() + delta,
    {
        if now > self.reached {
            let delta = now - self.reached;
            self.reached = now;
            delta
        } else {
            0
        }
    }
}

} // verus!
