//! The pulse timer: a fixed-rate gate driven by elapsed time.
//!
//! Time is counted in flicks, the unit of 1/705,600,000 of a second, in which
//! the periods of all common frame rates are whole numbers. Inside a timer,
//! elapsed flicks are kept multiplied by the frequency: in that scale one
//! tick interval is exactly [`FLICKS_PER_SECOND`] for every frequency, so a
//! timer neither rounds an interval nor drifts.

use vstd::prelude::*;

verus! {

/// Number of flicks in one second.
pub const FLICKS_PER_SECOND: u64 = 705_600_000;

/// Mathematical state of a pulse timer.
pub struct TimerState {
    /// Target number of ticks in each second; zero means the timer never ticks.
    pub ticks_per_second: nat,
    /// Elapsed flicks not yet paid out as ticks, multiplied by the frequency.
    pub accumulated: nat,
}

/// Sum of a sequence of elapsed times.
pub open spec fn total_time(deltas: Seq<nat>) -> nat
    decreases deltas.len(),
{
    if deltas.len() == 0 {
        0
    } else {
        total_time(deltas.drop_last()) + deltas.last()
    }
}

impl TimerState {
    /// The accumulator once `delta` flicks have been credited to it.
    pub open spec fn credited(self, delta: nat) -> nat {
        self.accumulated + delta * self.ticks_per_second
    }

    /// Whether an update by `delta` flicks reports a tick.
    pub open spec fn fires(self, delta: nat) -> bool {
        self.credited(delta) >= FLICKS_PER_SECOND
    }

    /// The state after an update by `delta` flicks: the time is credited, and
    /// a reported tick pays for exactly one interval.
    pub open spec fn after(self, delta: nat) -> TimerState {
        TimerState {
            ticks_per_second: self.ticks_per_second,
            accumulated: if self.fires(delta) {
                (self.credited(delta) - FLICKS_PER_SECOND) as nat
            } else {
                self.credited(delta)
            },
        }
    }

    /// Whether an update by `delta` flicks reports a tick, the accumulator
    /// being kept in 128 bits: beyond that range it saturates.
    pub open spec fn capped_fires(self, delta: nat) -> bool {
        self.credited(delta) > u128::MAX || self.fires(delta)
    }

    /// The state after an update by `delta` flicks, the accumulator being
    /// kept in 128 bits: beyond that range it saturates.
    pub open spec fn capped_after(self, delta: nat) -> TimerState {
        if self.credited(delta) > u128::MAX {
            TimerState {
                ticks_per_second: self.ticks_per_second,
                accumulated: (u128::MAX - FLICKS_PER_SECOND) as nat,
            }
        } else {
            self.after(delta)
        }
    }

    /// Whether the accumulator holds less than one interval.
    pub open spec fn settled(self) -> bool {
        self.accumulated < FLICKS_PER_SECOND
    }

    /// The state after one update for each entry of `deltas`, in order.
    pub open spec fn after_all(self, deltas: Seq<nat>) -> TimerState
        decreases deltas.len(),
    {
        if deltas.len() == 0 {
            self
        } else {
            self.after_all(deltas.drop_last()).after(deltas.last())
        }
    }

    /// Number of ticks reported by one update for each entry of `deltas`.
    pub open spec fn ticks_over(self, deltas: Seq<nat>) -> nat
        decreases deltas.len(),
    {
        if deltas.len() == 0 {
            0
        } else {
            let before = self.after_all(deltas.drop_last());
            self.ticks_over(deltas.drop_last()) + if before.fires(deltas.last()) {
                1nat
            } else {
                0nat
            }
        }
    }
}

/// A fixed-rate gate. Each update credits the elapsed time and reports at most
/// one tick; time beyond one interval stays in the accumulator, so a timer
/// that fell behind catches up over the following updates.
#[derive(Clone, Copy, Debug, PartialEq, Eq, Structural)]
pub struct PulseTimer {
    ticks_per_second: u32,
    accumulated: u128,
}

impl View for PulseTimer {
    type V = TimerState;

    closed spec fn view(&self) -> TimerState {
        TimerState {
            ticks_per_second: self.ticks_per_second as nat,
            accumulated: self.accumulated as nat,
        }
    }
}

impl PulseTimer {
    /// A timer of the given frequency with nothing accumulated.
    pub fn new(ticks_per_second: u32) -> (timer: Self)
        ensures
            timer@.ticks_per_second == ticks_per_second,
            timer@.accumulated == 0,
    {
        PulseTimer { ticks_per_second, accumulated: 0 }
    }

    /// The target number of ticks in each second.
    pub fn ticks_per_second(&self) -> (frequency: u32)
        ensures
            frequency == self@.ticks_per_second,
    {
        self.ticks_per_second
    }

    /// The accumulator: elapsed flicks not yet paid out, times the frequency.
    pub fn accumulated(&self) -> (scaled: u128)
        ensures
            scaled == self@.accumulated,
    {
        self.accumulated
    }

    /// Replaces the frequency. The accumulator is counted in the scale of the
    /// frequency, so it starts again from zero.
    pub fn set_ticks_per_second(&mut self, ticks_per_second: u32)
        ensures
            final(self)@.ticks_per_second == ticks_per_second,
            final(self)@.accumulated == 0,
    {
        self.ticks_per_second = ticks_per_second;
        self.accumulated = 0;
    }

    /// Credits `delta` flicks and reports whether a tick is due. At most one
    /// tick is reported, and it pays for one interval. A frequency of zero
    /// credits nothing, so such a timer never ticks. The accumulator
    /// saturates at `u128::MAX`.
    pub fn update(&mut self, delta: u64) -> (ticked: bool)
        ensures
            ticked == old(self)@.capped_fires(delta as nat),
            final(self)@ == old(self)@.capped_after(delta as nat),
    {
        let rate: u128 = self.ticks_per_second as u128;
        let span: u128 = delta as u128;
        assert(span * rate <= 0xffff_ffff_ffff_ffff * 0xffff_ffff) by (nonlinear_arith)
            requires
                span <= 0xffff_ffff_ffff_ffff,
                rate <= 0xffff_ffff,
        ;
        let credit: u128 = span * rate;
        let credited: u128 = if self.accumulated > u128::MAX - credit {
            u128::MAX
        } else {
            self.accumulated + credit
        };
        if credited >= FLICKS_PER_SECOND as u128 {
            self.accumulated = credited - FLICKS_PER_SECOND as u128;
            true
        } else {
            self.accumulated = credited;
            false
        }
    }
}

/// Every update conserves time: what was accumulated before, plus the time
/// credited, equals what is accumulated after plus one interval for each
/// tick reported.
pub proof fn lemma_updates_conserve_time(timer: TimerState, deltas: Seq<nat>)
    ensures
        timer.after_all(deltas).ticks_per_second == timer.ticks_per_second,
        timer.after_all(deltas).accumulated + timer.ticks_over(deltas) * FLICKS_PER_SECOND
            == timer.accumulated + total_time(deltas) * timer.ticks_per_second,
    decreases deltas.len(),
{
    let f = timer.ticks_per_second;
    let unit = FLICKS_PER_SECOND as nat;
    if deltas.len() > 0 {
        let head = deltas.drop_last();
        let last = deltas.last();
        lemma_updates_conserve_time(timer, head);
        let before = timer.after_all(head);
        let fired: nat = if before.fires(last) { 1 } else { 0 };
        assert(timer.after_all(deltas) == before.after(last));
        assert(timer.ticks_over(deltas) == timer.ticks_over(head) + fired);
        assert(total_time(deltas) == total_time(head) + last);
        assert((total_time(head) + last) * f == total_time(head) * f + last * f)
            by (nonlinear_arith);
        assert((timer.ticks_over(head) + fired) * unit == timer.ticks_over(head) * unit + fired
            * unit) by (nonlinear_arith);
        assert(before.after(last).accumulated + fired * unit == before.accumulated + last * f);
    } else {
        assert(timer.ticks_over(deltas) * unit == 0) by (nonlinear_arith)
            requires
                timer.ticks_over(deltas) == 0,
        ;
        assert(total_time(deltas) * f == 0) by (nonlinear_arith)
            requires
                total_time(deltas) == 0,
        ;
    }
}

/// A timer that starts with less than one interval accumulated, and is never
/// given more than one interval at a time, holds less than one interval after
/// every update.
pub proof fn lemma_steady_updates_stay_settled(timer: TimerState, deltas: Seq<nat>)
    requires
        timer.settled(),
        forall|i: int|
            0 <= i < deltas.len() ==> #[trigger] deltas[i] * timer.ticks_per_second
                <= FLICKS_PER_SECOND,
    ensures
        timer.after_all(deltas).settled(),
    decreases deltas.len(),
{
    if deltas.len() > 0 {
        let head = deltas.drop_last();
        assert forall|i: int| 0 <= i < head.len() implies #[trigger] head[i]
            * timer.ticks_per_second <= FLICKS_PER_SECOND by {
            assert(head[i] == deltas[i]);
        }
        lemma_steady_updates_stay_settled(timer, head);
        lemma_updates_conserve_time(timer, head);
        assert(deltas.last() == deltas[deltas.len() - 1]);
    }
}

/// The tick count law. For a timer of frequency above zero, the updates over
/// `deltas` end with less than one interval accumulated exactly when the
/// number of ticks they reported is the whole number of intervals in the
/// time at hand: what was accumulated at the start plus the total elapsed
/// time, divided by the interval and rounded down. In the timer's scale the
/// interval is `FLICKS_PER_SECOND` and `T` flicks count as `T` times the
/// frequency.
pub proof fn lemma_tick_count(timer: TimerState, deltas: Seq<nat>)
    requires
        timer.ticks_per_second > 0,
    ensures
        timer.after_all(deltas).settled() <==> timer.ticks_over(deltas) == (timer.accumulated
            + total_time(deltas) * timer.ticks_per_second) / (FLICKS_PER_SECOND as nat),
        timer.after_all(deltas).settled() ==> timer.after_all(deltas).accumulated == (
        timer.accumulated + total_time(deltas) * timer.ticks_per_second) % (
        FLICKS_PER_SECOND as nat),
{
    lemma_updates_conserve_time(timer, deltas);
    let ticks = timer.ticks_over(deltas) as int;
    let left = timer.after_all(deltas).accumulated as int;
    let whole = (timer.accumulated + total_time(deltas) * timer.ticks_per_second) as int;
    let unit = FLICKS_PER_SECOND as int;
    assert(left + ticks * unit == whole);
    if left < unit {
        vstd::arithmetic::div_mod::lemma_fundamental_div_mod_converse(whole, unit, ticks, left);
    }
    if ticks == whole / unit {
        vstd::arithmetic::div_mod::lemma_fundamental_div_mod(whole, unit);
        vstd::arithmetic::div_mod::lemma_mod_bound(whole, unit);
        assert(left == whole % unit) by (nonlinear_arith)
            requires
                left + ticks * unit == whole,
                whole == unit * (whole / unit) + whole % unit,
                ticks == whole / unit,
        ;
    }
}

} // verus!
