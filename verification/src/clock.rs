//! The simulation clock: a repeating timer that turns elapsed time into
//! whole ticks.
//!
//! The clock keeps the time that has passed since the last tick boundary.
//! Two policies are fixed here. When a tick fires, the time beyond the
//! boundary is carried into the next period, and an advance that spans
//! several periods reports each of them. When the period changes, the time
//! already accumulated stays: progress towards the next tick is not lost,
//! and if it already covers the new period, the next advance reports the
//! boundaries behind it.

use vstd::arithmetic::div_mod::lemma_fundamental_div_mod;
use vstd::arithmetic::div_mod::lemma_fundamental_div_mod_converse;
use vstd::prelude::*;

verus! {

/// What a clock is, mathematically: its period and the time accumulated
/// towards the next tick, both in nanoseconds.
pub struct ClockView {
    pub period: nat,
    pub accumulated: nat,
}

impl ClockView {
    /// A clock at the start of a period.
    pub open spec fn fresh(period: nat) -> ClockView {
        ClockView { period, accumulated: 0 }
    }

    /// Whether the accumulated time is short of a full period, as it is for
    /// a fresh clock and after every advance.
    pub open spec fn settled(self) -> bool {
        self.accumulated < self.period
    }

    /// The number of tick boundaries that an advance by `delta` crosses:
    /// the whole periods contained in the accumulated time plus `delta`.
    pub open spec fn ticks_due(self, delta: nat) -> nat
        recommends
            self.period > 0,
    {
        (self.accumulated + delta) / self.period
    }

    /// The clock after an advance by `delta`: what is left beyond the last
    /// boundary crossed is carried over.
    pub open spec fn advance(self, delta: nat) -> ClockView
        recommends
            self.period > 0,
    {
        ClockView {
            period: self.period,
            accumulated: (self.accumulated + delta) % self.period,
        }
    }

    /// The clock with another period and the same accumulated time.
    pub open spec fn with_period(self, period: nat) -> ClockView {
        ClockView { period, accumulated: self.accumulated }
    }

    /// The clock with nothing accumulated.
    pub open spec fn reset(self) -> ClockView {
        ClockView { period: self.period, accumulated: 0 }
    }

    /// The clock after one advance for each element of `deltas`, in order.
    pub open spec fn advance_over(self, deltas: Seq<nat>) -> ClockView
        recommends
            self.period > 0,
        decreases deltas.len(),
    {
        if deltas.len() == 0 {
            self
        } else {
            self.advance_over(deltas.drop_last()).advance(deltas.last())
        }
    }

    /// The tick boundaries reported in total by one advance for each element
    /// of `deltas`, in order.
    pub open spec fn ticks_over(self, deltas: Seq<nat>) -> nat
        recommends
            self.period > 0,
        decreases deltas.len(),
    {
        if deltas.len() == 0 {
            0
        } else {
            self.ticks_over(deltas.drop_last()) + self.advance_over(deltas.drop_last()).ticks_due(
                deltas.last(),
            )
        }
    }
}

/// The sum of a sequence of durations.
pub open spec fn total(deltas: Seq<nat>) -> nat
    decreases deltas.len(),
{
    if deltas.len() == 0 {
        0
    } else {
        total(deltas.drop_last()) + deltas.last()
    }
}

/// A repeating clock with a positive period.
#[derive(Clone, Copy, Debug)]
pub struct SimulationClock {
    period: u64,
    accumulated: u64,
}

impl View for SimulationClock {
    type V = ClockView;

    closed spec fn view(&self) -> ClockView {
        ClockView { period: self.period as nat, accumulated: self.accumulated as nat }
    }
}

impl SimulationClock {
    /// Every clock has a positive period.
    #[verifier::type_invariant]
    pub open spec fn has_period(&self) -> bool {
        self@.period > 0
    }

    /// A clock of the given period, in nanoseconds, with nothing accumulated.
    pub fn new(period: u64) -> (clock: Self)
        requires
            period > 0,
        ensures
            clock@ == ClockView::fresh(period as nat),
    {
        SimulationClock { period, accumulated: 0 }
    }

    /// The period, in nanoseconds.
    pub fn period(&self) -> (period: u64)
        ensures
            period == self@.period,
            period > 0,
    {
        proof {
            use_type_invariant(self);
        }
        self.period
    }

    /// The time accumulated towards the next tick, in nanoseconds.
    pub fn accumulated(&self) -> (accumulated: u64)
        ensures
            accumulated == self@.accumulated,
    {
        self.accumulated
    }

    /// Replaces the period and keeps the accumulated time.
    pub fn set_period(&mut self, period: u64)
        requires
            period > 0,
        ensures
            final(self)@ == old(self)@.with_period(period as nat),
    {
        self.period = period;
    }

    /// Drops the accumulated time and keeps the period.
    pub fn reset(&mut self)
        ensures
            final(self)@ == old(self)@.reset(),
    {
        proof {
            use_type_invariant(&*self);
        }
        self.accumulated = 0;
    }

    /// Lets `delta` nanoseconds pass and returns the number of tick
    /// boundaries crossed. Afterwards the accumulated time is short of a
    /// period again. The count is wider than a duration because a clock
    /// whose period was cut far below its accumulated time can have more
    /// boundaries behind it than a `u64` holds.
    pub fn advance(&mut self, delta: u64) -> (ticks: u128)
        ensures
            final(self)@ == old(self)@.advance(delta as nat),
            ticks == old(self)@.ticks_due(delta as nat),
            final(self)@.settled(),
    {
        proof {
            use_type_invariant(&*self);
        }
        let period: u128 = self.period as u128;
        let elapsed: u128 = self.accumulated as u128 + delta as u128;
        let ticks: u128 = elapsed / period;
        let carried: u128 = elapsed % period;
        self.accumulated = carried as u64;
        ticks
    }
}

/// One advance by `first + second` does what an advance by `first` followed
/// by an advance by `second` does: the same boundaries in total, and the same
/// clock afterwards.
pub proof fn lemma_advance_splits(clock: ClockView, first: nat, second: nat)
    requires
        clock.period > 0,
    ensures
        clock.ticks_due(first) + clock.advance(first).ticks_due(second) == clock.ticks_due(
            first + second,
        ),
        clock.advance(first).advance(second) == clock.advance(first + second),
{
    let p = clock.period as int;
    let x = (clock.accumulated + first) as int;
    let y = x % p + second;
    lemma_fundamental_div_mod(x, p);
    lemma_fundamental_div_mod(y, p);
    assert(x + second == (x / p + y / p) * p + y % p) by (nonlinear_arith)
        requires
            x == p * (x / p) + x % p,
            y == p * (y / p) + y % p,
            y == x % p + second,
    ;
    lemma_fundamental_div_mod_converse(x + second, p, x / p + y / p, y % p);
}

/// Over any sequence of advances, the boundaries reported in total and the
/// clock at the end are those of a single advance by the sum. An empty
/// sequence is no advance at all, so there the clock has to be settled.
pub proof fn lemma_ticks_depend_on_total(clock: ClockView, deltas: Seq<nat>)
    requires
        clock.period > 0,
        deltas.len() > 0 || clock.settled(),
    ensures
        clock.ticks_over(deltas) == clock.ticks_due(total(deltas)),
        clock.advance_over(deltas) == clock.advance(total(deltas)),
    decreases deltas.len(),
{
    if deltas.len() == 0 {
        lemma_fundamental_div_mod_converse(
            clock.accumulated as int,
            clock.period as int,
            0,
            clock.accumulated as int,
        );
    } else if deltas.len() > 1 {
        let front = deltas.drop_last();
        lemma_ticks_depend_on_total(clock, front);
        lemma_advance_splits(clock, total(front), deltas.last());
    } else {
        let front = deltas.drop_last();
        assert(total(front) == 0);
        assert(clock.ticks_over(front) == 0);
        assert(clock.advance_over(front) == clock);
    }
}

/// Tick fidelity: when the deltas handed to a settled clock sum to exactly
/// `k` periods, the advances report exactly `k` boundaries in total, however
/// the time is cut into deltas, and the clock ends where it began.
pub proof fn lemma_tick_fidelity(clock: ClockView, deltas: Seq<nat>, k: nat)
    requires
        clock.period > 0,
        clock.settled(),
        total(deltas) == k * clock.period,
    ensures
        clock.ticks_over(deltas) == k,
        clock.advance_over(deltas) == clock,
{
    lemma_ticks_depend_on_total(clock, deltas);
    lemma_fundamental_div_mod_converse(
        (clock.accumulated + total(deltas)) as int,
        clock.period as int,
        k as int,
        clock.accumulated as int,
    );
}

/// Two ways of cutting the same stretch of time into deltas give a settled
/// clock the same number of boundaries and leave it in the same state.
pub proof fn lemma_chunking_is_irrelevant(clock: ClockView, one: Seq<nat>, other: Seq<nat>)
    requires
        clock.period > 0,
        clock.settled(),
        total(one) == total(other),
    ensures
        clock.ticks_over(one) == clock.ticks_over(other),
        clock.advance_over(one) == clock.advance_over(other),
{
    lemma_ticks_depend_on_total(clock, one);
    lemma_ticks_depend_on_total(clock, other);
}

} // verus!
