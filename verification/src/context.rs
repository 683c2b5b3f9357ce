//! The simulation context: the speed, the clock, the mode and the province
//! in one value, which the frame driver owns and hands to [`update`] once a
//! frame and to [`handle`] once for each click.
//!
//! Two things hold of every context: the simulation is paused exactly when
//! the speed is zero, and the clock's period is the one that belongs to the
//! speed. The clock runs in both modes; while the simulation is paused the
//! tick boundaries it reports are dropped.
//!
//! [`update`]: SimulationContext::update
//! [`handle`]: SimulationContext::handle

use crate::clock::lemma_tick_fidelity;
use crate::clock::total;
use crate::clock::ClockView;
use crate::clock::SimulationClock;
use crate::population::grown_by;
use crate::population::lemma_growth_is_linear;
use crate::population::PopulationModel;
use crate::population::GROWTH_PER_TICK;
use crate::population::INITIAL_POPULATION;
use crate::speed::clamp_level;
use crate::speed::level_after_event;
use crate::speed::level_down;
use crate::speed::level_up;
use crate::speed::period_for_level;
use crate::speed::ControlEvent;
use crate::speed::SpeedSetting;
use crate::speed::MAX_SPEED;
use crate::state::state_for_level;
use crate::state::SimulationState;
use vstd::prelude::*;

verus! {

/// What a context is, mathematically.
pub struct ContextView {
    pub speed: nat,
    pub clock: ClockView,
    pub state: SimulationState,
    pub population: nat,
}

impl ContextView {
    /// The context at startup: speed zero, paused, a fresh clock, and the
    /// initial population.
    pub open spec fn initial() -> ContextView {
        ContextView {
            speed: 0,
            clock: ClockView::fresh(period_for_level(0)),
            state: SimulationState::Paused,
            population: INITIAL_POPULATION as nat,
        }
    }

    /// The speed is valid, and the mode and the clock's period are the ones
    /// that belong to it.
    pub open spec fn coherent(self) -> bool {
        &&& self.speed <= MAX_SPEED
        &&& self.state == state_for_level(self.speed)
        &&& self.clock.period == period_for_level(self.speed)
    }

    /// The context after the speed has been set to `level`: the mode and the
    /// clock's period follow, the accumulated time and the population stay.
    pub open spec fn with_speed(self, level: nat) -> ContextView {
        ContextView {
            speed: level,
            clock: self.clock.with_period(period_for_level(level)),
            state: state_for_level(level),
            population: self.population,
        }
    }

    /// The context after one event of the control surface.
    pub open spec fn handle(self, event: ControlEvent) -> ContextView {
        self.with_speed(level_after_event(self.speed, event))
    }

    /// The ticks that count when `delta` nanoseconds pass: while playing,
    /// every boundary that the clock crosses; while paused, none.
    pub open spec fn accepted_ticks(self, delta: nat) -> nat {
        if self.state == SimulationState::Playing {
            self.clock.ticks_due(delta)
        } else {
            0
        }
    }

    /// Whether the population counter can take the ticks that count when
    /// `delta` nanoseconds pass.
    pub open spec fn has_room(self, delta: nat) -> bool {
        self.population + GROWTH_PER_TICK * self.accepted_ticks(delta) <= u64::MAX
    }

    /// The context after a frame in which `delta` nanoseconds pass: the
    /// clock advances, and the population grows once for each tick that
    /// counts.
    pub open spec fn step(self, delta: nat) -> ContextView {
        ContextView {
            speed: self.speed,
            clock: self.clock.advance(delta),
            state: self.state,
            population: grown_by(self.population, self.accepted_ticks(delta)),
        }
    }

    /// The context after one frame for each element of `deltas`, in order.
    pub open spec fn run(self, deltas: Seq<nat>) -> ContextView
        decreases deltas.len(),
    {
        if deltas.len() == 0 {
            self
        } else {
            self.run(deltas.drop_last()).step(deltas.last())
        }
    }
}

/// The state of one simulation.
#[derive(Clone, Copy, Debug)]
pub struct SimulationContext {
    speed: SpeedSetting,
    clock: SimulationClock,
    state: SimulationState,
    province: PopulationModel,
}

impl View for SimulationContext {
    type V = ContextView;

    closed spec fn view(&self) -> ContextView {
        ContextView {
            speed: self.speed@,
            clock: self.clock@,
            state: self.state,
            population: self.province@,
        }
    }
}

impl SimulationContext {
    /// Every context is coherent.
    #[verifier::type_invariant]
    pub open spec fn coherent(&self) -> bool {
        self@.coherent()
    }

    /// The context at startup.
    pub fn new() -> (context: Self)
        ensures
            context@ == ContextView::initial(),
    {
        let speed = SpeedSetting::new(0);
        let clock = SimulationClock::new(speed.tick_period());
        SimulationContext {
            speed,
            clock,
            state: SimulationState::Paused,
            province: PopulationModel::new(),
        }
    }

    /// The speed.
    pub fn speed(&self) -> (speed: SpeedSetting)
        ensures
            speed@ == self@.speed,
    {
        self.speed
    }

    /// The mode, which is paused exactly when the speed is zero.
    pub fn state(&self) -> (state: SimulationState)
        ensures
            state == self@.state,
            state == state_for_level(self@.speed),
    {
        proof {
            use_type_invariant(self);
        }
        self.state
    }

    /// The clock, whose period is the one that belongs to the speed.
    pub fn clock(&self) -> (clock: SimulationClock)
        ensures
            clock@ == self@.clock,
            clock@.period == period_for_level(self@.speed),
    {
        proof {
            use_type_invariant(self);
        }
        self.clock
    }

    /// The province.
    pub fn province(&self) -> (province: PopulationModel)
        ensures
            province@ == self@.population,
    {
        self.province
    }

    /// The province's population.
    pub fn population(&self) -> (population: u64)
        ensures
            population == self@.population,
    {
        self.province.pops()
    }

    /// Sets the speed to the valid level nearest to `requested`. The mode
    /// and the clock's period follow; the time that the clock has
    /// accumulated stays.
    pub fn set_speed(&mut self, requested: u64)
        ensures
            final(self)@ == old(self)@.with_speed(clamp_level(requested as nat)),
    {
        self.change_speed(SpeedSetting::new(requested));
    }

    /// One level faster; at the fastest level the speed stays.
    pub fn increment_speed(&mut self)
        ensures
            final(self)@ == old(self)@.with_speed(level_up(old(self)@.speed)),
    {
        let mut speed = self.speed;
        speed.increment();
        self.change_speed(speed);
    }

    /// One level slower; at zero the speed stays.
    pub fn decrement_speed(&mut self)
        ensures
            final(self)@ == old(self)@.with_speed(level_down(old(self)@.speed)),
    {
        let mut speed = self.speed;
        speed.decrement();
        self.change_speed(speed);
    }

    /// Applies one event of the control surface.
    pub fn handle(&mut self, event: ControlEvent)
        ensures
            final(self)@ == old(self)@.handle(event),
    {
        match event {
            ControlEvent::IncrementSpeed => self.increment_speed(),
            ControlEvent::DecrementSpeed => self.decrement_speed(),
        }
    }

    /// Whether [`update`](Self::update) may be called with this `delta`.
    pub fn can_update(&self, delta: u64) -> (room: bool)
        ensures
            room == self@.has_room(delta as nat),
    {
        let mut clock = self.clock;
        let due = clock.advance(delta);
        let accepted: u128 = if self.state.is_playing() {
            due
        } else {
            0
        };
        self.province.has_room_for(accepted)
    }

    /// One frame: `delta` nanoseconds pass. The clock advances in either
    /// mode. While the simulation is playing, the population grows once for
    /// each tick boundary crossed; while it is paused, the population stays.
    /// Returns the number of ticks that counted. The population counter must
    /// have room for them, which [`can_update`](Self::can_update) tells.
    pub fn update(&mut self, delta: u64) -> (applied: u64)
        requires
            old(self)@.has_room(delta as nat),
        ensures
            final(self)@ == old(self)@.step(delta as nat),
            applied == old(self)@.accepted_ticks(delta as nat),
            final(self)@.population == old(self)@.population + GROWTH_PER_TICK * applied,
            old(self)@.state == SimulationState::Paused ==> applied == 0,
    {
        let mut clock = self.clock;
        let mut province = self.province;
        let due = clock.advance(delta);
        let mut applied: u64 = 0;
        if self.state.is_playing() {
            applied = due as u64;
            province.apply_ticks(applied);
        }
        proof {
            use_type_invariant(&*self);
        }
        *self = SimulationContext { speed: self.speed, clock, state: self.state, province };
        applied
    }

    fn change_speed(&mut self, speed: SpeedSetting)
        ensures
            final(self)@ == old(self)@.with_speed(speed@),
    {
        let mut clock = self.clock;
        clock.set_period(speed.tick_period());
        let state = self.state.after_speed_change(&speed);
        proof {
            use_type_invariant(&speed);
        }
        *self = SimulationContext { speed, clock, state, province: self.province };
    }
}

/// Setting the speed to zero pauses the simulation, and setting it to any
/// level from one to [`MAX_SPEED`] makes it play, whatever went before.
pub proof fn lemma_state_follows_speed(context: ContextView, level: nat)
    ensures
        context.with_speed(0).state == SimulationState::Paused,
        1 <= level <= MAX_SPEED ==> context.with_speed(level).state == SimulationState::Playing,
{
}

/// The context at startup is coherent.
pub proof fn lemma_initial_is_coherent()
    ensures
        ContextView::initial().coherent(),
{
}

/// Events and frames lead from coherent contexts to coherent contexts.
pub proof fn lemma_coherence_is_kept(context: ContextView, event: ControlEvent, delta: nat)
    requires
        context.coherent(),
    ensures
        context.handle(event).coherent(),
        context.step(delta).coherent(),
{
}

/// While the simulation is paused, no sequence of frames changes the
/// population, whatever tick boundaries the clock reports meanwhile.
pub proof fn lemma_paused_population_is_constant(context: ContextView, deltas: Seq<nat>)
    requires
        context.state == SimulationState::Paused,
    ensures
        context.run(deltas).population == context.population,
        context.run(deltas).state == SimulationState::Paused,
        context.run(deltas).speed == context.speed,
    decreases deltas.len(),
{
    if deltas.len() > 0 {
        lemma_paused_population_is_constant(context, deltas.drop_last());
    }
}

/// While the simulation is playing, a sequence of frames raises the
/// population by one step for each boundary that the clock reports over the
/// same deltas, and leaves the clock where those advances leave it.
pub proof fn lemma_playing_population_follows_clock(context: ContextView, deltas: Seq<nat>)
    requires
        context.state == SimulationState::Playing,
    ensures
        context.run(deltas).population == context.population + GROWTH_PER_TICK
            * context.clock.ticks_over(deltas),
        context.run(deltas).clock == context.clock.advance_over(deltas),
        context.run(deltas).state == SimulationState::Playing,
        context.run(deltas).speed == context.speed,
    decreases deltas.len(),
{
    if deltas.len() > 0 {
        let front = deltas.drop_last();
        lemma_playing_population_follows_clock(context, front);
        lemma_growth_is_linear(
            context.run(front).population,
            context.run(front).accepted_ticks(deltas.last()),
        );
    }
}

/// While the simulation is playing and the clock is settled, frames whose
/// deltas sum to exactly `k` periods raise the population by `k` steps,
/// however the time is cut into frames.
pub proof fn lemma_playing_growth(context: ContextView, deltas: Seq<nat>, k: nat)
    requires
        context.state == SimulationState::Playing,
        context.clock.period > 0,
        context.clock.settled(),
        total(deltas) == k * context.clock.period,
    ensures
        context.run(deltas).population == context.population + GROWTH_PER_TICK * k,
        context.run(deltas).clock == context.clock,
{
    lemma_playing_population_follows_clock(context, deltas);
    lemma_tick_fidelity(context.clock, deltas, k);
}

} // verus!
