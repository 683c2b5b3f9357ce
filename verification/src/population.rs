//! The province: a population counter that grows by a fixed step with every
//! tick that counts.

use vstd::prelude::*;

verus! {

/// The population at the start.
pub const INITIAL_POPULATION: u64 = 10000;

/// By how much one tick raises the population.
pub const GROWTH_PER_TICK: u64 = 100;

/// The population after one tick.
pub open spec fn grown(population: nat) -> nat {
    population + GROWTH_PER_TICK as nat
}

/// The population after `ticks` ticks, one after the other.
pub open spec fn grown_by(population: nat, ticks: nat) -> nat
    decreases ticks,
{
    if ticks == 0 {
        population
    } else {
        grown(grown_by(population, (ticks - 1) as nat))
    }
}

/// The one simulated province. Its view is its population.
#[derive(Clone, Copy, Debug)]
pub struct PopulationModel {
    pops: u64,
}

impl View for PopulationModel {
    type V = nat;

    closed spec fn view(&self) -> nat {
        self.pops as nat
    }
}

impl PopulationModel {
    /// A province with the initial population.
    pub fn new() -> (province: Self)
        ensures
            province@ == INITIAL_POPULATION,
    {
        PopulationModel { pops: INITIAL_POPULATION }
    }

    /// The population.
    pub fn pops(&self) -> (pops: u64)
        ensures
            pops == self@,
    {
        self.pops
    }

    /// Whether the counter has room for `ticks` more ticks.
    pub fn has_room_for(&self, ticks: u128) -> (room: bool)
        ensures
            room == (self@ + GROWTH_PER_TICK * ticks <= u64::MAX),
    {
        let room: u64 = (u64::MAX - self.pops) / GROWTH_PER_TICK;
        ticks <= room as u128
    }

    /// One tick: the population grows by [`GROWTH_PER_TICK`]. The counter
    /// must have room for it.
    pub fn apply_tick(&mut self)
        requires
            old(self)@ + GROWTH_PER_TICK <= u64::MAX,
        ensures
            final(self)@ == grown(old(self)@),
    {
        self.pops = self.pops + GROWTH_PER_TICK;
    }

    /// As many ticks as `ticks` says, in one step. The counter must have room
    /// for them.
    pub fn apply_ticks(&mut self, ticks: u64)
        requires
            old(self)@ + GROWTH_PER_TICK * ticks <= u64::MAX,
        ensures
            final(self)@ == grown_by(old(self)@, ticks as nat),
            final(self)@ == old(self)@ + GROWTH_PER_TICK * ticks,
    {
        proof {
            lemma_growth_is_linear(self@, ticks as nat);
        }
        self.pops = self.pops + GROWTH_PER_TICK * ticks;
    }
}

/// After `ticks` ticks the population is larger by `ticks` times the step.
pub proof fn lemma_growth_is_linear(population: nat, ticks: nat)
    ensures
        grown_by(population, ticks) == population + GROWTH_PER_TICK * ticks,
    decreases ticks,
{
    if ticks > 0 {
        lemma_growth_is_linear(population, (ticks - 1) as nat);
    }
}

/// From the initial population, `ticks` ticks lead to 10000 + 100 * `ticks`.
pub proof fn lemma_population_after_ticks(ticks: nat)
    ensures
        grown_by(INITIAL_POPULATION as nat, ticks) == 10000 + 100 * ticks,
{
    lemma_growth_is_linear(INITIAL_POPULATION as nat, ticks);
}

} // verus!
