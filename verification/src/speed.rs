//! The speed control: a level from zero to [`MAX_SPEED`] that saturates at
//! both ends, the tick period that belongs to each level, and the text under
//! which a level is shown.

use vstd::prelude::*;

verus! {

/// The fastest level.
pub const MAX_SPEED: u64 = 5;

/// The tick period at the fastest level, in nanoseconds (200 ms).
pub const BASE_TICK_NANOS: u64 = 200_000_000;

/// What the control surface can ask for: one step faster or one step slower.
#[derive(Clone, Copy, Debug, PartialEq, Eq, Structural)]
pub enum ControlEvent {
    IncrementSpeed,
    DecrementSpeed,
}

/// One level faster, staying at [`MAX_SPEED`] once it is reached.
pub open spec fn level_up(level: nat) -> nat {
    if level >= MAX_SPEED {
        MAX_SPEED as nat
    } else {
        level + 1
    }
}

/// One level slower, staying at zero once it is reached.
pub open spec fn level_down(level: nat) -> nat {
    if level == 0 {
        0
    } else {
        (level - 1) as nat
    }
}

/// The nearest valid level to a requested one.
pub open spec fn clamp_level(requested: nat) -> nat {
    if requested >= MAX_SPEED {
        MAX_SPEED as nat
    } else {
        requested
    }
}

/// The level after one event.
pub open spec fn level_after_event(level: nat, event: ControlEvent) -> nat {
    match event {
        ControlEvent::IncrementSpeed => level_up(level),
        ControlEvent::DecrementSpeed => level_down(level),
    }
}

/// The level after a whole sequence of events, applied first to last.
pub open spec fn level_after(level: nat, events: Seq<ControlEvent>) -> nat
    decreases events.len(),
{
    if events.len() == 0 {
        level
    } else {
        level_after_event(level_after(level, events.drop_last()), events.last())
    }
}

/// The tick period of a level, in nanoseconds: the base period times the
/// number of levels from this one up to one past the fastest. Level zero has
/// the longest period; what stops the ticks there is the pause, not the clock.
pub open spec fn period_for_level(level: nat) -> nat
    recommends
        level <= MAX_SPEED,
{
    (BASE_TICK_NANOS * (MAX_SPEED + 1 - level)) as nat
}

/// The decimal digit that stands for a level.
pub open spec fn level_digit(level: nat) -> char
    recommends
        level <= MAX_SPEED,
{
    if level == 0 {
        '0'
    } else if level == 1 {
        '1'
    } else if level == 2 {
        '2'
    } else if level == 3 {
        '3'
    } else if level == 4 {
        '4'
    } else {
        '5'
    }
}

/// The text shown for a level: the word `Speed`, a space, and the level.
pub open spec fn label_text(level: nat) -> Seq<char>
    recommends
        level <= MAX_SPEED,
{
    seq!['S', 'p', 'e', 'e', 'd', ' '].push(level_digit(level))
}

/// A speed level. It can only be made and changed through the functions
/// below, and none of them leaves the range from zero to [`MAX_SPEED`].
#[derive(Clone, Copy, Debug)]
pub struct SpeedSetting {
    level: u64,
}

impl View for SpeedSetting {
    type V = nat;

    closed spec fn view(&self) -> nat {
        self.level as nat
    }
}

impl SpeedSetting {
    /// The range that every value of this type is in.
    #[verifier::type_invariant]
    pub open spec fn in_range(&self) -> bool {
        self@ <= MAX_SPEED
    }

    /// The valid level nearest to `requested`.
    pub fn new(requested: u64) -> (speed: Self)
        ensures
            speed@ == clamp_level(requested as nat),
    {
        if requested >= MAX_SPEED {
            SpeedSetting { level: MAX_SPEED }
        } else {
            SpeedSetting { level: requested }
        }
    }

    /// The level, which is never above [`MAX_SPEED`].
    pub fn level(&self) -> (level: u64)
        ensures
            level == self@,
            level <= MAX_SPEED,
    {
        proof {
            use_type_invariant(self);
        }
        self.level
    }

    /// Raises the level by one; at [`MAX_SPEED`] nothing changes.
    pub fn increment(&mut self)
        ensures
            final(self)@ == level_up(old(self)@),
    {
        proof {
            use_type_invariant(&*self);
        }
        if self.level < MAX_SPEED {
            self.level = self.level + 1;
        }
    }

    /// Lowers the level by one; at zero nothing changes.
    pub fn decrement(&mut self)
        ensures
            final(self)@ == level_down(old(self)@),
    {
        proof {
            use_type_invariant(&*self);
        }
        if self.level > 0 {
            self.level = self.level - 1;
        }
    }

    /// Applies one event of the control surface.
    pub fn apply(&mut self, event: ControlEvent)
        ensures
            final(self)@ == level_after_event(old(self)@, event),
    {
        match event {
            ControlEvent::IncrementSpeed => self.increment(),
            ControlEvent::DecrementSpeed => self.decrement(),
        }
    }

    /// The tick period of this level, in nanoseconds.
    pub fn tick_period(&self) -> (period: u64)
        ensures
            period == period_for_level(self@),
            period > 0,
    {
        proof {
            use_type_invariant(self);
        }
        BASE_TICK_NANOS * (MAX_SPEED + 1 - self.level)
    }

    /// The text under which this level is shown.
    pub fn label(&self) -> (text: String)
        ensures
            text@ == label_text(self@),
    {
        proof {
            use_type_invariant(self);
            reveal_strlit("Speed 0");
            reveal_strlit("Speed 1");
            reveal_strlit("Speed 2");
            reveal_strlit("Speed 3");
            reveal_strlit("Speed 4");
            reveal_strlit("Speed 5");
        }
        let shown: &str = if self.level == 0 {
            "Speed 0"
        } else if self.level == 1 {
            "Speed 1"
        } else if self.level == 2 {
            "Speed 2"
        } else if self.level == 3 {
            "Speed 3"
        } else if self.level == 4 {
            "Speed 4"
        } else {
            "Speed 5"
        };
        assert(shown@ =~= label_text(self@));
        shown.to_owned()
    }
}

/// Saturation: from a valid level, no sequence of increments and decrements
/// leads out of the range from zero to [`MAX_SPEED`].
pub proof fn lemma_level_stays_in_range(level: nat, events: Seq<ControlEvent>)
    requires
        level <= MAX_SPEED,
    ensures
        0 <= level_after(level, events) <= MAX_SPEED,
    decreases events.len(),
{
    if events.len() > 0 {
        lemma_level_stays_in_range(level, events.drop_last());
    }
}

/// A faster level has a shorter period, and every level's period is positive.
pub proof fn lemma_period_decreases_with_level(slower: nat, faster: nat)
    requires
        slower < faster <= MAX_SPEED,
    ensures
        0 < period_for_level(faster) < period_for_level(slower),
{
}

} // verus!
