//! A tick-rate-controlled simulation clock.
//!
//! A speed control with six levels sets the period of a repeating clock. The
//! clock turns elapsed time into whole ticks, a two-state mode decides whether
//! those ticks count, and each tick that counts makes one province grow by a
//! fixed step. All durations are whole nanoseconds.
//!
//! Every type has a mathematical view, and every contract is stated over the
//! views, so that the laws at the end of each file speak of the same
//! functions as the executable code.

pub mod clock;
pub mod context;
pub mod population;
pub mod speed;
pub mod state;
