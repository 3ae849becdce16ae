//! Timer peripherals.
use vstd::prelude::*;

pub mod simple_pwm;

verus! {

/// Output-compare channel of a timer.
#[derive(Debug, Eq, PartialEq, Structural, Copy, Clone)]
pub enum Channel {
    Ch1,
    Ch2,
    Ch3,
    Ch4,
}

} // verus!
