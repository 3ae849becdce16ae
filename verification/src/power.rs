//! Power-mode selection values.
//!
//! These name the low-power entry parameters of the register library's
//! sleep and stop entry points, which are the hardware boundary.
use vstd::prelude::*;

verus! {

/// How stop mode is entered.
#[derive(Debug, Eq, PartialEq, Structural, Copy, Clone)]
pub enum StopEntry {
    /// Wait for interrupt.
    Wfi,
    /// Wait for event.
    Wfe,
}

/// How sleep mode is entered.
#[derive(Debug, Eq, PartialEq, Structural, Copy, Clone)]
pub enum SleepEntry {
    /// Wait for interrupt.
    Wfi,
    /// Wait for event.
    Wfe,
}

/// Which regulator stays on in stop mode.
#[derive(Debug, Eq, PartialEq, Structural, Copy, Clone)]
pub enum RegulatorMode {
    MainRegulatorOn,
    LowPowerRegulatorOn,
}

} // verus!
