//! Peripheral-driver support layer for a small microcontroller, centred on its
//! interrupt-driven synchronization core: an edge-triggered wait registry
//! multiplexing 16 interrupt lines, a monotonic software clock with a
//! single-shot alarm, and a dispatch table routing multiplexed completion
//! interrupts to the owning transfer.
//!
//! Hardware register access is kept at the boundary: the components here hold
//! the driver-visible state as plain values, take raw controller snapshots as
//! arguments, and return the actions (lines to mask, status bits to clear,
//! wakers to invoke) that the interrupt glue must perform.
use vstd::prelude::*;

pub mod adc;
pub mod csdk_hal;
pub mod dma;
pub mod exti;
pub mod gpio;
pub mod i2c;
pub mod mode;
pub mod power;
pub mod rcc;
pub mod time_driver;
pub mod timer;
pub mod uart;

verus! {

/// Error returned by a driver operation. `E` carries the peripheral's own
/// error detail when the underlying register operation failed.
#[derive(Debug, PartialEq, Eq, Copy, Clone)]
pub enum Error<E> {
    /// The underlying register operation reported failure.
    HalError(E),
    /// The peripheral was busy.
    Busy,
    /// The operation exceeded its tick budget.
    Timeout,
    /// The caller handed in an invalid argument.
    UserInput(InputError),
}

/// Construction-time errors reported synchronously to the caller.
#[derive(Debug, PartialEq, Eq, Copy, Clone)]
pub enum InputError {
    /// The requested peripheral instance does not exist.
    InvalidInstance,
    /// A line index outside the fixed 0-15 range.
    InvalidLine,
    /// A channel index outside the dispatch table's fixed range.
    InvalidChannel,
}

/// The kind of input a construction-time error refers to.
#[derive(Debug, PartialEq, Eq, Copy, Clone)]
pub enum InputErrorType {
    Instant,
}

/// Tick budget for a blocking operation.
pub struct Timeout {
    pub timeout_tick: u32,
}

impl Timeout {
    /// One tick of the blocking-timeout budget lasts a millisecond, so the
    /// budget equals the requested number of milliseconds.
    pub fn new_mill(mill: u32) -> (r: Self)
        ensures
            r.timeout_tick == mill,
    {
        Self { timeout_tick: mill }
    }

    pub fn get_tick(&self) -> (r: u32)
        ensures
            r == self.timeout_tick,
    {
        self.timeout_tick
    }
}

} // verus!
