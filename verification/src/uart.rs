//! Universal asynchronous receiver/transmitter (UART) configuration.
use vstd::prelude::*;

use crate::Timeout;

verus! {

/// Serial error.
#[derive(Debug, Eq, PartialEq, Structural, Copy, Clone)]
#[non_exhaustive]
pub enum SerialError {
    /// Framing error
    Framing,
    /// Noise error
    Noise,
    /// RX buffer overrun
    Overrun,
    /// Parity check error
    Parity,
    /// Buffer too large for DMA
    BufferTooLong,
}

/// Data bits per frame.
#[derive(Debug, Eq, PartialEq, Structural, Copy, Clone)]
pub enum WordLength {
    Bits8,
    Bits9,
}

/// Stop bits per frame.
#[derive(Debug, Eq, PartialEq, Structural, Copy, Clone)]
pub enum StopBits {
    One,
    Two,
}

/// Parity bit selection.
#[derive(Debug, Eq, PartialEq, Structural, Copy, Clone)]
pub enum Parity {
    NoParity,
    Even,
    Odd,
}

/// Frame parameters handed to the register library.
#[derive(Debug, Eq, PartialEq, Structural, Copy, Clone)]
pub struct UartInit {
    pub baud_rate: u32,
    pub word_length: WordLength,
    pub stop_bits: StopBits,
    pub parity: Parity,
    pub hw_flow_control: bool,
    pub oversampling_16: bool,
}

/// UART configuration: frame parameters plus the blocking-timeout budget.
pub struct Config {
    pub init: UartInit,
    pub timeout: Timeout,
}

impl Config {
    /// What `default` returns: 115200 baud, eight data bits, one stop bit,
    /// no parity, no flow control, sixteenfold oversampling, and a
    /// two-second blocking timeout.
    pub open spec fn spec_default_init() -> UartInit {
        UartInit {
            baud_rate: 115200,
            word_length: WordLength::Bits8,
            stop_bits: StopBits::One,
            parity: Parity::NoParity,
            hw_flow_control: false,
            oversampling_16: true,
        }
    }
}

impl Default for Config {
    fn default() -> (r: Self)
        ensures
            r.init == Config::spec_default_init(),
            r.timeout.timeout_tick == 2000,
    {
        Config {
            init: UartInit {
                baud_rate: 115200,
                word_length: WordLength::Bits8,
                stop_bits: StopBits::One,
                parity: Parity::NoParity,
                hw_flow_control: false,
                oversampling_16: true,
            },
            timeout: Timeout::new_mill(2000),
        }
    }
}

} // verus!
