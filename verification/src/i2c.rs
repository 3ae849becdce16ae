//! Inter-integrated-circuit (I2C) configuration.
use vstd::prelude::*;

use crate::Timeout;

verus! {

/// Bus parameters handed to the register library.
#[derive(Debug, Eq, PartialEq, Structural, Copy, Clone)]
pub struct I2cInit {
    /// Bus clock in hertz.
    pub clock_speed: u32,
    /// Fast-mode duty cycle of 16/9 rather than 2.
    pub duty_cycle_16_9: bool,
    /// The peripheral's own seven-bit address, pre-shifted.
    pub own_address1: u32,
    pub general_call: bool,
    pub no_stretch: bool,
}

/// I2C configuration: bus parameters plus the blocking-timeout budget.
pub struct Config {
    pub init: I2cInit,
    pub timeout: Timeout,
}

impl Config {
    /// What `default` returns: a 100 kHz bus, 16/9 duty cycle, own address
    /// 0xA0, no general call, clock stretching allowed, and a two-second
    /// blocking timeout.
    pub open spec fn spec_default_init() -> I2cInit {
        I2cInit {
            clock_speed: 100000,
            duty_cycle_16_9: true,
            own_address1: 0xA0,
            general_call: false,
            no_stretch: false,
        }
    }
}

impl Default for Config {
    fn default() -> (r: Self)
        ensures
            r.init == Config::spec_default_init(),
            r.timeout.timeout_tick == 2000,
    {
        Config {
            init: I2cInit {
                clock_speed: 100000,
                duty_cycle_16_9: true,
                own_address1: 0xA0,
                general_call: false,
                no_stretch: false,
            },
            timeout: Timeout::new_mill(2000),
        }
    }
}

} // verus!
