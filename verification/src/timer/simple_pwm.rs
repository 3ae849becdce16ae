//! Simple PWM output: timer-base parameters and the prescaler computation.
use vstd::prelude::*;

verus! {

/// Timer-base parameters handed to the register library.
#[derive(Debug, Eq, PartialEq, Structural, Copy, Clone)]
pub struct TimBaseInit {
    /// Counts per PWM period.
    pub period: u32,
    /// Input-clock divider minus one.
    pub prescaler: u32,
    pub clock_division: u32,
    pub count_up: bool,
    pub repetition_counter: u32,
    pub auto_reload_preload: bool,
}

/// PWM timer-base configuration.
#[derive(Debug, Eq, PartialEq, Structural, Copy, Clone)]
pub struct Config {
    pub init: TimBaseInit,
}

impl Config {
    /// What `default` returns: a 50-count period with the clock divided
    /// down by 4800.
    pub open spec fn spec_default() -> Config {
        Config {
            init: TimBaseInit {
                period: 50,
                prescaler: 4799,
                clock_division: 1,
                count_up: true,
                repetition_counter: 0,
                auto_reload_preload: false,
            },
        }
    }

    /// A PWM base producing `freq_hz` pulse periods per second of `period`
    /// counts each, from a peripheral bus clock of `pclk_freq`: the
    /// prescaler divides the bus clock so that `period` counts span one
    /// pulse period. The divider must come out at one or more.
    pub fn new(pclk_freq: u32, freq_hz: u32, period: u32) -> (r: Self)
        requires
            freq_hz > 0,
            period > 0,
            pclk_freq / freq_hz / period >= 1,
        ensures
            r.init == (TimBaseInit {
                period,
                prescaler: (pclk_freq / freq_hz / period - 1) as u32,
                ..Config::spec_default().init
            }),
    {
        let mut config = Self::default();
        config.init.period = period;
        config.init.prescaler = pclk_freq / freq_hz / period - 1;
        config
    }
}

impl Default for Config {
    fn default() -> (r: Self)
        ensures
            r == Config::spec_default(),
    {
        Config {
            init: TimBaseInit {
                period: 50,
                prescaler: 4799,
                clock_division: 1,
                count_up: true,
                repetition_counter: 0,
                auto_reload_preload: false,
            },
        }
    }
}

/// Output-compare parameters of one PWM channel.
#[derive(Debug, Eq, PartialEq, Structural, Copy, Clone)]
pub struct ChannelConfig {
    /// The compare value: counts per period the output stays active.
    pub pulse: u32,
    pub polarity_high: bool,
    pub fast_mode: bool,
}

impl Default for ChannelConfig {
    fn default() -> (r: Self)
        ensures
            r == (ChannelConfig { pulse: 0, polarity_high: true, fast_mode: false }),
    {
        ChannelConfig { pulse: 0, polarity_high: true, fast_mode: false }
    }
}

} // verus!
