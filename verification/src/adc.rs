//! Analog-to-digital converter (ADC) configuration.
use vstd::prelude::*;

verus! {

/// Conversion parameters handed to the register library.
#[derive(Debug, Eq, PartialEq, Structural, Copy, Clone)]
pub struct AdcInit {
    /// Conversion resolution in bits.
    pub resolution_bits: u32,
    /// Conversions are started by software rather than an external trigger.
    pub software_trigger: bool,
    /// Wait for the previous result to be read before converting again.
    pub low_power_auto_wait: bool,
    pub continuous_conv: bool,
    pub discontinuous_conv: bool,
    pub dma_continuous_requests: bool,
}

/// ADC configuration: conversion parameters plus the poll-timeout budget.
pub struct AdcConfig {
    init: AdcInit,
    timeout_ticks: u32,
}

impl AdcConfig {
    pub closed spec fn spec_init(self) -> AdcInit {
        self.init
    }

    pub closed spec fn spec_timeout_ticks(self) -> u32 {
        self.timeout_ticks
    }

    /// What `new` returns: twelve-bit single conversions started by
    /// software, auto-wait on, no continuous or DMA operation, and a
    /// poll-timeout budget of 10000 ticks.
    pub open spec fn spec_default_init() -> AdcInit {
        AdcInit {
            resolution_bits: 12,
            software_trigger: true,
            low_power_auto_wait: true,
            continuous_conv: false,
            discontinuous_conv: false,
            dma_continuous_requests: false,
        }
    }

    /// The conversion parameters as currently configured.
    pub fn init(&self) -> (r: AdcInit)
        ensures
            r == self.spec_init(),
    {
        self.init
    }

    /// The poll-timeout budget in ticks.
    pub fn timeout_ticks(&self) -> (r: u32)
        ensures
            r == self.spec_timeout_ticks(),
    {
        self.timeout_ticks
    }

    pub fn new() -> (r: Self)
        ensures
            r.spec_init() == Self::spec_default_init(),
            r.spec_timeout_ticks() == 10000,
    {
        AdcConfig {
            init: AdcInit {
                resolution_bits: 12,
                software_trigger: true,
                low_power_auto_wait: true,
                continuous_conv: false,
                discontinuous_conv: false,
                dma_continuous_requests: false,
            },
            timeout_ticks: 10000,
        }
    }

    /// Configure for blocking single conversions: no DMA requests, no
    /// discontinuous mode, no continuous mode.
    pub fn set_as_blocking(&mut self)
        ensures
            final(self).spec_init() == (AdcInit {
                dma_continuous_requests: false,
                discontinuous_conv: false,
                continuous_conv: false,
                ..old(self).spec_init()
            }),
            final(self).spec_timeout_ticks() == old(self).spec_timeout_ticks(),
    {
        self.init.dma_continuous_requests = false;
        self.init.discontinuous_conv = false;
        self.init.continuous_conv = false;
    }

    /// Configure for continuous conversions drained by DMA.
    pub fn set_as_dma(&mut self)
        ensures
            final(self).spec_init() == (AdcInit {
                dma_continuous_requests: true,
                discontinuous_conv: false,
                continuous_conv: true,
                ..old(self).spec_init()
            }),
            final(self).spec_timeout_ticks() == old(self).spec_timeout_ticks(),
    {
        self.init.dma_continuous_requests = true;
        self.init.discontinuous_conv = false;
        self.init.continuous_conv = true;
    }

    /// Start conversions from software, with no external trigger edge.
    pub fn set_software_start(&mut self)
        ensures
            final(self).spec_init() == (AdcInit {
                software_trigger: true,
                ..old(self).spec_init()
            }),
            final(self).spec_timeout_ticks() == old(self).spec_timeout_ticks(),
    {
        self.init.software_trigger = true;
    }
}

} // verus!
