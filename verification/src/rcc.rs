//! Reset and clock control (RCC) configuration.
//!
//! The oscillator and bus-clock parameters are held as plain values; they
//! are opaque configuration handed through to the register library, whose
//! `apply` entry point is the hardware boundary.
use vstd::prelude::*;

verus! {

/// Clock source feeding the PLL.
#[derive(Debug, Eq, PartialEq, Structural, Copy, Clone)]
pub enum PllSource {
    Hsi,
    Hse,
}

/// Clock source feeding the system clock.
#[derive(Debug, Eq, PartialEq, Structural, Copy, Clone)]
pub enum SysclkSource {
    Hsi,
    Hse,
    Pll,
    Lsi,
    Lse,
}

/// Oscillator parameters.
#[derive(Debug, Eq, PartialEq, Structural, Copy, Clone)]
pub struct OscConfig {
    pub hsi_on: bool,
    /// Divider applied to the internal high-speed oscillator (1 or 8 here).
    pub hsi_div: u32,
    /// Which factory calibration the internal oscillator is trimmed to,
    /// by its nominal frequency in megahertz.
    pub hsi_calibration_mhz: u32,
    pub hse_on: bool,
    pub lsi_on: bool,
    pub lse_on: bool,
    pub pll_on: bool,
    pub pll_source: PllSource,
}

/// Bus-clock parameters.
#[derive(Debug, Eq, PartialEq, Structural, Copy, Clone)]
pub struct ClkConfig {
    pub sysclk_source: SysclkSource,
    pub ahb_divider: u32,
    pub apb1_divider: u32,
}

/// The full clock-tree configuration handed to the register library.
#[derive(Debug, Eq, PartialEq, Structural, Copy, Clone)]
pub struct RccConfig {
    pub osc_init: OscConfig,
    pub clk_init: ClkConfig,
}

impl RccConfig {
    /// The reset-style default: internal oscillator on and trimmed to
    /// 16 MHz, PLL on and fed from it, system clock from the PLL, buses
    /// undivided.
    pub open spec fn spec_default() -> RccConfig {
        RccConfig {
            osc_init: OscConfig {
                hsi_on: true,
                hsi_div: 1,
                hsi_calibration_mhz: 16,
                hse_on: false,
                lsi_on: false,
                lse_on: false,
                pll_on: true,
                pll_source: PllSource::Hsi,
            },
            clk_init: ClkConfig { sysclk_source: SysclkSource::Pll, ahb_divider: 1, apb1_divider: 1 },
        }
    }

    /// From pre-built oscillator and bus-clock parameter sets.
    pub fn new_from_csdk(osc_init: OscConfig, clk_init: ClkConfig) -> (r: Self)
        ensures
            r.osc_init == osc_init,
            r.clk_init == clk_init,
    {
        Self { osc_init, clk_init }
    }

    pub fn new() -> (r: Self)
        ensures
            r == Self::spec_default(),
    {
        Default::default()
    }
}

impl Default for RccConfig {
    fn default() -> (r: Self)
        ensures
            r == Self::spec_default(),
    {
        RccConfig {
            osc_init: OscConfig {
                hsi_on: true,
                hsi_div: 1,
                hsi_calibration_mhz: 16,
                hse_on: false,
                lsi_on: false,
                lse_on: false,
                pll_on: true,
                pll_source: PllSource::Hsi,
            },
            clk_init: ClkConfig { sysclk_source: SysclkSource::Pll, ahb_divider: 1, apb1_divider: 1 },
        }
    }
}

/// Configuration for a 48 MHz system clock: the 24 MHz calibration doubled
/// by the PLL. Applying it to the clock controller is the hardware step.
pub fn into_48_mhz_hsi() -> (r: RccConfig)
    ensures
        r == (RccConfig {
            osc_init: OscConfig {
                hsi_calibration_mhz: 24,
                pll_on: true,
                ..RccConfig::spec_default().osc_init
            },
            ..RccConfig::spec_default()
        }),
{
    let mut rcc = RccConfig::new();
    rcc.osc_init.hsi_calibration_mhz = 24;
    rcc.osc_init.pll_on = true;
    rcc
}

/// Configuration for a 32 MHz system clock: the 16 MHz calibration doubled
/// by the PLL.
pub fn into_32_mhz_hsi() -> (r: RccConfig)
    ensures
        r == (RccConfig {
            osc_init: OscConfig {
                hsi_calibration_mhz: 16,
                pll_on: true,
                ..RccConfig::spec_default().osc_init
            },
            ..RccConfig::spec_default()
        }),
{
    let mut rcc = RccConfig::new();
    rcc.osc_init.hsi_calibration_mhz = 16;
    rcc.osc_init.pll_on = true;
    rcc
}

/// Configuration for an 8 MHz system clock straight from the internal
/// oscillator, PLL off.
pub fn into_8_mhz_hsi() -> (r: RccConfig)
    ensures
        r == (RccConfig {
            osc_init: OscConfig {
                hsi_calibration_mhz: 8,
                pll_on: false,
                ..RccConfig::spec_default().osc_init
            },
            ..RccConfig::spec_default()
        }),
{
    let mut rcc = RccConfig::new();
    rcc.osc_init.hsi_calibration_mhz = 8;
    rcc.osc_init.pll_on = false;
    rcc
}

/// Configuration for a 1 MHz system clock: the 8 MHz calibration divided by
/// eight, system clock taken directly from the internal oscillator.
pub fn into_1_mhz_hsi() -> (r: RccConfig)
    ensures
        r == (RccConfig {
            osc_init: OscConfig {
                hsi_calibration_mhz: 8,
                pll_on: false,
                hsi_div: 8,
                ..RccConfig::spec_default().osc_init
            },
            clk_init: ClkConfig {
                sysclk_source: SysclkSource::Hsi,
                ..RccConfig::spec_default().clk_init
            },
        }),
{
    let mut rcc = RccConfig::new();
    rcc.osc_init.hsi_calibration_mhz = 8;
    rcc.osc_init.pll_on = false;
    rcc.osc_init.hsi_div = 8;
    rcc.clk_init.sysclk_source = SysclkSource::Hsi;
    rcc
}

} // verus!
