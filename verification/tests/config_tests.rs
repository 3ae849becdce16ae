use bind_hal::Error;
use bind_hal::Timeout;
use bind_hal::adc::AdcConfig;
use bind_hal::csdk_hal::HalStatus;
use bind_hal::csdk_hal::check;
use bind_hal::rcc;
use bind_hal::rcc::PllSource;
use bind_hal::rcc::RccConfig;
use bind_hal::rcc::SysclkSource;
use bind_hal::timer::simple_pwm;
use bind_hal::uart;

#[test]
fn check_maps_every_status() {
    assert_eq!(check::<u32, _>(HalStatus::HalOk, || Error::HalError(9)), Ok(()));
    assert_eq!(
        check::<u32, _>(HalStatus::HalError, || Error::HalError(9)),
        Err(Error::HalError(9))
    );
    assert_eq!(
        check::<u32, _>(HalStatus::HalBusy, || Error::HalError(9)),
        Err(Error::Busy)
    );
    assert_eq!(
        check::<u32, _>(HalStatus::HalTimeout, || Error::HalError(9)),
        Err(Error::Timeout)
    );
}

#[test]
fn check_builds_the_error_lazily_from_the_closure() {
    let mut called = false;
    let r = check::<u8, _>(HalStatus::HalError, || {
        called = true;
        Error::HalError(3)
    });
    assert!(called);
    assert_eq!(r, Err(Error::HalError(3)));
}

#[test]
fn timeout_budget_is_in_milliseconds() {
    let t = Timeout::new_mill(250);
    assert_eq!(t.get_tick(), 250);
    assert_eq!(t.timeout_tick, 250);
}

#[test]
fn rcc_default_runs_from_the_pll() {
    let rcc = RccConfig::new();
    assert!(rcc.osc_init.hsi_on);
    assert_eq!(rcc.osc_init.hsi_div, 1);
    assert_eq!(rcc.osc_init.hsi_calibration_mhz, 16);
    assert!(!rcc.osc_init.hse_on);
    assert!(!rcc.osc_init.lsi_on);
    assert!(!rcc.osc_init.lse_on);
    assert!(rcc.osc_init.pll_on);
    assert_eq!(rcc.osc_init.pll_source, PllSource::Hsi);
    assert_eq!(rcc.clk_init.sysclk_source, SysclkSource::Pll);
    assert_eq!(rcc.clk_init.ahb_divider, 1);
    assert_eq!(rcc.clk_init.apb1_divider, 1);
}

#[test]
fn rcc_new_from_csdk_stores_the_parts() {
    let base = RccConfig::new();
    let rcc = RccConfig::new_from_csdk(base.osc_init, base.clk_init);
    assert_eq!(rcc, base);
}

#[test]
fn rcc_speed_presets() {
    let fast = rcc::into_48_mhz_hsi();
    assert_eq!(fast.osc_init.hsi_calibration_mhz, 24);
    assert!(fast.osc_init.pll_on);
    let mid = rcc::into_32_mhz_hsi();
    assert_eq!(mid.osc_init.hsi_calibration_mhz, 16);
    assert!(mid.osc_init.pll_on);
    let slow = rcc::into_8_mhz_hsi();
    assert_eq!(slow.osc_init.hsi_calibration_mhz, 8);
    assert!(!slow.osc_init.pll_on);
    let slowest = rcc::into_1_mhz_hsi();
    assert_eq!(slowest.osc_init.hsi_div, 8);
    assert_eq!(slowest.clk_init.sysclk_source, SysclkSource::Hsi);
}

#[test]
fn adc_config_modes() {
    let config = AdcConfig::new();
    assert_eq!(config.init().resolution_bits, 12);
    assert!(config.init().software_trigger);
    assert!(config.init().low_power_auto_wait);
    assert!(!config.init().continuous_conv);
    assert!(!config.init().discontinuous_conv);
    assert!(!config.init().dma_continuous_requests);
    assert_eq!(config.timeout_ticks(), 10000);

    let mut dma_config = AdcConfig::new();
    dma_config.set_as_dma();
    assert!(dma_config.init().dma_continuous_requests);
    assert!(dma_config.init().continuous_conv);
    assert!(!dma_config.init().discontinuous_conv);

    dma_config.set_as_blocking();
    assert!(!dma_config.init().dma_continuous_requests);
    assert!(!dma_config.init().continuous_conv);

    dma_config.set_software_start();
    assert!(dma_config.init().software_trigger);
}

#[test]
fn i2c_default_bus() {
    let config = bind_hal::i2c::Config::default();
    assert_eq!(config.init.clock_speed, 100000);
    assert!(config.init.duty_cycle_16_9);
    assert_eq!(config.init.own_address1, 0xA0);
    assert!(!config.init.general_call);
    assert!(!config.init.no_stretch);
    assert_eq!(config.timeout.get_tick(), 2000);
}

#[test]
fn uart_default_frame() {
    let config = uart::Config::default();
    assert_eq!(config.init.baud_rate, 115200);
    assert_eq!(config.init.word_length, uart::WordLength::Bits8);
    assert_eq!(config.init.stop_bits, uart::StopBits::One);
    assert_eq!(config.init.parity, uart::Parity::NoParity);
    assert!(!config.init.hw_flow_control);
    assert!(config.init.oversampling_16);
    assert_eq!(config.timeout.get_tick(), 2000);
}

#[test]
fn pwm_prescaler_formula() {
    // a 48 MHz bus clock, 1 kHz pulse rate, 50 counts per period:
    // 48_000_000 / 1000 / 50 - 1 = 959
    let config = simple_pwm::Config::new(48_000_000, 1000, 50);
    assert_eq!(config.init.period, 50);
    assert_eq!(config.init.prescaler, 959);
    let default = simple_pwm::Config::default();
    assert_eq!(default.init.period, 50);
    assert_eq!(default.init.prescaler, 4799);
    let channel = simple_pwm::ChannelConfig::default();
    assert_eq!(channel.pulse, 0);
    assert!(channel.polarity_high);
    assert!(!channel.fast_mode);
}
