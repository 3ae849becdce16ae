use bind_hal::gpio::AnyPin;
use bind_hal::gpio::Level;
use bind_hal::gpio::PinMode;
use bind_hal::gpio::Port;
use bind_hal::gpio::Pull;
use bind_hal::gpio::Speed;
use bind_hal::Error;
use bind_hal::InputError;

#[test]
fn new_builds_the_pin_mask() {
    let pin = AnyPin::new('B', 4).unwrap();
    assert_eq!(pin.port, Port::B);
    assert_eq!(pin.pin, 1u16 << 4);
    assert_eq!(pin.c_init_type.pin, 1u32 << 4);
    assert_eq!(pin.c_init_type.mode, PinMode::OutputPushPull);
    assert_eq!(pin.c_init_type.pull, Pull::NoPull);
    assert_eq!(pin.c_init_type.speed, Speed::Low);
    assert_eq!(pin.c_init_type.alternate, 0);
    assert_eq!(pin.level, Level::Low);
}

#[test]
fn lowercase_port_letters_work() {
    assert_eq!(AnyPin::new('a', 0).unwrap().port, Port::A);
    assert_eq!(AnyPin::new('b', 1).unwrap().port, Port::B);
    assert_eq!(AnyPin::new('f', 15).unwrap().port, Port::F);
}

#[test]
fn unknown_port_letter_is_rejected() {
    assert_eq!(
        AnyPin::new('X', 3).unwrap_err(),
        Error::UserInput(InputError::InvalidInstance)
    );
    assert_eq!(
        AnyPin::new('c', 3).unwrap_err(),
        Error::UserInput(InputError::InvalidInstance)
    );
}

#[test]
fn new_from_csdk_keeps_the_mask() {
    let pin = AnyPin::new_from_csdk(Port::A, 1u16 << 9).unwrap();
    assert_eq!(pin.port, Port::A);
    assert_eq!(pin.pin, 1u16 << 9);
    assert_eq!(pin.line(), 9);
}

#[test]
fn line_recovers_the_pin_number() {
    for n in 0u8..16 {
        let pin = AnyPin::new('A', n).unwrap();
        assert_eq!(pin.line(), n);
    }
}

#[test]
fn open_clk_succeeds_for_named_ports() {
    let mut pin = AnyPin::new('F', 2).unwrap();
    assert!(pin.open_clk().is_ok());
}

#[test]
fn set_and_get_level() {
    let mut pin = AnyPin::new('B', 3).unwrap();
    assert!(pin.is_low());
    pin.set_high();
    assert!(pin.is_high());
    assert_eq!(pin.get_level(), Level::High);
    pin.set_low();
    assert_eq!(pin.get_level(), Level::Low);
    pin.set_level(Level::High);
    assert_eq!(pin.get_level(), Level::High);
    pin.toggle();
    assert_eq!(pin.get_level(), Level::Low);
    pin.toggle();
    assert_eq!(pin.get_level(), Level::High);
}

#[test]
fn mode_setters_update_the_init_struct() {
    let mut pin = AnyPin::new('A', 7).unwrap();
    pin.set_as_input(Pull::Up, Speed::Medium);
    assert_eq!(pin.c_init_type.mode, PinMode::Input);
    assert_eq!(pin.c_init_type.pull, Pull::Up);
    assert_eq!(pin.c_init_type.speed, Speed::Medium);
    pin.set_as_output(Speed::High);
    assert_eq!(pin.c_init_type.mode, PinMode::OutputPushPull);
    assert_eq!(pin.c_init_type.pull, Pull::NoPull);
    pin.set_as_analog();
    assert_eq!(pin.c_init_type.mode, PinMode::Analog);
    assert_eq!(pin.c_init_type.speed, Speed::Low);
    pin.set_af(12);
    assert_eq!(pin.c_init_type.alternate, 12);
    pin.set_as_af_od(5, Pull::Up, Speed::VeryHigh);
    assert_eq!(pin.c_init_type.mode, PinMode::AfOpenDrain);
    assert_eq!(pin.c_init_type.alternate, 5);
    pin.set_as_af_pp(3, Pull::Down, Speed::Low);
    assert_eq!(pin.c_init_type.mode, PinMode::AfPushPull);
    assert_eq!(pin.c_init_type.pull, Pull::Down);
    assert_eq!(pin.c_init_type.alternate, 3);
}

#[test]
fn level_converts_to_and_from_bool() {
    assert_eq!(Level::from(true), Level::High);
    assert_eq!(Level::from(false), Level::Low);
    assert!(bool::from(Level::High));
    assert!(!bool::from(Level::Low));
    for level in [Level::Low, Level::High] {
        assert_eq!(Level::from(bool::from(level)), level);
    }
}
