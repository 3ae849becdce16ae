//! General-purpose input/output (GPIO).
//!
//! `AnyPin` holds, as plain values, what the driver logic reads of a pin: its
//! port, its one-bit pin mask, the configuration handed to the register
//! library, and the pin's logic level as the port registers would show it.
//! The register writes themselves are the hardware boundary and are
//! performed by the surrounding glue from these values.
use vstd::prelude::*;

use crate::Error;
use crate::InputError;

verus! {

/// Digital input or output level.
#[derive(Debug, Eq, PartialEq, Structural, Copy, Clone)]
pub enum Level {
    /// Low
    Low,
    /// High
    High,
}

impl From<bool> for Level {
    fn from(val: bool) -> (r: Self) {
        match val {
            true => Self::High,
            false => Self::Low,
        }
    }
}

impl vstd::std_specs::convert::FromSpecImpl<bool> for Level {
    open spec fn obeys_from_spec() -> bool {
        true
    }

    open spec fn from_spec(v: bool) -> Self {
        if v {
            Level::High
        } else {
            Level::Low
        }
    }
}

impl From<Level> for bool {
    fn from(level: Level) -> (r: bool) {
        match level {
            Level::Low => false,
            Level::High => true,
        }
    }
}

impl vstd::std_specs::convert::FromSpecImpl<Level> for bool {
    open spec fn obeys_from_spec() -> bool {
        true
    }

    open spec fn from_spec(v: Level) -> Self {
        v is High
    }
}

/// Pull setting for an input.
#[derive(Debug, Eq, PartialEq, Structural, Copy, Clone)]
pub enum Pull {
    /// No pull
    NoPull,
    /// Pull up
    Up,
    /// Pull down
    Down,
}

/// Speed setting for an output.
#[derive(Debug, Eq, PartialEq, Structural, Copy, Clone)]
pub enum Speed {
    /// Output speed 00
    Low,
    /// Output speed 01
    Medium,
    /// Output speed 10
    High,
    /// Output speed 11
    VeryHigh,
}

/// GPIO port. Pin `n` of every port aliases to external interrupt line `n`.
#[derive(Debug, Eq, PartialEq, Structural, Copy, Clone)]
pub enum Port {
    A,
    B,
    F,
}

/// Pin mode as the register library's initialization struct encodes it.
#[derive(Debug, Eq, PartialEq, Structural, Copy, Clone)]
pub enum PinMode {
    Input,
    OutputPushPull,
    Analog,
    AfOpenDrain,
    AfPushPull,
    ItRising,
    ItFalling,
    ItRisingFalling,
    EvtRising,
    EvtFalling,
    EvtRisingFalling,
}

/// The initialization parameters handed to the register library for a pin.
#[derive(Debug, Eq, PartialEq, Structural, Copy, Clone)]
pub struct PinConfig {
    pub pin: u32,
    pub mode: PinMode,
    pub pull: Pull,
    pub speed: Speed,
    pub alternate: u32,
}

/// Any pin, identified by port and one-bit pin mask (pin `n` is mask
/// `1 << n`), together with its configuration and its current logic level.
#[derive(Debug, Eq, PartialEq, Structural, Copy, Clone)]
pub struct AnyPin {
    pub port: Port,
    pub pin: u16,
    pub c_init_type: PinConfig,
    pub level: Level,
}

/// Which port, if any, a port letter names.
pub open spec fn spec_port_of_char(c: char) -> Option<Port> {
    if c == 'A' || c == 'a' {
        Some(Port::A)
    } else if c == 'B' || c == 'b' {
        Some(Port::B)
    } else if c == 'F' || c == 'f' {
        Some(Port::F)
    } else {
        None
    }
}

impl AnyPin {
    /// The pin mask names exactly one of the 16 pins of its port.
    pub open spec fn wf(self) -> bool {
        exists|k: u16| k < 16 && self.pin == (1u16 << k)
    }

    /// From a port and a pre-built pin mask. The mask is stored verbatim; a
    /// mask naming several pins of the port configures them all at once, and
    /// only a one-pin mask yields the well-formed pin that the per-line
    /// operations ask for.
    pub fn new_from_csdk(port: Port, pin: u16) -> (r: Result<Self, Error<()>>)
        ensures
            r matches Ok(p) && p.port == port && p.pin == pin && p.level == Level::Low
                && p.c_init_type == (PinConfig {
                pin: pin as u32,
                mode: PinMode::OutputPushPull,
                pull: Pull::NoPull,
                speed: Speed::Low,
                alternate: 0,
            }),
            (exists|k: u16| k < 16 && pin == (1u16 << k)) ==> (r matches Ok(p) && p.wf()),
    {
        let c_init_type = PinConfig {
            pin: pin as u32,
            mode: PinMode::OutputPushPull,
            pull: Pull::NoPull,
            speed: Speed::Low,
            alternate: 0,
        };
        Ok(Self { port, pin, c_init_type, level: Level::Low })
    }

    /// From a port letter (for example 'B') and a pin number 0-15. A letter
    /// naming no port is rejected.
    pub fn new(port_char: char, pin_num: u8) -> (r: Result<Self, Error<()>>)
        requires
            pin_num < 16,
        ensures
            match spec_port_of_char(port_char) {
                Some(port) => r matches Ok(p) && p.port == port && p.pin == (1u16 << (
                pin_num as u16)) && p.level == Level::Low && p.wf() && p.c_init_type == (PinConfig {
                    pin: (1u16 << (pin_num as u16)) as u32,
                    mode: PinMode::OutputPushPull,
                    pull: Pull::NoPull,
                    speed: Speed::Low,
                    alternate: 0,
                }),
                None => r == Result::<Self, Error<()>>::Err(
                    Error::UserInput(InputError::InvalidInstance),
                ),
            },
    {
        let pin: u16 = 1u16 << (pin_num as u16);
        let port = match port_char {
            'A' | 'a' => Port::A,
            'B' | 'b' => Port::B,
            'F' | 'f' => Port::F,
            _ => {
                return Err(Error::UserInput(InputError::InvalidInstance));
            },
        };
        let c_init_type = PinConfig {
            pin: pin as u32,
            mode: PinMode::OutputPushPull,
            pull: Pull::NoPull,
            speed: Speed::Low,
            alternate: 0,
        };
        Ok(Self { port, pin, c_init_type, level: Level::Low })
    }

    /// Enabling the port's clock cannot fail for a port this type can name.
    pub fn open_clk(&mut self) -> (r: Result<(), Error<()>>)
        ensures
            *final(self) == *old(self),
            r is Ok,
    {
        Ok(())
    }

    /// Index 0-15 of the pin within its port (also its interrupt line).
    pub fn line(&self) -> (r: u8)
        requires
            self.wf(),
        ensures
            r < 16,
            self.pin == (1u16 << (r as u16)),
    {
        let mut i: u8 = 0;
        while i < 16
            invariant
                i <= 16,
                self.wf(),
                forall|j: u16| j < i ==> self.pin != (1u16 << j),
            decreases 16 - i,
        {
            if self.pin & (1u16 << (i as u16)) != 0 {
                proof {
                    let k = choose|k: u16| k < 16 && self.pin == (1u16 << k);
                    let ii = i as u16;
                    assert(forall|k2: u16, i2: u16|
                        k2 < 16 && i2 < 16 && (1u16 << k2) & (1u16 << i2) != 0 ==> k2 == i2)
                        by (bit_vector);
                }
                return i;
            }
            proof {
                let p = self.pin;
                let ii = i as u16;
                assert(ii < 16 && p & (1u16 << ii) == 0 ==> p != (1u16 << ii)) by (bit_vector);
            }
            i = i + 1;
        }
        proof {
            let k = choose|k: u16| k < 16 && self.pin == (1u16 << k);
            assert(false);
        }
        0
    }

    /// Put the pin into input mode with the given pull and speed.
    pub fn set_as_input(&mut self, pull: Pull, speed: Speed)
        ensures
            final(self).c_init_type == (PinConfig {
                mode: PinMode::Input,
                pull,
                speed,
                ..old(self).c_init_type
            }),
            final(self).port == old(self).port,
            final(self).pin == old(self).pin,
            final(self).level == old(self).level,
    {
        self.c_init_type.speed = speed;
        self.c_init_type.mode = PinMode::Input;
        self.c_init_type.pull = pull;
    }

    /// Put the pin into push-pull output mode; the weak pulls are disabled.
    pub fn set_as_output(&mut self, speed: Speed)
        ensures
            final(self).c_init_type == (PinConfig {
                mode: PinMode::OutputPushPull,
                pull: Pull::NoPull,
                speed,
                ..old(self).c_init_type
            }),
            final(self).port == old(self).port,
            final(self).pin == old(self).pin,
            final(self).level == old(self).level,
    {
        self.c_init_type.speed = speed;
        self.c_init_type.mode = PinMode::OutputPushPull;
        self.c_init_type.pull = Pull::NoPull;
    }

    /// Put the pin into analog mode.
    pub fn set_as_analog(&mut self)
        ensures
            final(self).c_init_type == (PinConfig {
                mode: PinMode::Analog,
                pull: Pull::NoPull,
                speed: Speed::Low,
                ..old(self).c_init_type
            }),
            final(self).port == old(self).port,
            final(self).pin == old(self).pin,
            final(self).level == old(self).level,
    {
        self.c_init_type.speed = Speed::Low;
        self.c_init_type.mode = PinMode::Analog;
        self.c_init_type.pull = Pull::NoPull;
    }

    /// Set the alternate-function number, leaving the mode unchecked.
    pub fn set_af(&mut self, af_num: u8)
        ensures
            final(self).c_init_type == (PinConfig {
                alternate: af_num as u32,
                ..old(self).c_init_type
            }),
            final(self).port == old(self).port,
            final(self).pin == old(self).pin,
            final(self).level == old(self).level,
    {
        self.c_init_type.alternate = af_num as u32;
    }

    /// Put the pin into alternate-function open-drain mode, unchecked.
    pub fn set_as_af_od(&mut self, af_num: u8, pull: Pull, speed: Speed)
        ensures
            final(self).c_init_type == (PinConfig {
                mode: PinMode::AfOpenDrain,
                pull,
                speed,
                alternate: af_num as u32,
                ..old(self).c_init_type
            }),
            final(self).port == old(self).port,
            final(self).pin == old(self).pin,
            final(self).level == old(self).level,
    {
        self.c_init_type.mode = PinMode::AfOpenDrain;
        self.c_init_type.pull = pull;
        self.c_init_type.speed = speed;
        self.c_init_type.alternate = af_num as u32;
    }

    /// Put the pin into alternate-function push-pull mode, unchecked.
    pub fn set_as_af_pp(&mut self, af_num: u8, pull: Pull, speed: Speed)
        ensures
            final(self).c_init_type == (PinConfig {
                mode: PinMode::AfPushPull,
                pull,
                speed,
                alternate: af_num as u32,
                ..old(self).c_init_type
            }),
            final(self).port == old(self).port,
            final(self).pin == old(self).pin,
            final(self).level == old(self).level,
    {
        self.c_init_type.mode = PinMode::AfPushPull;
        self.c_init_type.pull = pull;
        self.c_init_type.speed = speed;
        self.c_init_type.alternate = af_num as u32;
    }

    /// Get whether the pin level is high.
    pub fn is_high(&self) -> (r: bool)
        ensures
            r == (self.level is High),
    {
        self.level == Level::High
    }

    /// Get whether the pin level is low.
    pub fn is_low(&self) -> (r: bool)
        ensures
            r == (self.level is Low),
    {
        self.level == Level::Low
    }

    /// Get the current pin level.
    pub fn get_level(&self) -> (r: Level)
        ensures
            r == self.level,
    {
        if self.is_high() {
            Level::High
        } else {
            Level::Low
        }
    }

    /// Drive the pin high.
    pub fn set_high(&mut self)
        ensures
            *final(self) == (AnyPin { level: Level::High, ..*old(self) }),
    {
        self.level = Level::High;
    }

    /// Drive the pin low.
    pub fn set_low(&mut self)
        ensures
            *final(self) == (AnyPin { level: Level::Low, ..*old(self) }),
    {
        self.level = Level::Low;
    }

    /// Drive the pin to the given level.
    pub fn set_level(&mut self, level: Level)
        ensures
            *final(self) == (AnyPin { level, ..*old(self) }),
    {
        match level {
            Level::Low => self.set_low(),
            Level::High => self.set_high(),
        };
    }

    /// Flip the pin's level.
    pub fn toggle(&mut self)
        ensures
            *final(self) == (AnyPin {
                level: if old(self).level is High {
                    Level::Low
                } else {
                    Level::High
                },
                ..*old(self)
            }),
    {
        if self.is_high() {
            self.level = Level::Low;
        } else {
            self.level = Level::High;
        }
    }
}

} // verus!
