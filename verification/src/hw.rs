//! Actuator driver: from a logical on/off state to a physical pin level.
//!
//! Nothing here touches a pin. The functions say which level an output is
//! to be driven to; the caller, who owns the pin handles, drives it.

use vstd::prelude::*;

verus! {

/// Physical level of an output pin.
#[derive(Clone, Copy, Debug, PartialEq, Eq, Structural)]
pub enum Level {
    Low,
    High,
}

/// An actuator output.
#[derive(Clone, Copy, Debug, PartialEq, Eq, Structural)]
pub enum Output {
    Relay,
    Pump,
}

/// One write of a level to the pin of an output.
#[derive(Clone, Copy, Debug, PartialEq, Eq, Structural)]
pub struct PinWrite {
    pub output: Output,
    pub level: Level,
}

/// Polarity of one actuator output: whether it is on when its pin is low.
#[derive(Clone, Copy, Debug, PartialEq, Eq, Structural)]
pub struct PolarityConfig {
    pub active_low: bool,
}

/// How the pump is wired: through a relay alone, or through a relay and a
/// pump output of its own, each with its own polarity.
#[derive(Clone, Copy, Debug, PartialEq, Eq, Structural)]
pub enum Wiring {
    RelayOnly { relay: PolarityConfig },
    RelayAndPump { relay: PolarityConfig, pump: PolarityConfig },
}

/// What the hardware is to be brought up with.
#[derive(Clone, Copy, Debug, PartialEq, Eq)]
pub struct HwInit {
    /// Clock rate of the sensor bus in hertz, never zero.
    pub i2c_baud_hz: u32,
    /// The write that switches the relay off.
    pub relay: PinWrite,
    /// The write that switches the pump output off, where there is one.
    pub pump: Option<PinWrite>,
}

/// The level that stands for the logical state `on` on an output of the
/// given polarity: an active-low output is on when driven low, an
/// active-high output is on when driven high.
pub open spec fn level_for(on: bool, active_low: bool) -> Level {
    if on == active_low {
        Level::Low
    } else {
        Level::High
    }
}

/// Maps a logical state through the polarity of an output to the level to
/// drive its pin to.
pub fn set_with_polarity(on: bool, active_low: bool) -> (level: Level)
    ensures
        level == level_for(on, active_low),
{
    if active_low {
        if on {
            Level::Low
        } else {
            Level::High
        }
    } else {
        if on {
            Level::High
        } else {
            Level::Low
        }
    }
}

impl Wiring {
    /// Polarity of the relay.
    pub open spec fn relay_polarity(self) -> PolarityConfig {
        match self {
            Wiring::RelayOnly { relay } => relay,
            Wiring::RelayAndPump { relay, .. } => relay,
        }
    }

    /// Polarity of the pump output, where there is one.
    pub open spec fn pump_polarity(self) -> Option<PolarityConfig> {
        match self {
            Wiring::RelayOnly { .. } => None,
            Wiring::RelayAndPump { pump, .. } => Some(pump),
        }
    }

    /// The write that puts the relay into the logical state `on`.
    pub open spec fn relay_write(self, on: bool) -> PinWrite {
        PinWrite { output: Output::Relay, level: level_for(on, self.relay_polarity().active_low) }
    }

    /// The write that puts the pump output into the logical state `on`;
    /// none where the relay alone gates the pump.
    pub open spec fn pump_write(self, on: bool) -> Option<PinWrite> {
        match self.pump_polarity() {
            Some(pump) => Some(
                PinWrite { output: Output::Pump, level: level_for(on, pump.active_low) },
            ),
            None => None,
        }
    }

    /// Whether the pump has an output of its own.
    pub fn has_pump(&self) -> (yes: bool)
        ensures
            yes == self.pump_polarity() is Some,
    {
        match *self {
            Wiring::RelayOnly { .. } => false,
            Wiring::RelayAndPump { .. } => true,
        }
    }

    /// The write that switches the relay on or off.
    pub fn set_relay(&self, on: bool) -> (write: PinWrite)
        ensures
            write == self.relay_write(on),
    {
        let active_low: bool = match *self {
            Wiring::RelayOnly { relay } => relay.active_low,
            Wiring::RelayAndPump { relay, .. } => relay.active_low,
        };
        PinWrite { output: Output::Relay, level: set_with_polarity(on, active_low) }
    }

    /// The write that switches the pump output on or off, where there is
    /// one.
    pub fn set_pump(&self, on: bool) -> (write: Option<PinWrite>)
        ensures
            write == self.pump_write(on),
    {
        match *self {
            Wiring::RelayOnly { .. } => None,
            Wiring::RelayAndPump { pump, .. } => Some(
                PinWrite { output: Output::Pump, level: set_with_polarity(on, pump.active_low) },
            ),
        }
    }
}

/// What to bring the hardware up with: the bus at the requested rate, at
/// least one hertz, and every actuator at the level that switches it off,
/// so that a restart never leaves the pump running.
pub fn init_hw(wiring: &Wiring, i2c_hz: u32) -> (init: HwInit)
    ensures
        init.i2c_baud_hz == if i2c_hz == 0 { 1u32 } else { i2c_hz },
        init.relay == wiring.relay_write(false),
        init.pump == wiring.pump_write(false),
{
    let i2c_baud_hz: u32 = if i2c_hz < 1 {
        1
    } else {
        i2c_hz
    };
    HwInit { i2c_baud_hz, relay: wiring.set_relay(false), pump: wiring.set_pump(false) }
}

/// Switching an active-low output on drives its pin low and switching an
/// active-high output on drives it high; switching off drives the other
/// level. This holds of the relay and of the pump output, each by its own
/// polarity alone.
pub proof fn law_polarity(relay: PolarityConfig, pump: PolarityConfig, other: PolarityConfig)
    ensures
        level_for(true, true) == Level::Low,
        level_for(true, false) == Level::High,
        level_for(false, true) == Level::High,
        level_for(false, false) == Level::Low,
        forall|on: bool|
            (Wiring::RelayAndPump { relay, pump }).relay_write(on) == (PinWrite {
                output: Output::Relay,
                level: level_for(on, relay.active_low),
            }),
        forall|on: bool|
            (Wiring::RelayOnly { relay }).relay_write(on) == (PinWrite {
                output: Output::Relay,
                level: level_for(on, relay.active_low),
            }),
        forall|on: bool|
            (Wiring::RelayAndPump { relay, pump }).pump_write(on) == Some(
                PinWrite { output: Output::Pump, level: level_for(on, pump.active_low) },
            ),
        forall|on: bool|
            (Wiring::RelayAndPump { relay, pump }).relay_write(on) == (Wiring::RelayAndPump {
                relay,
                pump: other,
            }).relay_write(on),
        forall|on: bool|
            (Wiring::RelayAndPump { relay, pump }).pump_write(on) == (Wiring::RelayAndPump {
                relay: other,
                pump,
            }).pump_write(on),
{
}

} // verus!
