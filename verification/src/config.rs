//! Build-time settings, the configuration made of them, and the reading
//! record that the control loop publishes.

use vstd::prelude::*;
use crate::control::ControlCmd;
use crate::hw::{PolarityConfig, Wiring};
use crate::policy::AutoPolicy;
use crate::sensor::Temperature;

verus! {

/// Clock rate of the sensor bus in hertz.
pub const I2C_HZ: u32 = 400_000;

/// Bus address of the soil sensor.
pub const ADDR: u8 = 0x36;

/// The relay is on when its pin is low.
pub const RELAY_ACTIVE_LOW: bool = true;

/// The pump output is on when its pin is high.
pub const PUMP_ACTIVE_LOW: bool = false;

/// Length of a manual activation in seconds.
pub const MANUAL_PUMP_SECS: u64 = 5;

/// Whether moisture samples may start the pump.
pub const AUTO_PUMP_ENABLE: bool = true;

/// Threshold of the simple policy: water at or below it.
pub const AUTO_MOISTURE_THRESHOLD: u16 = 670;

/// Low threshold of the hysteresis policy: water at or below it.
pub const AUTO_MOISTURE_LOW: u16 = 750;

/// High threshold of the hysteresis policy: re-arm at or above it.
pub const AUTO_MOISTURE_HIGH: u16 = 850;

/// Rest between two automatic activations in seconds.
pub const AUTO_COOLDOWN_SECS: u64 = 300;

/// Length of an automatic activation in seconds.
pub const AUTO_PUMP_SECS: u64 = 7;

/// Longest wait for a manual command in one round, in milliseconds.
pub const COMMAND_WAIT_MS: u64 = 50;

/// Shortest time between two sampling rounds in microseconds.
pub const SAMPLE_INTERVAL_US: u64 = 1_000_000;

/// Moisture samples averaged in one sampling round.
pub const MOISTURE_SAMPLES: usize = 3;

/// Sleep at the end of each round in milliseconds.
pub const LOOP_PAUSE_MS: u64 = 10;

/// The latest state of sensor and pump, as the status interface shows it.
#[derive(Clone, Copy, Debug, PartialEq, Eq)]
pub struct Reading {
    /// Latest averaged moisture value.
    pub moisture: u16,
    /// Latest temperature; `None` until one has been read.
    pub temp_c: Option<Temperature>,
    /// Whether an activation is in progress.
    pub pump_on: bool,
    /// Clock reading, in microseconds since boot, at which the latest
    /// activation began, manual or automatic.
    pub last_pump_us: Option<u64>,
}

impl Reading {
    /// The reading before anything has been sampled or activated.
    pub open spec fn initial() -> Reading {
        Reading { moisture: 0, temp_c: None, pump_on: false, last_pump_us: None }
    }

    /// The reading at process start.
    pub fn new() -> (reading: Reading)
        ensures
            reading == Reading::initial(),
    {
        Reading { moisture: 0, temp_c: None, pump_on: false, last_pump_us: None }
    }
}

/// Why a configuration is refused.
#[derive(Clone, Copy, Debug, PartialEq, Eq)]
pub enum ConfigError {
    /// The low threshold of the hysteresis policy is not below the high
    /// one.
    ThresholdsOutOfOrder,
}

/// Everything the control loop is set up with.
#[derive(Clone, Copy, Debug, PartialEq, Eq)]
pub struct Config {
    pub wiring: Wiring,
    /// Whether moisture samples may start the pump.
    pub auto_enabled: bool,
    pub policy: AutoPolicy,
    /// Length of an automatic activation in seconds.
    pub auto_pump_secs: u64,
    /// Length of a manual activation in seconds.
    pub manual_pump_secs: u64,
}

impl Config {
    /// The policy is well formed.
    pub open spec fn wf(&self) -> bool {
        self.policy.wf()
    }

    /// The configuration that the build-time settings describe: relay and
    /// pump output with their polarities, and the hysteresis policy.
    pub open spec fn standard_spec() -> Config {
        Config {
            wiring: Wiring::RelayAndPump {
                relay: PolarityConfig { active_low: RELAY_ACTIVE_LOW },
                pump: PolarityConfig { active_low: PUMP_ACTIVE_LOW },
            },
            auto_enabled: AUTO_PUMP_ENABLE,
            policy: AutoPolicy::Hysteresis {
                low: AUTO_MOISTURE_LOW,
                high: AUTO_MOISTURE_HIGH,
                cooldown_secs: AUTO_COOLDOWN_SECS,
            },
            auto_pump_secs: AUTO_PUMP_SECS,
            manual_pump_secs: MANUAL_PUMP_SECS,
        }
    }

    /// The configuration that the build-time settings describe.
    pub fn standard() -> (config: Config)
        ensures
            config == Config::standard_spec(),
            config.wf(),
    {
        Config {
            wiring: Wiring::RelayAndPump {
                relay: PolarityConfig { active_low: RELAY_ACTIVE_LOW },
                pump: PolarityConfig { active_low: PUMP_ACTIVE_LOW },
            },
            auto_enabled: AUTO_PUMP_ENABLE,
            policy: AutoPolicy::Hysteresis {
                low: AUTO_MOISTURE_LOW,
                high: AUTO_MOISTURE_HIGH,
                cooldown_secs: AUTO_COOLDOWN_SECS,
            },
            auto_pump_secs: AUTO_PUMP_SECS,
            manual_pump_secs: MANUAL_PUMP_SECS,
        }
    }

    /// Accepts a configuration whose policy is well formed, and refuses
    /// any other.
    pub fn validate(&self) -> (r: Result<(), ConfigError>)
        ensures
            self.wf() ==> r == Ok::<(), ConfigError>(()),
            !self.wf() ==> r == Err::<(), ConfigError>(ConfigError::ThresholdsOutOfOrder),
    {
        if self.policy.is_valid() {
            Ok(())
        } else {
            Err(ConfigError::ThresholdsOutOfOrder)
        }
    }

    /// The command that the manual trigger of the status interface sends.
    pub fn manual_command(&self) -> (command: ControlCmd)
        ensures
            command == ControlCmd::ManualPump(self.manual_pump_secs),
    {
        ControlCmd::ManualPump(self.manual_pump_secs)
    }
}

} // verus!
