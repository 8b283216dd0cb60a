//! Fan control for the Argon ONE M.2 case: bounded values for temperature,
//! fan speed and update interval, a checked configuration, the table that
//! maps a temperature to a fan speed, and the scheduler that says when the
//! fan speed is due for an update. Everything here is verified with Verus;
//! reading the sensor and driving the fan are left to the program around it.

use vstd::prelude::*;

pub mod binary32;
pub mod clock;
pub mod config;
pub mod degrees;
pub mod fan_speed;
pub mod fan_speed_map;
pub mod i2c;
pub mod interpolation;
pub mod interval;
pub mod scheduler;
pub mod shutdown;
pub mod text;

pub use config::{Config, ConfigCheckError, Settings, CONFIG_SYS_PATH};
pub use degrees::DegreesC;
pub use fan_speed::{FanSpeed, ParseFanSpeedError};
pub use fan_speed_map::{FanCurve, FanSpeedMap};
pub use i2c::{I2cAddress, I2cBus, I2C_BUS, I2C_FAN_CTRLR_ADDR};
pub use interval::{ParseUpdateIntervalSecondsError, UpdateIntervalSeconds};
pub use scheduler::{Schedule, Scheduler, Tick};
pub use shutdown::{keeps_running, ShutdownAction};

verus! {

/// The device through which the firmware is asked for the temperature,
/// unless another path is given.
pub const VCIO_DEV: &'static str = "/dev/vcio";

} // verus!
