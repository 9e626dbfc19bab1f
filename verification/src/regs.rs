//! Register map, mode patterns, and timing constants of the AK09915.

use vstd::prelude::*;

verus! {

/// Fixed 7-bit bus address of the device.
pub const AK09915_ADDRESS: u8 = 0x0C;

/// Device ID register 1.
pub const AK09915_REG_WIA1: u8 = 0x00;

/// Device ID register 2.
pub const AK09915_REG_WIA2: u8 = 0x01;

/// Data status register 1; bit 0 is the data-ready flag.
pub const AK09915_REG_ST1: u8 = 0x10;

/// X-axis magnetic data, low byte; five more data bytes follow.
pub const AK09915_REG_HXL: u8 = 0x11;

/// X-axis magnetic data, high byte.
pub const AK09915_REG_HXH: u8 = 0x12;

/// Y-axis magnetic data, low byte.
pub const AK09915_REG_HYL: u8 = 0x13;

/// Y-axis magnetic data, high byte.
pub const AK09915_REG_HYH: u8 = 0x14;

/// Z-axis magnetic data, low byte.
pub const AK09915_REG_HZL: u8 = 0x15;

/// Z-axis magnetic data, high byte.
pub const AK09915_REG_HZH: u8 = 0x16;

/// Temperature sensor data register.
pub const AK09915_REG_TMPS: u8 = 0x17;

/// Data status register 2.
pub const AK09915_REG_ST2: u8 = 0x18;

/// Control register 2: operating mode.
pub const AK09915_REG_CNTL2: u8 = 0x31;

/// Control register 3: soft reset.
pub const AK09915_REG_CNTL3: u8 = 0x32;

/// Self test register 1.
pub const AK09915_REG_TS1: u8 = 0x33;

/// Self test register 2.
pub const AK09915_REG_TS2: u8 = 0x34;

/// I2C disable register.
pub const AK09915_REG_I2CDIS: u8 = 0x3A;

/// Mode pattern: power-down.
pub const AK09915_MODE_POWERDOWN: u8 = 0x00;

/// Mode pattern: single measurement.
pub const AK09915_MODE_SINGLE: u8 = 0x01;

/// Mode pattern: continuous measurement at 10 Hz.
pub const AK09915_MODE_CONTINUOUS_10HZ: u8 = 0x02;

/// Mode pattern: continuous measurement at 20 Hz.
pub const AK09915_MODE_CONTINUOUS_20HZ: u8 = 0x04;

/// Mode pattern: continuous measurement at 50 Hz.
pub const AK09915_MODE_CONTINUOUS_50HZ: u8 = 0x06;

/// Mode pattern: continuous measurement at 100 Hz.
pub const AK09915_MODE_CONTINUOUS_100HZ: u8 = 0x08;

/// Mode pattern: continuous measurement at 200 Hz.
pub const AK09915_MODE_CONTINUOUS_200HZ: u8 = 0x0A;

/// Mode pattern: continuous measurement at 1 Hz.
pub const AK09915_MODE_CONTINUOUS_1HZ: u8 = 0x0C;

/// Mode pattern: self test.
pub const AK09915_MODE_SELFTEST: u8 = 0x10;

/// Minimum settling time, in microseconds, that the chip requires after
/// power-down is commanded before any other mode may be set.
pub const MODE_SETTLE_US: u32 = 100;

/// Interval, in microseconds, between consecutive readiness polls.
pub const POLL_INTERVAL_US: u32 = 100;

/// Number of readiness polls before `is_data_ready` gives up.
pub const POLL_RETRIES: u32 = 10;

/// Operating modes of the magnetometer, each mapped to one fixed
/// control-register bit pattern.
#[derive(Clone, Copy, PartialEq, Eq, Structural)]
pub enum Mode {
    PowerDown,
    SingleMeasurement,
    ContMeasurement10,
    ContMeasurement20,
    ContMeasurement50,
    ContMeasurement100,
    ContMeasurement200,
    ContMeasurement1,
    SelfTest,
}

impl Mode {
    /// Control-register bit pattern written for this mode.
    pub open spec fn pattern(self) -> u8 {
        match self {
            Mode::PowerDown => AK09915_MODE_POWERDOWN,
            Mode::SingleMeasurement => AK09915_MODE_SINGLE,
            Mode::ContMeasurement10 => AK09915_MODE_CONTINUOUS_10HZ,
            Mode::ContMeasurement20 => AK09915_MODE_CONTINUOUS_20HZ,
            Mode::ContMeasurement50 => AK09915_MODE_CONTINUOUS_50HZ,
            Mode::ContMeasurement100 => AK09915_MODE_CONTINUOUS_100HZ,
            Mode::ContMeasurement200 => AK09915_MODE_CONTINUOUS_200HZ,
            Mode::ContMeasurement1 => AK09915_MODE_CONTINUOUS_1HZ,
            Mode::SelfTest => AK09915_MODE_SELFTEST,
        }
    }

    /// Returns the control-register bit pattern for this mode.
    pub fn bits(self) -> (r: u8)
        ensures
            r == self.pattern(),
    {
        match self {
            Mode::PowerDown => AK09915_MODE_POWERDOWN,
            Mode::SingleMeasurement => AK09915_MODE_SINGLE,
            Mode::ContMeasurement10 => AK09915_MODE_CONTINUOUS_10HZ,
            Mode::ContMeasurement20 => AK09915_MODE_CONTINUOUS_20HZ,
            Mode::ContMeasurement50 => AK09915_MODE_CONTINUOUS_50HZ,
            Mode::ContMeasurement100 => AK09915_MODE_CONTINUOUS_100HZ,
            Mode::ContMeasurement200 => AK09915_MODE_CONTINUOUS_200HZ,
            Mode::ContMeasurement1 => AK09915_MODE_CONTINUOUS_1HZ,
            Mode::SelfTest => AK09915_MODE_SELFTEST,
        }
    }
}

} // verus!
