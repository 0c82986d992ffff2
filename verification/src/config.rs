//! Declarative configuration of buses and sensors.
//!
//! Two files drive the registry: a bus list (id, type, path) and a sensor
//! list (id, driver, bus, address, optional frequency). The file reading
//! and parsing live at the unverified edge; this module holds the parsed
//! shapes and the rules on their values.

use vstd::prelude::*;
use crate::strutil;
use crate::errors::ConfigError;

verus! {

/// The transport class of a bus.
#[derive(Debug, Clone, Copy, PartialEq, Eq, Structural)]
pub enum BusType {
    I2C,
    Serial,
}

impl BusType {
    /// Parse a bus-type word, ignoring ASCII case: `i2c` and `serial` are
    /// the known types; anything else is unknown.
    pub fn from_str(s: &str) -> (r: Option<BusType>)
        ensures
            r == Some(BusType::I2C) <==> strutil::lower_scalars(s@) == strutil::lower_scalars(
                "i2c"@,
            ),
            r == Some(BusType::Serial) <==> strutil::lower_scalars(s@) == strutil::lower_scalars(
                "serial"@,
            ),
            r is None <==> {
                &&& strutil::lower_scalars(s@) != strutil::lower_scalars("i2c"@)
                &&& strutil::lower_scalars(s@) != strutil::lower_scalars("serial"@)
            },
    {
        proof {
            reveal_strlit("i2c");
            reveal_strlit("serial");
            assert(strutil::lower_scalars("i2c"@).len() == 3);
            assert(strutil::lower_scalars("serial"@).len() == 6);
        }
        if strutil::eq_ignore_ascii_case(s, "i2c") {
            Some(BusType::I2C)
        } else if strutil::eq_ignore_ascii_case(s, "serial") {
            Some(BusType::Serial)
        } else {
            None
        }
    }
}

/// One bus entry of the bus configuration.
#[derive(Debug, Clone)]
pub struct BusEntry {
    /// Name under which sensors refer to this bus.
    pub id: String,
    /// Transport class word, matched by `BusType::from_str`.
    pub bus_type: String,
    /// Device path; the word `auto` on a serial bus requests auto-detection.
    pub path: String,
}

/// The parsed bus configuration: a list of bus entries.
#[derive(Debug, Clone)]
pub struct BusConfig {
    pub buses: Vec<BusEntry>,
}

/// One sensor entry of the sensor configuration.
#[derive(Debug, Clone)]
pub struct SensorEntry {
    /// Sensor identifier; also keys the published measurements.
    pub id: String,
    /// Driver name resolved by the registry.
    pub driver: String,
    /// Id of the bus the sensor is attached to.
    pub bus: String,
    /// Bus address; meaningful only for register-bus drivers.
    pub address: u8,
    /// Polling rate in Hz; absent means the default rate.
    pub frequency: Option<u32>,
}

/// The parsed sensor configuration: a list of sensor entries.
#[derive(Debug, Clone)]
pub struct SensorConfig {
    pub sensors: Vec<SensorEntry>,
}

/// The polling rate used when a sensor entry names none, in Hz.
pub const DEFAULT_FREQUENCY_HZ: u32 = 100;

/// The rate of a sensor entry in Hz as a specification value.
pub open spec fn spec_effective_frequency(frequency: Option<u32>) -> u32 {
    match frequency {
        Some(f) => f,
        None => DEFAULT_FREQUENCY_HZ,
    }
}

impl SensorEntry {
    /// The polling rate of this sensor: its configured frequency, or the
    /// default when none is configured.
    pub fn effective_frequency(&self) -> (r: u32)
        ensures
            r == spec_effective_frequency(self.frequency),
    {
        match self.frequency {
            Some(f) => f,
            None => DEFAULT_FREQUENCY_HZ,
        }
    }

    /// Reject a sensor entry whose configured frequency is zero: such an
    /// entry has no polling period.
    pub fn validate(&self) -> (r: Result<(), ConfigError>)
        ensures
            r is Ok <==> spec_effective_frequency(self.frequency) > 0,
            r matches Err(e) ==> e matches ConfigError::InvalidValue { field, reason: _ }
                && field@ == "frequency"@,
    {
        if self.effective_frequency() == 0 {
            Err(ConfigError::InvalidValue {
                field: String::from_str("frequency"),
                reason: String::from_str("a polling rate of 0 Hz has no period"),
            })
        } else {
            Ok(())
        }
    }
}

} // verus!
