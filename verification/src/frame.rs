//! The common internal representation produced by every driver.
//!
//! A frame carries whichever subset of quantities the underlying device
//! reports. As everywhere in this crate, quantities are integers in
//! millionths of the unit named at the field.

use vstd::prelude::*;

verus! {

/// Three components of a vector quantity, in micro-units.
#[derive(Debug, Clone, Copy, PartialEq, Eq, Structural)]
pub struct Triple {
    pub x: i64,
    pub y: i64,
    pub z: i64,
}

/// Four components of a quaternion (w, x, y, z), in micro-units.
#[derive(Debug, Clone, Copy, PartialEq, Eq, Structural)]
pub struct Quad {
    pub w: i64,
    pub x: i64,
    pub y: i64,
    pub z: i64,
}

/// The normalised measurement record produced by one driver read.
#[derive(Debug, Clone, Copy, PartialEq, Eq)]
pub struct SensorDataFrame {
    /// Body-frame acceleration in micro-m/s².
    pub accel: Option<Triple>,
    /// Body-frame angular velocity in micro-rad/s.
    pub gyro: Option<Triple>,
    /// Magnetic field in micro-µT.
    pub mag: Option<Triple>,
    /// Temperature in micro-°C.
    pub temp: Option<i64>,
    /// Static atmospheric pressure in micro-Pa.
    pub pressure_static: Option<i64>,
    /// Dynamic (pitot) pressure in micro-Pa.
    pub pressure_pitot: Option<i64>,
    /// Attitude quaternion (w, x, y, z), scaled by one million.
    pub quaternion: Option<Quad>,
    /// Body angular velocity from the attitude source, in micro-rad/s.
    pub angular_velocity_body: Option<Triple>,
}

impl SensorDataFrame {
    /// The frame that reports nothing.
    pub open spec fn spec_empty() -> SensorDataFrame {
        SensorDataFrame {
            accel: None,
            gyro: None,
            mag: None,
            temp: None,
            pressure_static: None,
            pressure_pitot: None,
            quaternion: None,
            angular_velocity_body: None,
        }
    }

    /// A frame with every field absent.
    pub fn empty() -> (r: SensorDataFrame)
        ensures
            r == SensorDataFrame::spec_empty(),
    {
        SensorDataFrame {
            accel: None,
            gyro: None,
            mag: None,
            temp: None,
            pressure_static: None,
            pressure_pitot: None,
            quaternion: None,
            angular_velocity_body: None,
        }
    }

    /// The pressure a barometer message reports: the static pressure when
    /// present, otherwise the pitot pressure.
    pub open spec fn spec_chosen_pressure(self) -> Option<i64> {
        match self.pressure_static {
            Some(p) => Some(p),
            None => self.pressure_pitot,
        }
    }
}

impl Default for SensorDataFrame {
    /// The frame that reports nothing.
    fn default() -> (r: SensorDataFrame)
        ensures
            r == SensorDataFrame::spec_empty(),
    {
        SensorDataFrame::empty()
    }
}

} // verus!
