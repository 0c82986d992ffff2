//! The register-bus driver set and the push-fed telemetry sensors.
//!
//! Every register driver follows one shape: verify the chip-identity
//! register, configure the chip, then read raw counts and scale them to
//! micro-unit SI values with the chip's own byte order. The decisions —
//! identity acceptance, byte assembly, scaling, error shapes — are
//! verified; the bus transactions run behind the trusted bus handle, and
//! the waits a datasheet demands between configuration steps are taken
//! by the caller between the init phases.

use vstd::prelude::*;
use crate::bus_i2c::{BusOp, I2CBus};
use crate::errors::{I2CError, SensorError};
use crate::fixed::{scale, spec_scale};
use crate::frame::{SensorDataFrame, Triple};
use crate::mavlink::MavlinkSensorType;
use crate::scheduler::SensorTaskState;
use crate::strutil;

verus! {

/// The i16 encoded little-endian in two bytes.
pub open spec fn spec_i16_le(lo: u8, hi: u8) -> i16 {
    (((hi as u16) << 8) | (lo as u16)) as i16
}

/// The i16 encoded big-endian in two bytes.
pub open spec fn spec_i16_be(hi: u8, lo: u8) -> i16 {
    (((hi as u16) << 8) | (lo as u16)) as i16
}

/// Assemble a little-endian i16 from its low and high byte.
pub fn i16_le(lo: u8, hi: u8) -> (r: i16)
    ensures
        r == spec_i16_le(lo, hi),
{
    #[verifier::truncate] ((((hi as u16) << 8u16) | (lo as u16)) as i16)
}

/// Assemble a big-endian i16 from its high and low byte.
pub fn i16_be(hi: u8, lo: u8) -> (r: i16)
    ensures
        r == spec_i16_be(hi, lo),
{
    #[verifier::truncate] ((((hi as u16) << 8u16) | (lo as u16)) as i16)
}

/// True when an error names this sensor as the one that failed, with
/// `expected` as the identity its chip should have reported, or is a
/// plain transport error.
pub open spec fn spec_init_error_shape(e: SensorError, id: Seq<char>, expected: u8) -> bool {
    match e {
        SensorError::WrongChipId { sensor, expected: x, actual: _ } => sensor@ == id && x
            == expected,
        SensorError::InitError { sensor, reason: _ } => sensor@ == id,
        SensorError::I2cError(_) => true,
        _ => false,
    }
}

/// True when an error is this sensor's read error: every transport
/// failure of a read is wrapped into `ReadError` under the sensor's id.
pub open spec fn spec_read_error_shape(e: SensorError, id: Seq<char>) -> bool {
    e matches SensorError::ReadError { sensor, reason: _ } && sensor@ == id
}

/// Wrap a transport failure of one read into the sensor's read error.
fn read_failure(id: &String, e: I2CError) -> (r: SensorError)
    ensures
        r matches SensorError::ReadError { sensor, reason } && sensor@ == id@ && reason@
            == e.detail@,
{
    SensorError::ReadError { sensor: id.clone(), reason: e.detail }
}

/// Wrap a transport failure of one configuration write into the sensor's
/// init error.
fn init_failure(id: &String, e: I2CError) -> (r: SensorError)
    ensures
        r matches SensorError::InitError { sensor, reason } && sensor@ == id@ && reason@
            == e.detail@,
{
    SensorError::InitError { sensor: id.clone(), reason: e.detail }
}

/// The chip-identity register common to the two ST chips.
pub const LSM6DSL_WHO_AM_I: u8 = 0x0F;

/// The accelerometer control register of the LSM6DSL.
pub const LSM6DSL_CTRL1_XL: u8 = 0x10;

/// The gyroscope control register of the LSM6DSL.
pub const LSM6DSL_CTRL2_G: u8 = 0x11;

/// The first temperature output register of the LSM6DSL.
pub const LSM6DSL_OUT_TEMP_L: u8 = 0x20;

/// The first gyroscope output register of the LSM6DSL.
pub const LSM6DSL_OUTX_L_G: u8 = 0x22;

/// The first accelerometer output register of the LSM6DSL.
pub const LSM6DSL_OUTX_L_XL: u8 = 0x28;

/// The identity the LSM6DSL reports.
pub const LSM6DSL_CHIP_ID: u8 = 0x6A;

/// Micro-m/s² per LSM6DSL accelerometer count at ±2 g: 0.061 milli-g,
/// that is 598.41 micro-m/s², per count.
pub const LSM6DSL_ACCEL_NUM: i64 = 59841;

/// Denominator of the LSM6DSL accelerometer scale.
pub const LSM6DSL_ACCEL_DEN: i64 = 100;

/// Micro-rad/s per LSM6DSL gyroscope count at ±250 dps: 8.75 milli-deg/s
/// per count, converted with a fixed rational approximation of pi/180.
pub const LSM6DSL_GYRO_NUM: i64 = 152716309;

/// Denominator of the LSM6DSL gyroscope scale.
pub const LSM6DSL_GYRO_DEN: i64 = 1000000;

/// Micro-°C per LSM6DSL temperature count: 1/256 °C per count.
pub const LSM6DSL_TEMP_NUM: i64 = 1000000;

/// Denominator of the LSM6DSL temperature scale.
pub const LSM6DSL_TEMP_DEN: i64 = 256;

/// The LSM6DSL temperature offset in micro-°C.
pub const LSM6DSL_TEMP_OFFSET: i64 = 25000000;

/// The frame one LSM6DSL read yields, from its three raw output blocks
/// in the chip's little-endian byte order.
pub open spec fn spec_lsm6dsl_frame(accel: Seq<u8>, gyro: Seq<u8>, temp: Seq<u8>) -> SensorDataFrame
    recommends
        accel.len() == 6,
        gyro.len() == 6,
        temp.len() == 2,
{
    SensorDataFrame {
        accel: Some(
            Triple {
                x: spec_scale(
                    spec_i16_le(accel[0], accel[1]) as int,
                    LSM6DSL_ACCEL_NUM as int,
                    LSM6DSL_ACCEL_DEN as int,
                ) as i64,
                y: spec_scale(
                    spec_i16_le(accel[2], accel[3]) as int,
                    LSM6DSL_ACCEL_NUM as int,
                    LSM6DSL_ACCEL_DEN as int,
                ) as i64,
                z: spec_scale(
                    spec_i16_le(accel[4], accel[5]) as int,
                    LSM6DSL_ACCEL_NUM as int,
                    LSM6DSL_ACCEL_DEN as int,
                ) as i64,
            },
        ),
        gyro: Some(
            Triple {
                x: spec_scale(
                    spec_i16_le(gyro[0], gyro[1]) as int,
                    LSM6DSL_GYRO_NUM as int,
                    LSM6DSL_GYRO_DEN as int,
                ) as i64,
                y: spec_scale(
                    spec_i16_le(gyro[2], gyro[3]) as int,
                    LSM6DSL_GYRO_NUM as int,
                    LSM6DSL_GYRO_DEN as int,
                ) as i64,
                z: spec_scale(
                    spec_i16_le(gyro[4], gyro[5]) as int,
                    LSM6DSL_GYRO_NUM as int,
                    LSM6DSL_GYRO_DEN as int,
                ) as i64,
            },
        ),
        mag: None,
        temp: Some(
            (spec_scale(
                spec_i16_le(temp[0], temp[1]) as int,
                LSM6DSL_TEMP_NUM as int,
                LSM6DSL_TEMP_DEN as int,
            ) + LSM6DSL_TEMP_OFFSET) as i64,
        ),
        pressure_static: None,
        pressure_pitot: None,
        quaternion: None,
        angular_velocity_body: None,
    }
}

/// A six-axis inertial unit on the register bus.
#[derive(Debug, Clone, PartialEq, Eq)]
pub struct Lsm6dsl {
    /// Sensor id.
    pub id: String,
    /// Bus address of the chip.
    pub address: u8,
    /// Id of the bus the chip is attached to.
    pub bus_id: String,
}

impl Lsm6dsl {
    /// A driver instance for the chip at `address` on the named bus.
    pub fn new(id: String, address: u8, bus_id: String) -> (r: Lsm6dsl)
        ensures
            r.id@ == id@,
            r.address == address,
            r.bus_id@ == bus_id@,
    {
        Lsm6dsl { id, address, bus_id }
    }

    /// The sensor id.
    pub fn id(&self) -> (r: &str)
        ensures
            r@ == self.id@,
    {
        self.id.as_str()
    }

    /// The id of the bus the sensor is attached to.
    pub fn bus(&self) -> (r: &str)
        ensures
            r@ == self.bus_id@,
    {
        self.bus_id.as_str()
    }

    /// Accept or reject the chip-identity byte: exactly the expected
    /// identity passes, and a mismatch reports both values.
    pub fn identify(&self, actual: u8) -> (r: Result<(), SensorError>)
        ensures
            r is Ok <==> actual == LSM6DSL_CHIP_ID,
            r matches Err(e) ==> e matches SensorError::WrongChipId {
                sensor,
                expected,
                actual: a,
            } && sensor@ == self.id@ && expected == LSM6DSL_CHIP_ID && a == actual,
    {
        if actual != LSM6DSL_CHIP_ID {
            Err(
                SensorError::WrongChipId {
                    sensor: self.id.clone(),
                    expected: LSM6DSL_CHIP_ID,
                    actual,
                },
            )
        } else {
            Ok(())
        }
    }

    /// Verify the chip identity, then configure the accelerometer and
    /// the gyroscope at 104 Hz in their lowest range. Success means the
    /// bus saw exactly the identity read (answering the expected
    /// identity) followed by the two configuration writes, in order; a
    /// wrong identity means it saw the identity read alone.
    pub fn init(&mut self, bus: &mut I2CBus) -> (r: Result<(), SensorError>)
        ensures
            r matches Err(e) ==> spec_init_error_shape(e, final(self).id@, LSM6DSL_CHIP_ID),
            *final(self) == *old(self),
            r is Ok ==> exists|who: Seq<u8>|
                {
                    &&& who.len() == 1
                    &&& who[0] == LSM6DSL_CHIP_ID
                    &&& final(bus).log() == old(bus).log() + seq![
                        BusOp::Read {
                            address: old(self).address,
                            reg: LSM6DSL_WHO_AM_I,
                            len: 1,
                            data: who,
                        },
                        BusOp::Write {
                            address: old(self).address,
                            reg: LSM6DSL_CTRL1_XL,
                            value: 0b01000000,
                        },
                        BusOp::Write {
                            address: old(self).address,
                            reg: LSM6DSL_CTRL2_G,
                            value: 0b01000000,
                        },
                    ]
                },
            r matches Err(SensorError::WrongChipId { sensor: _, expected: _, actual }) ==> exists|
                who: Seq<u8>,
            |
                {
                    &&& who.len() == 1
                    &&& who[0] == actual
                    &&& final(bus).log() == old(bus).log() + seq![
                        BusOp::Read {
                            address: old(self).address,
                            reg: LSM6DSL_WHO_AM_I,
                            len: 1,
                            data: who,
                        },
                    ]
                },
    {
        let who_bytes = match bus.read_bytes(self.address, LSM6DSL_WHO_AM_I, 1) {
            Ok(v) => v,
            Err(e) => {
                return Err(SensorError::I2cError(e));
            },
        };
        if let Err(e) = self.identify(who_bytes[0]) {
            proof {
                assert(final(bus).log() =~= old(bus).log() + seq![
                    BusOp::Read {
                        address: old(self).address,
                        reg: LSM6DSL_WHO_AM_I,
                        len: 1,
                        data: who_bytes@,
                    },
                ]);
            }
            return Err(e);
        }
        if let Err(e) = bus.write_byte(self.address, LSM6DSL_CTRL1_XL, 0b01000000) {
            return Err(init_failure(&self.id, e));
        }
        if let Err(e) = bus.write_byte(self.address, LSM6DSL_CTRL2_G, 0b01000000) {
            return Err(init_failure(&self.id, e));
        }
        proof {
            assert(final(bus).log() =~= old(bus).log() + seq![
                BusOp::Read {
                    address: old(self).address,
                    reg: LSM6DSL_WHO_AM_I,
                    len: 1,
                    data: who_bytes@,
                },
                BusOp::Write {
                    address: old(self).address,
                    reg: LSM6DSL_CTRL1_XL,
                    value: 0b01000000,
                },
                BusOp::Write {
                    address: old(self).address,
                    reg: LSM6DSL_CTRL2_G,
                    value: 0b01000000,
                },
            ]);
        }
        Ok(())
    }

    /// The frame one read of this chip yields, from the three raw output
    /// blocks in the chip's little-endian byte order.
    pub fn frame_from_readings(&self, accel: &[u8], gyro: &[u8], temp: &[u8]) -> (r:
        SensorDataFrame)
        requires
            accel@.len() == 6,
            gyro@.len() == 6,
            temp@.len() == 2,
        ensures
            r == spec_lsm6dsl_frame(accel@, gyro@, temp@),
    {
        let mut r = SensorDataFrame::empty();
        r.accel = Some(
            Triple {
                x: scale(i16_le(accel[0], accel[1]) as i64, LSM6DSL_ACCEL_NUM, LSM6DSL_ACCEL_DEN),
                y: scale(i16_le(accel[2], accel[3]) as i64, LSM6DSL_ACCEL_NUM, LSM6DSL_ACCEL_DEN),
                z: scale(i16_le(accel[4], accel[5]) as i64, LSM6DSL_ACCEL_NUM, LSM6DSL_ACCEL_DEN),
            },
        );
        r.gyro = Some(
            Triple {
                x: scale(i16_le(gyro[0], gyro[1]) as i64, LSM6DSL_GYRO_NUM, LSM6DSL_GYRO_DEN),
                y: scale(i16_le(gyro[2], gyro[3]) as i64, LSM6DSL_GYRO_NUM, LSM6DSL_GYRO_DEN),
                z: scale(i16_le(gyro[4], gyro[5]) as i64, LSM6DSL_GYRO_NUM, LSM6DSL_GYRO_DEN),
            },
        );
        r.temp = Some(
            scale(i16_le(temp[0], temp[1]) as i64, LSM6DSL_TEMP_NUM, LSM6DSL_TEMP_DEN)
                + LSM6DSL_TEMP_OFFSET,
        );
        r
    }

    /// Read acceleration, angular velocity and temperature: three block
    /// reads, assembled and scaled by `frame_from_readings`. Success
    /// means the bus saw exactly those three reads, in order, and the
    /// frame holds exactly their bytes scaled; every failure is this
    /// sensor's read error.
    pub fn read(&self, bus: &mut I2CBus) -> (r: Result<SensorDataFrame, SensorError>)
        ensures
            r matches Err(e) ==> spec_read_error_shape(e, self.id@),
            r matches Ok(f) ==> exists|accel: Seq<u8>, gyro: Seq<u8>, temp: Seq<u8>|
                {
                    &&& accel.len() == 6
                    &&& gyro.len() == 6
                    &&& temp.len() == 2
                    &&& final(bus).log() == old(bus).log() + seq![
                        BusOp::Read {
                            address: self.address,
                            reg: LSM6DSL_OUTX_L_XL,
                            len: 6,
                            data: accel,
                        },
                        BusOp::Read {
                            address: self.address,
                            reg: LSM6DSL_OUTX_L_G,
                            len: 6,
                            data: gyro,
                        },
                        BusOp::Read {
                            address: self.address,
                            reg: LSM6DSL_OUT_TEMP_L,
                            len: 2,
                            data: temp,
                        },
                    ]
                    &&& f == spec_lsm6dsl_frame(accel, gyro, temp)
                },
    {
        let accel = match bus.read_bytes(self.address, LSM6DSL_OUTX_L_XL, 6) {
            Ok(v) => v,
            Err(e) => {
                return Err(read_failure(&self.id, e));
            },
        };
        let gyro = match bus.read_bytes(self.address, LSM6DSL_OUTX_L_G, 6) {
            Ok(v) => v,
            Err(e) => {
                return Err(read_failure(&self.id, e));
            },
        };
        let temp = match bus.read_bytes(self.address, LSM6DSL_OUT_TEMP_L, 2) {
            Ok(v) => v,
            Err(e) => {
                return Err(read_failure(&self.id, e));
            },
        };
        let f = self.frame_from_readings(accel.as_slice(), gyro.as_slice(), temp.as_slice());
        proof {
            assert(final(bus).log() =~= old(bus).log() + seq![
                BusOp::Read {
                    address: self.address,
                    reg: LSM6DSL_OUTX_L_XL,
                    len: 6,
                    data: accel@,
                },
                BusOp::Read {
                    address: self.address,
                    reg: LSM6DSL_OUTX_L_G,
                    len: 6,
                    data: gyro@,
                },
                BusOp::Read {
                    address: self.address,
                    reg: LSM6DSL_OUT_TEMP_L,
                    len: 2,
                    data: temp@,
                },
            ]);
        }
        Ok(f)
    }
}

/// The chip-identity register of the LIS3MDL.
pub const LIS3MDL_WHO_AM_I: u8 = 0x0F;

/// The first control register of the LIS3MDL.
pub const LIS3MDL_CTRL_REG1: u8 = 0x20;

/// The second control register of the LIS3MDL.
pub const LIS3MDL_CTRL_REG2: u8 = 0x21;

/// The third control register of the LIS3MDL.
pub const LIS3MDL_CTRL_REG3: u8 = 0x22;

/// The fourth control register of the LIS3MDL.
pub const LIS3MDL_CTRL_REG4: u8 = 0x23;

/// The first field output register of the LIS3MDL.
pub const LIS3MDL_OUT_X_L: u8 = 0x28;

/// The identity the LIS3MDL reports.
pub const LIS3MDL_CHIP_ID: u8 = 0x3D;

/// Numerator of the LIS3MDL field scale at ±4 gauss full scale: the
/// chip reports 6842 counts per gauss, and one gauss is 100 µT, so one
/// count is 100000000/6842 micro-µT.
pub const LIS3MDL_MAG_NUM: i64 = 100000000;

/// Denominator of the LIS3MDL field scale.
pub const LIS3MDL_MAG_DEN: i64 = 6842;

/// The frame one LIS3MDL read yields, from its raw output block in the
/// chip's little-endian byte order.
pub open spec fn spec_lis3mdl_frame(mag: Seq<u8>) -> SensorDataFrame
    recommends
        mag.len() == 6,
{
    SensorDataFrame {
        accel: None,
        gyro: None,
        mag: Some(
            Triple {
                x: spec_scale(
                    spec_i16_le(mag[0], mag[1]) as int,
                    LIS3MDL_MAG_NUM as int,
                    LIS3MDL_MAG_DEN as int,
                ) as i64,
                y: spec_scale(
                    spec_i16_le(mag[2], mag[3]) as int,
                    LIS3MDL_MAG_NUM as int,
                    LIS3MDL_MAG_DEN as int,
                ) as i64,
                z: spec_scale(
                    spec_i16_le(mag[4], mag[5]) as int,
                    LIS3MDL_MAG_NUM as int,
                    LIS3MDL_MAG_DEN as int,
                ) as i64,
            },
        ),
        temp: None,
        pressure_static: None,
        pressure_pitot: None,
        quaternion: None,
        angular_velocity_body: None,
    }
}

/// A three-axis magnetometer on the register bus.
#[derive(Debug, Clone, PartialEq, Eq)]
pub struct Lis3mdl {
    /// Sensor id.
    pub id: String,
    /// Bus address of the chip.
    pub address: u8,
    /// Id of the bus the chip is attached to.
    pub bus_id: String,
}

impl Lis3mdl {
    /// A driver instance for the chip at `address` on the named bus.
    pub fn new(id: String, address: u8, bus_id: String) -> (r: Lis3mdl)
        ensures
            r.id@ == id@,
            r.address == address,
            r.bus_id@ == bus_id@,
    {
        Lis3mdl { id, address, bus_id }
    }

    /// The sensor id.
    pub fn id(&self) -> (r: &str)
        ensures
            r@ == self.id@,
    {
        self.id.as_str()
    }

    /// The id of the bus the sensor is attached to.
    pub fn bus(&self) -> (r: &str)
        ensures
            r@ == self.bus_id@,
    {
        self.bus_id.as_str()
    }

    /// Accept or reject the chip-identity byte.
    pub fn identify(&self, actual: u8) -> (r: Result<(), SensorError>)
        ensures
            r is Ok <==> actual == LIS3MDL_CHIP_ID,
            r matches Err(e) ==> e matches SensorError::WrongChipId {
                sensor,
                expected,
                actual: a,
            } && sensor@ == self.id@ && expected == LIS3MDL_CHIP_ID && a == actual,
    {
        if actual != LIS3MDL_CHIP_ID {
            Err(
                SensorError::WrongChipId {
                    sensor: self.id.clone(),
                    expected: LIS3MDL_CHIP_ID,
                    actual,
                },
            )
        } else {
            Ok(())
        }
    }

    /// Verify the chip identity, then configure the magnetometer: 80 Hz
    /// medium-performance mode at ±4 gauss, continuous conversion.
    /// Success means the bus saw exactly the identity read (answering
    /// the expected identity) followed by the four configuration writes,
    /// in order; a wrong identity means it saw the identity read alone.
    pub fn init(&mut self, bus: &mut I2CBus) -> (r: Result<(), SensorError>)
        ensures
            r matches Err(e) ==> spec_init_error_shape(e, final(self).id@, LIS3MDL_CHIP_ID),
            *final(self) == *old(self),
            r is Ok ==> exists|who: Seq<u8>|
                {
                    &&& who.len() == 1
                    &&& who[0] == LIS3MDL_CHIP_ID
                    &&& final(bus).log() == old(bus).log() + seq![
                        BusOp::Read {
                            address: old(self).address,
                            reg: LIS3MDL_WHO_AM_I,
                            len: 1,
                            data: who,
                        },
                        BusOp::Write {
                            address: old(self).address,
                            reg: LIS3MDL_CTRL_REG1,
                            value: 0b01011100,
                        },
                        BusOp::Write {
                            address: old(self).address,
                            reg: LIS3MDL_CTRL_REG2,
                            value: 0b00000000,
                        },
                        BusOp::Write {
                            address: old(self).address,
                            reg: LIS3MDL_CTRL_REG3,
                            value: 0b00000000,
                        },
                        BusOp::Write {
                            address: old(self).address,
                            reg: LIS3MDL_CTRL_REG4,
                            value: 0b00000100,
                        },
                    ]
                },
            r matches Err(SensorError::WrongChipId { sensor: _, expected: _, actual }) ==> exists|
                who: Seq<u8>,
            |
                {
                    &&& who.len() == 1
                    &&& who[0] == actual
                    &&& final(bus).log() == old(bus).log() + seq![
                        BusOp::Read {
                            address: old(self).address,
                            reg: LIS3MDL_WHO_AM_I,
                            len: 1,
                            data: who,
                        },
                    ]
                },
    {
        let who_bytes = match bus.read_bytes(self.address, LIS3MDL_WHO_AM_I, 1) {
            Ok(v) => v,
            Err(e) => {
                return Err(SensorError::I2cError(e));
            },
        };
        if let Err(e) = self.identify(who_bytes[0]) {
            proof {
                assert(final(bus).log() =~= old(bus).log() + seq![
                    BusOp::Read {
                        address: old(self).address,
                        reg: LIS3MDL_WHO_AM_I,
                        len: 1,
                        data: who_bytes@,
                    },
                ]);
            }
            return Err(e);
        }
        if let Err(e) = bus.write_byte(self.address, LIS3MDL_CTRL_REG1, 0b01011100) {
            return Err(init_failure(&self.id, e));
        }
        if let Err(e) = bus.write_byte(self.address, LIS3MDL_CTRL_REG2, 0b00000000) {
            return Err(init_failure(&self.id, e));
        }
        if let Err(e) = bus.write_byte(self.address, LIS3MDL_CTRL_REG3, 0b00000000) {
            return Err(init_failure(&self.id, e));
        }
        if let Err(e) = bus.write_byte(self.address, LIS3MDL_CTRL_REG4, 0b00000100) {
            return Err(init_failure(&self.id, e));
        }
        proof {
            assert(final(bus).log() =~= old(bus).log() + seq![
                BusOp::Read {
                    address: old(self).address,
                    reg: LIS3MDL_WHO_AM_I,
                    len: 1,
                    data: who_bytes@,
                },
                BusOp::Write {
                    address: old(self).address,
                    reg: LIS3MDL_CTRL_REG1,
                    value: 0b01011100,
                },
                BusOp::Write {
                    address: old(self).address,
                    reg: LIS3MDL_CTRL_REG2,
                    value: 0b00000000,
                },
                BusOp::Write {
                    address: old(self).address,
                    reg: LIS3MDL_CTRL_REG3,
                    value: 0b00000000,
                },
                BusOp::Write {
                    address: old(self).address,
                    reg: LIS3MDL_CTRL_REG4,
                    value: 0b00000100,
                },
            ]);
        }
        Ok(())
    }

    /// The frame one read of this chip yields, from the raw output block
    /// in the chip's little-endian byte order.
    pub fn frame_from_readings(&self, mag: &[u8]) -> (r: SensorDataFrame)
        requires
            mag@.len() == 6,
        ensures
            r == spec_lis3mdl_frame(mag@),
    {
        let mut r = SensorDataFrame::empty();
        r.mag = Some(
            Triple {
                x: scale(i16_le(mag[0], mag[1]) as i64, LIS3MDL_MAG_NUM, LIS3MDL_MAG_DEN),
                y: scale(i16_le(mag[2], mag[3]) as i64, LIS3MDL_MAG_NUM, LIS3MDL_MAG_DEN),
                z: scale(i16_le(mag[4], mag[5]) as i64, LIS3MDL_MAG_NUM, LIS3MDL_MAG_DEN),
            },
        );
        r
    }

    /// Read the magnetic field: one block read, assembled and scaled by
    /// `frame_from_readings`. Success means the bus saw exactly that
    /// read and the frame holds exactly its bytes scaled; every failure
    /// is this sensor's read error.
    pub fn read(&self, bus: &mut I2CBus) -> (r: Result<SensorDataFrame, SensorError>)
        ensures
            r matches Err(e) ==> spec_read_error_shape(e, self.id@),
            r matches Ok(f) ==> exists|mag: Seq<u8>|
                {
                    &&& mag.len() == 6
                    &&& final(bus).log() == old(bus).log() + seq![
                        BusOp::Read {
                            address: self.address,
                            reg: LIS3MDL_OUT_X_L,
                            len: 6,
                            data: mag,
                        },
                    ]
                    &&& f == spec_lis3mdl_frame(mag)
                },
    {
        let mag = match bus.read_bytes(self.address, LIS3MDL_OUT_X_L, 6) {
            Ok(v) => v,
            Err(e) => {
                return Err(read_failure(&self.id, e));
            },
        };
        let f = self.frame_from_readings(mag.as_slice());
        proof {
            assert(final(bus).log() =~= old(bus).log() + seq![
                BusOp::Read {
                    address: self.address,
                    reg: LIS3MDL_OUT_X_L,
                    len: 6,
                    data: mag@,
                },
            ]);
        }
        Ok(f)
    }
}

/// The bank-select register of the ICM42688P.
pub const ICM42688P_REG_BANK_SEL: u8 = 0x76;

/// The chip-identity register of the ICM42688P.
pub const ICM42688P_WHO_AM_I: u8 = 0x75;

/// The device-configuration (soft reset) register of the ICM42688P.
pub const ICM42688P_DEVICE_CONFIG: u8 = 0x11;

/// The power-management register of the ICM42688P.
pub const ICM42688P_PWR_MGMT0: u8 = 0x4E;

/// The gyroscope configuration register of the ICM42688P.
pub const ICM42688P_GYRO_CONFIG0: u8 = 0x4F;

/// The accelerometer configuration register of the ICM42688P.
pub const ICM42688P_ACCEL_CONFIG0: u8 = 0x50;

/// The first temperature output register of the ICM42688P.
pub const ICM42688P_TEMP_DATA1: u8 = 0x1D;

/// The first accelerometer output register of the ICM42688P.
pub const ICM42688P_ACCEL_DATA_X1: u8 = 0x1F;

/// The first gyroscope output register of the ICM42688P.
pub const ICM42688P_GYRO_DATA_X1: u8 = 0x25;

/// The identity the ICM42688P reports.
pub const ICM42688P_CHIP_ID: u8 = 0x47;

/// The identity the ICM42688 variant reports, accepted as well.
pub const ICM42688_CHIP_ID: u8 = 0x44;

/// Micro-m/s² per ICM42688P accelerometer count at ±2 g: 1/16384 g per
/// count.
pub const ICM42688P_ACCEL_NUM: i64 = 9810000;

/// Denominator of the ICM42688P accelerometer scale.
pub const ICM42688P_ACCEL_DEN: i64 = 16384;

/// Micro-rad/s per ICM42688P gyroscope count at ±250 dps: 1/131 deg/s
/// per count, converted with a fixed rational approximation of pi/180.
pub const ICM42688P_GYRO_NUM: i64 = 174532925;

/// Denominator of the ICM42688P gyroscope scale.
pub const ICM42688P_GYRO_DEN: i64 = 1310000;

/// Micro-°C per ICM42688P temperature count: 1/132.48 °C per count.
pub const ICM42688P_TEMP_NUM: i64 = 100000000;

/// Denominator of the ICM42688P temperature scale.
pub const ICM42688P_TEMP_DEN: i64 = 13248;

/// The ICM42688P temperature offset in micro-°C.
pub const ICM42688P_TEMP_OFFSET: i64 = 25000000;

/// The frame one ICM42688P read yields, from its raw output blocks in
/// the chip's big-endian byte order.
pub open spec fn spec_icm42688p_frame(accel: Seq<u8>, gyro: Seq<u8>, temp: Seq<u8>) -> SensorDataFrame
    recommends
        accel.len() == 6,
        gyro.len() == 6,
        temp.len() == 2,
{
    SensorDataFrame {
        accel: Some(
            Triple {
                x: spec_scale(
                    spec_i16_be(accel[0], accel[1]) as int,
                    ICM42688P_ACCEL_NUM as int,
                    ICM42688P_ACCEL_DEN as int,
                ) as i64,
                y: spec_scale(
                    spec_i16_be(accel[2], accel[3]) as int,
                    ICM42688P_ACCEL_NUM as int,
                    ICM42688P_ACCEL_DEN as int,
                ) as i64,
                z: spec_scale(
                    spec_i16_be(accel[4], accel[5]) as int,
                    ICM42688P_ACCEL_NUM as int,
                    ICM42688P_ACCEL_DEN as int,
                ) as i64,
            },
        ),
        gyro: Some(
            Triple {
                x: spec_scale(
                    spec_i16_be(gyro[0], gyro[1]) as int,
                    ICM42688P_GYRO_NUM as int,
                    ICM42688P_GYRO_DEN as int,
                ) as i64,
                y: spec_scale(
                    spec_i16_be(gyro[2], gyro[3]) as int,
                    ICM42688P_GYRO_NUM as int,
                    ICM42688P_GYRO_DEN as int,
                ) as i64,
                z: spec_scale(
                    spec_i16_be(gyro[4], gyro[5]) as int,
                    ICM42688P_GYRO_NUM as int,
                    ICM42688P_GYRO_DEN as int,
                ) as i64,
            },
        ),
        mag: None,
        temp: Some(
            (spec_scale(
                spec_i16_be(temp[0], temp[1]) as int,
                ICM42688P_TEMP_NUM as int,
                ICM42688P_TEMP_DEN as int,
            ) + ICM42688P_TEMP_OFFSET) as i64,
        ),
        pressure_static: None,
        pressure_pitot: None,
        quaternion: None,
        angular_velocity_body: None,
    }
}

/// A six-axis inertial unit on the register bus, with big-endian output
/// registers.
#[derive(Debug, Clone, PartialEq, Eq)]
pub struct Icm42688p {
    /// Sensor id.
    pub id: String,
    /// Bus address of the chip.
    pub address: u8,
    /// Id of the bus the chip is attached to.
    pub bus_id: String,
}

impl Icm42688p {
    /// A driver instance for the chip at `address` on the named bus.
    pub fn new(id: String, address: u8, bus_id: String) -> (r: Icm42688p)
        ensures
            r.id@ == id@,
            r.address == address,
            r.bus_id@ == bus_id@,
    {
        Icm42688p { id, address, bus_id }
    }

    /// The sensor id.
    pub fn id(&self) -> (r: &str)
        ensures
            r@ == self.id@,
    {
        self.id.as_str()
    }

    /// The id of the bus the sensor is attached to.
    pub fn bus(&self) -> (r: &str)
        ensures
            r@ == self.bus_id@,
    {
        self.bus_id.as_str()
    }

    /// Accept or reject the chip-identity byte: either of the two family
    /// identities passes.
    pub fn identify(&self, actual: u8) -> (r: Result<(), SensorError>)
        ensures
            r is Ok <==> (actual == ICM42688P_CHIP_ID || actual == ICM42688_CHIP_ID),
            r matches Err(e) ==> e matches SensorError::WrongChipId {
                sensor,
                expected,
                actual: a,
            } && sensor@ == self.id@ && expected == ICM42688P_CHIP_ID && a == actual,
    {
        if actual != ICM42688P_CHIP_ID && actual != ICM42688_CHIP_ID {
            Err(
                SensorError::WrongChipId {
                    sensor: self.id.clone(),
                    expected: ICM42688P_CHIP_ID,
                    actual,
                },
            )
        } else {
            Ok(())
        }
    }

    /// Select the first register bank, verify the chip identity and issue
    /// a soft reset. The chip needs a wait after the reset; the caller
    /// sleeps before calling `init_finish`. Success means the bus saw
    /// exactly the bank select, the identity read (answering one of the
    /// two accepted identities) and the reset write, in order; a wrong
    /// identity means it saw the bank select and the identity read
    /// alone.
    pub fn init_begin(&mut self, bus: &mut I2CBus) -> (r: Result<(), SensorError>)
        ensures
            r matches Err(e) ==> spec_init_error_shape(e, final(self).id@, ICM42688P_CHIP_ID),
            *final(self) == *old(self),
            r is Ok ==> exists|who: Seq<u8>|
                {
                    &&& who.len() == 1
                    &&& (who[0] == ICM42688P_CHIP_ID || who[0] == ICM42688_CHIP_ID)
                    &&& final(bus).log() == old(bus).log() + seq![
                        BusOp::Write {
                            address: old(self).address,
                            reg: ICM42688P_REG_BANK_SEL,
                            value: 0x00,
                        },
                        BusOp::Read {
                            address: old(self).address,
                            reg: ICM42688P_WHO_AM_I,
                            len: 1,
                            data: who,
                        },
                        BusOp::Write {
                            address: old(self).address,
                            reg: ICM42688P_DEVICE_CONFIG,
                            value: 0x01,
                        },
                    ]
                },
            r matches Err(SensorError::WrongChipId { sensor: _, expected: _, actual }) ==> exists|
                who: Seq<u8>,
            |
                {
                    &&& who.len() == 1
                    &&& who[0] == actual
                    &&& final(bus).log() == old(bus).log() + seq![
                        BusOp::Write {
                            address: old(self).address,
                            reg: ICM42688P_REG_BANK_SEL,
                            value: 0x00,
                        },
                        BusOp::Read {
                            address: old(self).address,
                            reg: ICM42688P_WHO_AM_I,
                            len: 1,
                            data: who,
                        },
                    ]
                },
    {
        if let Err(e) = bus.write_byte(self.address, ICM42688P_REG_BANK_SEL, 0x00) {
            return Err(init_failure(&self.id, e));
        }
        let who_bytes = match bus.read_bytes(self.address, ICM42688P_WHO_AM_I, 1) {
            Ok(v) => v,
            Err(e) => {
                return Err(SensorError::I2cError(e));
            },
        };
        if let Err(e) = self.identify(who_bytes[0]) {
            proof {
                assert(final(bus).log() =~= old(bus).log() + seq![
                    BusOp::Write {
                        address: old(self).address,
                        reg: ICM42688P_REG_BANK_SEL,
                        value: 0x00,
                    },
                    BusOp::Read {
                        address: old(self).address,
                        reg: ICM42688P_WHO_AM_I,
                        len: 1,
                        data: who_bytes@,
                    },
                ]);
            }
            return Err(e);
        }
        if let Err(e) = bus.write_byte(self.address, ICM42688P_DEVICE_CONFIG, 0x01) {
            return Err(init_failure(&self.id, e));
        }
        proof {
            assert(final(bus).log() =~= old(bus).log() + seq![
                BusOp::Write {
                    address: old(self).address,
                    reg: ICM42688P_REG_BANK_SEL,
                    value: 0x00,
                },
                BusOp::Read {
                    address: old(self).address,
                    reg: ICM42688P_WHO_AM_I,
                    len: 1,
                    data: who_bytes@,
                },
                BusOp::Write {
                    address: old(self).address,
                    reg: ICM42688P_DEVICE_CONFIG,
                    value: 0x01,
                },
            ]);
        }
        Ok(())
    }

    /// Enable the gyroscope and the accelerometer in low-noise mode and
    /// configure both at their lowest range and 100 Hz. The chip needs a
    /// short stabilisation wait afterwards, taken by the caller. Success
    /// means the bus saw exactly the three configuration writes, in
    /// order.
    pub fn init_finish(&mut self, bus: &mut I2CBus) -> (r: Result<(), SensorError>)
        ensures
            r matches Err(e) ==> spec_init_error_shape(e, final(self).id@, ICM42688P_CHIP_ID),
            *final(self) == *old(self),
            r is Ok ==> final(bus).log() == old(bus).log() + seq![
                BusOp::Write { address: old(self).address, reg: ICM42688P_PWR_MGMT0, value: 0x0F },
                BusOp::Write {
                    address: old(self).address,
                    reg: ICM42688P_GYRO_CONFIG0,
                    value: 0x68,
                },
                BusOp::Write {
                    address: old(self).address,
                    reg: ICM42688P_ACCEL_CONFIG0,
                    value: 0x68,
                },
            ],
    {
        if let Err(e) = bus.write_byte(self.address, ICM42688P_PWR_MGMT0, 0x0F) {
            return Err(init_failure(&self.id, e));
        }
        if let Err(e) = bus.write_byte(self.address, ICM42688P_GYRO_CONFIG0, 0x68) {
            return Err(init_failure(&self.id, e));
        }
        if let Err(e) = bus.write_byte(self.address, ICM42688P_ACCEL_CONFIG0, 0x68) {
            return Err(init_failure(&self.id, e));
        }
        proof {
            assert(final(bus).log() =~= old(bus).log() + seq![
                BusOp::Write { address: old(self).address, reg: ICM42688P_PWR_MGMT0, value: 0x0F },
                BusOp::Write {
                    address: old(self).address,
                    reg: ICM42688P_GYRO_CONFIG0,
                    value: 0x68,
                },
                BusOp::Write {
                    address: old(self).address,
                    reg: ICM42688P_ACCEL_CONFIG0,
                    value: 0x68,
                },
            ]);
        }
        Ok(())
    }

    /// The frame one read of this chip yields, from the raw output blocks
    /// in the chip's big-endian byte order.
    pub fn frame_from_readings(&self, accel: &[u8], gyro: &[u8], temp: &[u8]) -> (r:
        SensorDataFrame)
        requires
            accel@.len() == 6,
            gyro@.len() == 6,
            temp@.len() == 2,
        ensures
            r == spec_icm42688p_frame(accel@, gyro@, temp@),
    {
        let mut r = SensorDataFrame::empty();
        r.accel = Some(
            Triple {
                x: scale(
                    i16_be(accel[0], accel[1]) as i64,
                    ICM42688P_ACCEL_NUM,
                    ICM42688P_ACCEL_DEN,
                ),
                y: scale(
                    i16_be(accel[2], accel[3]) as i64,
                    ICM42688P_ACCEL_NUM,
                    ICM42688P_ACCEL_DEN,
                ),
                z: scale(
                    i16_be(accel[4], accel[5]) as i64,
                    ICM42688P_ACCEL_NUM,
                    ICM42688P_ACCEL_DEN,
                ),
            },
        );
        r.gyro = Some(
            Triple {
                x: scale(i16_be(gyro[0], gyro[1]) as i64, ICM42688P_GYRO_NUM, ICM42688P_GYRO_DEN),
                y: scale(i16_be(gyro[2], gyro[3]) as i64, ICM42688P_GYRO_NUM, ICM42688P_GYRO_DEN),
                z: scale(i16_be(gyro[4], gyro[5]) as i64, ICM42688P_GYRO_NUM, ICM42688P_GYRO_DEN),
            },
        );
        r.temp = Some(
            scale(i16_be(temp[0], temp[1]) as i64, ICM42688P_TEMP_NUM, ICM42688P_TEMP_DEN)
                + ICM42688P_TEMP_OFFSET,
        );
        r
    }

    /// Read acceleration, angular velocity and temperature: three block
    /// reads, assembled and scaled by `frame_from_readings`. Success
    /// means the bus saw exactly those three reads, in order, and the
    /// frame holds exactly their bytes scaled; every failure is this
    /// sensor's read error.
    pub fn read(&self, bus: &mut I2CBus) -> (r: Result<SensorDataFrame, SensorError>)
        ensures
            r matches Err(e) ==> spec_read_error_shape(e, self.id@),
            r matches Ok(f) ==> exists|accel: Seq<u8>, gyro: Seq<u8>, temp: Seq<u8>|
                {
                    &&& accel.len() == 6
                    &&& gyro.len() == 6
                    &&& temp.len() == 2
                    &&& final(bus).log() == old(bus).log() + seq![
                        BusOp::Read {
                            address: self.address,
                            reg: ICM42688P_ACCEL_DATA_X1,
                            len: 6,
                            data: accel,
                        },
                        BusOp::Read {
                            address: self.address,
                            reg: ICM42688P_GYRO_DATA_X1,
                            len: 6,
                            data: gyro,
                        },
                        BusOp::Read {
                            address: self.address,
                            reg: ICM42688P_TEMP_DATA1,
                            len: 2,
                            data: temp,
                        },
                    ]
                    &&& f == spec_icm42688p_frame(accel, gyro, temp)
                },
    {
        let accel = match bus.read_bytes(self.address, ICM42688P_ACCEL_DATA_X1, 6) {
            Ok(v) => v,
            Err(e) => {
                return Err(read_failure(&self.id, e));
            },
        };
        let gyro = match bus.read_bytes(self.address, ICM42688P_GYRO_DATA_X1, 6) {
            Ok(v) => v,
            Err(e) => {
                return Err(read_failure(&self.id, e));
            },
        };
        let temp = match bus.read_bytes(self.address, ICM42688P_TEMP_DATA1, 2) {
            Ok(v) => v,
            Err(e) => {
                return Err(read_failure(&self.id, e));
            },
        };
        let f = self.frame_from_readings(accel.as_slice(), gyro.as_slice(), temp.as_slice());
        proof {
            assert(final(bus).log() =~= old(bus).log() + seq![
                BusOp::Read {
                    address: self.address,
                    reg: ICM42688P_ACCEL_DATA_X1,
                    len: 6,
                    data: accel@,
                },
                BusOp::Read {
                    address: self.address,
                    reg: ICM42688P_GYRO_DATA_X1,
                    len: 6,
                    data: gyro@,
                },
                BusOp::Read {
                    address: self.address,
                    reg: ICM42688P_TEMP_DATA1,
                    len: 2,
                    data: temp@,
                },
            ]);
        }
        Ok(f)
    }
}

/// The chip-identity register of the BMP388.
pub const BMP388_CHIP_ID_REG: u8 = 0x00;

/// The command register of the BMP388.
pub const BMP388_CMD: u8 = 0x7E;

/// The soft-reset command of the BMP388.
pub const BMP388_SOFT_RESET: u8 = 0xB6;

/// The first calibration register of the BMP388.
pub const BMP388_CALIB_START: u8 = 0x31;

/// The length of the BMP388 calibration block.
pub const BMP388_CALIB_LEN: usize = 21;

/// The oversampling register of the BMP388.
pub const BMP388_OSR: u8 = 0x1C;

/// The output-data-rate register of the BMP388.
pub const BMP388_ODR: u8 = 0x1D;

/// The filter-configuration register of the BMP388.
pub const BMP388_CONFIG: u8 = 0x1F;

/// The power-control register of the BMP388.
pub const BMP388_PWR_CTRL: u8 = 0x1B;

/// Power-control value: both sensors enabled, normal mode.
pub const BMP388_PWR_NORMAL: u8 = 0x33;

/// Power-control value: both sensors enabled, forced mode.
pub const BMP388_PWR_FORCED: u8 = 0x13;

/// The first data register of the BMP388.
pub const BMP388_DATA_START: u8 = 0x04;

/// The identity the BMP388 reports.
pub const BMP388_CHIP_ID: u8 = 0x50;

/// The factory calibration coefficients of one BMP388, as the raw
/// integers of its calibration block. The datasheet's two-stage
/// compensation consumes these as floating-point values at the
/// unverified edge.
#[derive(Debug, Clone, Copy, PartialEq, Eq, Structural)]
pub struct Bmp388Calibration {
    pub t1: u16,
    pub t2: u16,
    pub t3: i8,
    pub p1: i16,
    pub p2: i16,
    pub p3: i8,
    pub p4: i8,
    pub p5: u16,
    pub p6: u16,
    pub p7: i8,
    pub p8: i8,
    pub p9: i16,
    pub p10: i8,
    pub p11: i8,
}

/// The u16 encoded little-endian in two bytes.
pub open spec fn spec_u16_le(lo: u8, hi: u8) -> u16 {
    ((hi as u16) << 8) | (lo as u16)
}

/// The calibration coefficients held in a raw calibration block.
pub open spec fn spec_parse_calibration(b: Seq<u8>) -> Bmp388Calibration
    recommends
        b.len() == BMP388_CALIB_LEN,
{
    Bmp388Calibration {
        t1: spec_u16_le(b[0], b[1]),
        t2: spec_u16_le(b[2], b[3]),
        t3: b[4] as i8,
        p1: spec_i16_le(b[5], b[6]),
        p2: spec_i16_le(b[7], b[8]),
        p3: b[9] as i8,
        p4: b[10] as i8,
        p5: spec_u16_le(b[11], b[12]),
        p6: spec_u16_le(b[13], b[14]),
        p7: b[15] as i8,
        p8: b[16] as i8,
        p9: spec_i16_le(b[17], b[18]),
        p10: b[19] as i8,
        p11: b[20] as i8,
    }
}

/// Parse a raw calibration block into its coefficients.
pub fn parse_calibration(b: &[u8]) -> (r: Bmp388Calibration)
    requires
        b@.len() == BMP388_CALIB_LEN,
    ensures
        r == spec_parse_calibration(b@),
{
    Bmp388Calibration {
        t1: ((b[1] as u16) << 8u16) | (b[0] as u16),
        t2: ((b[3] as u16) << 8u16) | (b[2] as u16),
        t3: #[verifier::truncate] (b[4] as i8),
        p1: i16_le(b[5], b[6]),
        p2: i16_le(b[7], b[8]),
        p3: #[verifier::truncate] (b[9] as i8),
        p4: #[verifier::truncate] (b[10] as i8),
        p5: ((b[12] as u16) << 8u16) | (b[11] as u16),
        p6: ((b[14] as u16) << 8u16) | (b[13] as u16),
        p7: #[verifier::truncate] (b[15] as i8),
        p8: #[verifier::truncate] (b[16] as i8),
        p9: i16_le(b[17], b[18]),
        p10: #[verifier::truncate] (b[19] as i8),
        p11: #[verifier::truncate] (b[20] as i8),
    }
}

/// A barometer on the register bus. The id decides what the pressure
/// means: an id beginning with `pitot`, compared without regard to ASCII
/// case, reports dynamic pressure; any other id reports static pressure.
#[derive(Debug, Clone, PartialEq, Eq)]
pub struct Bmp388 {
    /// Sensor id.
    pub id: String,
    /// Bus address of the chip.
    pub address: u8,
    /// Id of the bus the chip is attached to.
    pub bus_id: String,
    /// True when this instance reports dynamic (pitot) pressure.
    pub pitot: bool,
    /// The calibration block, loaded during initialisation.
    pub calibration: Option<Bmp388Calibration>,
}

impl Bmp388 {
    /// A driver instance for the chip at `address` on the named bus. The
    /// pressure kind is decided here from the id prefix.
    pub fn new(id: String, address: u8, bus_id: String) -> (r: Bmp388)
        ensures
            r.id@ == id@,
            r.address == address,
            r.bus_id@ == bus_id@,
            r.pitot == strutil::is_prefix_of_ignore_case("pitot"@, id@),
            r.calibration is None,
    {
        let pitot = strutil::starts_with_ignore_ascii_case(id.as_str(), "pitot");
        Bmp388 { id, address, bus_id, pitot, calibration: None }
    }

    /// The sensor id.
    pub fn id(&self) -> (r: &str)
        ensures
            r@ == self.id@,
    {
        self.id.as_str()
    }

    /// The id of the bus the sensor is attached to.
    pub fn bus(&self) -> (r: &str)
        ensures
            r@ == self.bus_id@,
    {
        self.bus_id.as_str()
    }

    /// Accept or reject the chip-identity byte.
    pub fn identify(&self, actual: u8) -> (r: Result<(), SensorError>)
        ensures
            r is Ok <==> actual == BMP388_CHIP_ID,
            r matches Err(e) ==> e matches SensorError::WrongChipId {
                sensor,
                expected,
                actual: a,
            } && sensor@ == self.id@ && expected == BMP388_CHIP_ID && a == actual,
    {
        if actual != BMP388_CHIP_ID {
            Err(
                SensorError::WrongChipId {
                    sensor: self.id.clone(),
                    expected: BMP388_CHIP_ID,
                    actual,
                },
            )
        } else {
            Ok(())
        }
    }

    /// Verify the chip identity and issue a soft reset. The chip needs a
    /// wait after the reset; the caller sleeps before the next phase.
    /// Success means the bus saw exactly the identity read (answering
    /// the expected identity) followed by the reset write; a wrong
    /// identity means it saw the identity read alone.
    pub fn init_begin(&mut self, bus: &mut I2CBus) -> (r: Result<(), SensorError>)
        ensures
            r matches Err(e) ==> spec_init_error_shape(e, final(self).id@, BMP388_CHIP_ID),
            *final(self) == *old(self),
            r is Ok ==> exists|who: Seq<u8>|
                {
                    &&& who.len() == 1
                    &&& who[0] == BMP388_CHIP_ID
                    &&& final(bus).log() == old(bus).log() + seq![
                        BusOp::Read {
                            address: old(self).address,
                            reg: BMP388_CHIP_ID_REG,
                            len: 1,
                            data: who,
                        },
                        BusOp::Write {
                            address: old(self).address,
                            reg: BMP388_CMD,
                            value: BMP388_SOFT_RESET,
                        },
                    ]
                },
            r matches Err(SensorError::WrongChipId { sensor: _, expected: _, actual }) ==> exists|
                who: Seq<u8>,
            |
                {
                    &&& who.len() == 1
                    &&& who[0] == actual
                    &&& final(bus).log() == old(bus).log() + seq![
                        BusOp::Read {
                            address: old(self).address,
                            reg: BMP388_CHIP_ID_REG,
                            len: 1,
                            data: who,
                        },
                    ]
                },
    {
        let who_bytes = match bus.read_bytes(self.address, BMP388_CHIP_ID_REG, 1) {
            Ok(v) => v,
            Err(e) => {
                return Err(SensorError::I2cError(e));
            },
        };
        if let Err(e) = self.identify(who_bytes[0]) {
            proof {
                assert(final(bus).log() =~= old(bus).log() + seq![
                    BusOp::Read {
                        address: old(self).address,
                        reg: BMP388_CHIP_ID_REG,
                        len: 1,
                        data: who_bytes@,
                    },
                ]);
            }
            return Err(e);
        }
        if let Err(e) = bus.write_byte(self.address, BMP388_CMD, BMP388_SOFT_RESET) {
            return Err(init_failure(&self.id, e));
        }
        proof {
            assert(final(bus).log() =~= old(bus).log() + seq![
                BusOp::Read {
                    address: old(self).address,
                    reg: BMP388_CHIP_ID_REG,
                    len: 1,
                    data: who_bytes@,
                },
                BusOp::Write {
                    address: old(self).address,
                    reg: BMP388_CMD,
                    value: BMP388_SOFT_RESET,
                },
            ]);
        }
        Ok(())
    }

    /// Load the factory calibration block, retain its coefficients, and
    /// configure oversampling, output data rate, filtering and normal
    /// mode. The chip needs a wait for its first measurement; the caller
    /// sleeps before the next phase. Success means the bus saw exactly
    /// the calibration read followed by the four configuration writes,
    /// in order, and the retained coefficients are exactly the parse of
    /// the bytes that came back.
    pub fn init_calibrate(&mut self, bus: &mut I2CBus) -> (r: Result<(), SensorError>)
        ensures
            r matches Err(e) ==> match e {
                SensorError::CalibrationError { sensor, reason: _ } => sensor@ == old(self).id@,
                SensorError::InitError { sensor, reason: _ } => sensor@ == old(self).id@,
                _ => false,
            },
            r is Ok ==> exists|cal: Seq<u8>|
                {
                    &&& cal.len() == BMP388_CALIB_LEN
                    &&& final(self).calibration == Some(spec_parse_calibration(cal))
                    &&& final(bus).log() == old(bus).log() + seq![
                        BusOp::Read {
                            address: old(self).address,
                            reg: BMP388_CALIB_START,
                            len: BMP388_CALIB_LEN as nat,
                            data: cal,
                        },
                        BusOp::Write { address: old(self).address, reg: BMP388_OSR, value: 0x02 },
                        BusOp::Write { address: old(self).address, reg: BMP388_ODR, value: 0x02 },
                        BusOp::Write {
                            address: old(self).address,
                            reg: BMP388_CONFIG,
                            value: 0x00,
                        },
                        BusOp::Write {
                            address: old(self).address,
                            reg: BMP388_PWR_CTRL,
                            value: BMP388_PWR_NORMAL,
                        },
                    ]
                },
            final(self).id == old(self).id,
            final(self).address == old(self).address,
            final(self).bus_id == old(self).bus_id,
            final(self).pitot == old(self).pitot,
    {
        let cal_block = match bus.read_bytes(self.address, BMP388_CALIB_START, BMP388_CALIB_LEN) {
            Ok(v) => v,
            Err(e) => {
                return Err(
                    SensorError::CalibrationError { sensor: self.id.clone(), reason: e.detail },
                );
            },
        };
        self.calibration = Some(parse_calibration(cal_block.as_slice()));
        if let Err(e) = bus.write_byte(self.address, BMP388_OSR, 0x02) {
            return Err(init_failure(&self.id, e));
        }
        if let Err(e) = bus.write_byte(self.address, BMP388_ODR, 0x02) {
            return Err(init_failure(&self.id, e));
        }
        if let Err(e) = bus.write_byte(self.address, BMP388_CONFIG, 0x00) {
            return Err(init_failure(&self.id, e));
        }
        if let Err(e) = bus.write_byte(self.address, BMP388_PWR_CTRL, BMP388_PWR_NORMAL) {
            return Err(init_failure(&self.id, e));
        }
        proof {
            assert(final(bus).log() =~= old(bus).log() + seq![
                BusOp::Read {
                    address: old(self).address,
                    reg: BMP388_CALIB_START,
                    len: BMP388_CALIB_LEN as nat,
                    data: cal_block@,
                },
                BusOp::Write { address: old(self).address, reg: BMP388_OSR, value: 0x02 },
                BusOp::Write { address: old(self).address, reg: BMP388_ODR, value: 0x02 },
                BusOp::Write { address: old(self).address, reg: BMP388_CONFIG, value: 0x00 },
                BusOp::Write {
                    address: old(self).address,
                    reg: BMP388_PWR_CTRL,
                    value: BMP388_PWR_NORMAL,
                },
            ]);
        }
        Ok(())
    }

    /// Force one measurement in case normal mode has not produced one.
    /// The caller sleeps before completing initialisation.
    pub fn init_force_measurement(&mut self, bus: &mut I2CBus) -> (r: Result<(), SensorError>)
        ensures
            r matches Err(e) ==> spec_init_error_shape(e, final(self).id@, BMP388_CHIP_ID),
            *final(self) == *old(self),
            r is Ok ==> final(bus).log() == old(bus).log().push(
                BusOp::Write {
                    address: old(self).address,
                    reg: BMP388_PWR_CTRL,
                    value: BMP388_PWR_FORCED,
                },
            ),
    {
        if let Err(e) = bus.write_byte(self.address, BMP388_PWR_CTRL, BMP388_PWR_FORCED) {
            return Err(init_failure(&self.id, e));
        }
        Ok(())
    }

    /// Return the chip to normal mode, completing initialisation.
    pub fn init_complete(&mut self, bus: &mut I2CBus) -> (r: Result<(), SensorError>)
        ensures
            r matches Err(e) ==> spec_init_error_shape(e, final(self).id@, BMP388_CHIP_ID),
            *final(self) == *old(self),
            r is Ok ==> final(bus).log() == old(bus).log().push(
                BusOp::Write {
                    address: old(self).address,
                    reg: BMP388_PWR_CTRL,
                    value: BMP388_PWR_NORMAL,
                },
            ),
    {
        if let Err(e) = bus.write_byte(self.address, BMP388_PWR_CTRL, BMP388_PWR_NORMAL) {
            return Err(init_failure(&self.id, e));
        }
        Ok(())
    }

    /// The raw pressure and temperature held in one data block: both are
    /// unsigned 24-bit little-endian counts.
    pub open spec fn spec_raw_from_block(b: Seq<u8>) -> (u32, u32)
        recommends
            b.len() == 6,
    {
        (
            ((b[2] as u32) << 16) | ((b[1] as u32) << 8) | (b[0] as u32),
            ((b[5] as u32) << 16) | ((b[4] as u32) << 8) | (b[3] as u32),
        )
    }

    /// Assemble the raw pressure and temperature counts of a data block.
    pub fn raw_from_block(b: &[u8]) -> (r: (u32, u32))
        requires
            b@.len() == 6,
        ensures
            r == Bmp388::spec_raw_from_block(b@),
    {
        (
            ((b[2] as u32) << 16u32) | ((b[1] as u32) << 8u32) | (b[0] as u32),
            ((b[5] as u32) << 16u32) | ((b[4] as u32) << 8u32) | (b[3] as u32),
        )
    }

    /// Read the raw pressure and temperature counts. Their datasheet
    /// compensation is floating point and runs at the unverified edge,
    /// which then hands the compensated values to `frame_from_compensated`.
    /// Without retained calibration the read is refused before any bus
    /// transaction; with it, success means the bus saw exactly one data
    /// read whose bytes assemble to the returned counts.
    pub fn read_raw(&self, bus: &mut I2CBus) -> (r: Result<(u32, u32), SensorError>)
        ensures
            self.calibration is None ==> (r matches Err(SensorError::DataError {
                sensor,
                reason,
            }) && sensor@ == self.id@ && reason@ == "Calibration not loaded"@) && final(bus).log()
                == old(bus).log(),
            self.calibration is Some ==> match r {
                Ok(raw) => exists|block: Seq<u8>|
                    {
                        &&& block.len() == 6
                        &&& final(bus).log() == old(bus).log().push(
                            BusOp::Read {
                                address: self.address,
                                reg: BMP388_DATA_START,
                                len: 6,
                                data: block,
                            },
                        )
                        &&& raw == Bmp388::spec_raw_from_block(block)
                    },
                Err(e) => e matches SensorError::ReadError { sensor, reason: _ } && sensor@
                    == self.id@,
            },
    {
        if self.calibration.is_none() {
            return Err(
                SensorError::DataError {
                    sensor: self.id.clone(),
                    reason: String::from_str("Calibration not loaded"),
                },
            );
        }
        let block = match bus.read_bytes(self.address, BMP388_DATA_START, 6) {
            Ok(v) => v,
            Err(e) => {
                return Err(SensorError::ReadError { sensor: self.id.clone(), reason: e.detail });
            },
        };
        let raw = Self::raw_from_block(block.as_slice());
        proof {
            assert(final(bus).log() =~= old(bus).log().push(
                BusOp::Read { address: self.address, reg: BMP388_DATA_START, len: 6, data: block@ },
            ));
        }
        Ok(raw)
    }

    /// The frame one read of this chip yields, from the compensated
    /// pressure and temperature: the pressure lands in the static or the
    /// pitot field as this instance's id decided at construction.
    pub fn frame_from_compensated(&self, pressure_upa: i64, temperature_uc: i64) -> (r:
        SensorDataFrame)
        ensures
            self.pitot ==> r.pressure_pitot == Some(pressure_upa) && r.pressure_static is None,
            !self.pitot ==> r.pressure_static == Some(pressure_upa) && r.pressure_pitot is None,
            r.temp == Some(temperature_uc),
            r.accel is None,
            r.gyro is None,
            r.mag is None,
    {
        let mut r = SensorDataFrame::empty();
        if self.pitot {
            r.pressure_pitot = Some(pressure_upa);
        } else {
            r.pressure_static = Some(pressure_upa);
        }
        r.temp = Some(temperature_uc);
        r
    }
}

/// An adapter for the vendor inertial-unit driver crate; its transport
/// support does not cover this register bus yet, so the instance only
/// carries its identity.
#[derive(Debug, Clone, PartialEq, Eq)]
pub struct Icm426xxAdapter {
    /// Sensor id.
    pub id: String,
    /// Bus address of the chip.
    pub address: u8,
    /// Id of the bus the chip is attached to.
    pub bus_id: String,
}

impl Icm426xxAdapter {
    /// An adapter instance for the chip at `address` on the named bus.
    pub fn new(id: String, address: u8, bus_id: String) -> (r: Icm426xxAdapter)
        ensures
            r.id@ == id@,
            r.address == address,
            r.bus_id@ == bus_id@,
    {
        Icm426xxAdapter { id, address, bus_id }
    }
}

/// A push-fed sensor instance on the telemetry stream: it polls nothing,
/// and publishes whenever its connection hands it a message of the kind
/// it represents.
#[derive(Debug, Clone, PartialEq, Eq)]
pub struct MavlinkSensor {
    /// Sensor id.
    pub id: String,
    /// Id of the serial bus whose connection feeds this sensor.
    pub bus_id: String,
    /// The message kind this instance consumes.
    pub sensor_type: MavlinkSensorType,
    /// Publication state: sequence number and monotonic clamp.
    pub state: SensorTaskState,
}

impl MavlinkSensor {
    /// A push-fed instance consuming the given message kind.
    pub fn new(id: String, bus_id: String, sensor_type: MavlinkSensorType) -> (r: MavlinkSensor)
        ensures
            r.id@ == id@,
            r.bus_id@ == bus_id@,
            r.sensor_type == sensor_type,
            r.state.seq == 0,
            r.state.last_mono_ns == 0,
    {
        MavlinkSensor { id, bus_id, sensor_type, state: SensorTaskState::new() }
    }

    /// The sensor id.
    pub fn id(&self) -> (r: &str)
        ensures
            r@ == self.id@,
    {
        self.id.as_str()
    }

    /// The id of the bus this sensor is fed from.
    pub fn bus(&self) -> (r: &str)
        ensures
            r@ == self.bus_id@,
    {
        self.bus_id.as_str()
    }

    /// True when this instance consumes the message with the given id.
    pub fn consumes(&self, msg_id: u32) -> (r: bool)
        ensures
            r == crate::mavlink::spec_sensor_consumes(self.sensor_type, msg_id),
    {
        crate::mavlink::sensor_consumes(&self.sensor_type, msg_id)
    }
}

/// One constructed sensor instance of any driver.
#[derive(Debug, Clone, PartialEq, Eq)]
pub enum SensorInstance {
    Lsm6dsl(Lsm6dsl),
    Lis3mdl(Lis3mdl),
    Bmp388(Bmp388),
    Icm42688p(Icm42688p),
    Mavlink(MavlinkSensor),
}

impl SensorInstance {
    /// The sensor id of the instance.
    pub fn id(&self) -> &str {
        match self {
            SensorInstance::Lsm6dsl(s) => s.id(),
            SensorInstance::Lis3mdl(s) => s.id(),
            SensorInstance::Bmp388(s) => s.id(),
            SensorInstance::Icm42688p(s) => s.id(),
            SensorInstance::Mavlink(s) => s.id(),
        }
    }

    /// The bus id of the instance.
    pub fn bus(&self) -> &str {
        match self {
            SensorInstance::Lsm6dsl(s) => s.bus(),
            SensorInstance::Lis3mdl(s) => s.bus(),
            SensorInstance::Bmp388(s) => s.bus(),
            SensorInstance::Icm42688p(s) => s.bus(),
            SensorInstance::Mavlink(s) => s.bus(),
        }
    }
}

/// The driver names the registry can resolve to a constructor.
pub open spec fn spec_known_driver(driver: Seq<char>) -> bool {
    ||| driver == "lsm6dsl"@
    ||| driver == "lis3mdl"@
    ||| driver == "bmp388"@
    ||| driver == "icm42688p"@
    ||| driver == "mavlink_imu"@
    ||| driver == "mavlink_baro"@
    ||| driver == "mavlink_attitude"@
}

/// Resolve a driver name to a constructed instance. The register-bus
/// names and the telemetry names are known exactly; the telemetry
/// magnetometer is declared but not implemented, and any other name is
/// unsupported.
pub fn create_sensor_driver(driver: &str, id: String, address: u8, bus_id: String) -> (r: Result<
    SensorInstance,
    SensorError,
>)
    ensures
        driver@ == "lsm6dsl"@ ==> (r matches Ok(SensorInstance::Lsm6dsl(s)) && s.id@ == id@
            && s.address == address && s.bus_id@ == bus_id@),
        driver@ == "lis3mdl"@ ==> (r matches Ok(SensorInstance::Lis3mdl(s)) && s.id@ == id@
            && s.address == address && s.bus_id@ == bus_id@),
        driver@ == "bmp388"@ ==> (r matches Ok(SensorInstance::Bmp388(s)) && s.id@ == id@
            && s.address == address && s.bus_id@ == bus_id@),
        driver@ == "icm42688p"@ ==> (r matches Ok(SensorInstance::Icm42688p(s)) && s.id@ == id@
            && s.address == address && s.bus_id@ == bus_id@),
        driver@ == "mavlink_imu"@ ==> (r matches Ok(SensorInstance::Mavlink(s)) && s.id@ == id@
            && s.bus_id@ == bus_id@ && s.sensor_type == (MavlinkSensorType::Imu { instance: 0u8 })),
        driver@ == "mavlink_baro"@ ==> (r matches Ok(SensorInstance::Mavlink(s)) && s.id@ == id@
            && s.bus_id@ == bus_id@ && s.sensor_type == MavlinkSensorType::Barometer),
        driver@ == "mavlink_attitude"@ ==> (r matches Ok(SensorInstance::Mavlink(s)) && s.id@
            == id@ && s.bus_id@ == bus_id@ && s.sensor_type == MavlinkSensorType::Attitude),
        driver@ == "mavlink_mag"@ ==> r matches Err(SensorError::UnsupportedDriver { .. }),
        !spec_known_driver(driver@) ==> (r matches Err(SensorError::UnsupportedDriver {
            driver: d,
        }) && d@ == driver@),
        r is Err ==> r matches Err(SensorError::UnsupportedDriver { .. }),
{
    proof {
        reveal_strlit("lsm6dsl");
        reveal_strlit("lis3mdl");
        reveal_strlit("bmp388");
        reveal_strlit("icm42688p");
        reveal_strlit("mavlink_imu");
        reveal_strlit("mavlink_baro");
        reveal_strlit("mavlink_attitude");
        reveal_strlit("mavlink_mag");
        assert("lsm6dsl"@[1] != "lis3mdl"@[1]);
        assert("lsm6dsl"@.len() != "bmp388"@.len());
        assert("lsm6dsl"@.len() != "icm42688p"@.len());
        assert("lsm6dsl"@.len() != "mavlink_imu"@.len());
        assert("lsm6dsl"@.len() != "mavlink_baro"@.len());
        assert("lsm6dsl"@.len() != "mavlink_attitude"@.len());
        assert("lsm6dsl"@.len() != "mavlink_mag"@.len());
        assert("lis3mdl"@.len() != "bmp388"@.len());
        assert("lis3mdl"@.len() != "icm42688p"@.len());
        assert("lis3mdl"@.len() != "mavlink_imu"@.len());
        assert("lis3mdl"@.len() != "mavlink_baro"@.len());
        assert("lis3mdl"@.len() != "mavlink_attitude"@.len());
        assert("lis3mdl"@.len() != "mavlink_mag"@.len());
        assert("bmp388"@.len() != "icm42688p"@.len());
        assert("bmp388"@.len() != "mavlink_imu"@.len());
        assert("bmp388"@.len() != "mavlink_baro"@.len());
        assert("bmp388"@.len() != "mavlink_attitude"@.len());
        assert("bmp388"@.len() != "mavlink_mag"@.len());
        assert("icm42688p"@.len() != "mavlink_imu"@.len());
        assert("icm42688p"@.len() != "mavlink_baro"@.len());
        assert("icm42688p"@.len() != "mavlink_attitude"@.len());
        assert("icm42688p"@.len() != "mavlink_mag"@.len());
        assert("mavlink_imu"@.len() != "mavlink_baro"@.len());
        assert("mavlink_imu"@.len() != "mavlink_attitude"@.len());
        assert("mavlink_imu"@.len() == "mavlink_mag"@.len());
        assert("mavlink_imu"@[8] != "mavlink_mag"@[8]);
        assert("mavlink_baro"@.len() != "mavlink_attitude"@.len());
        assert("mavlink_baro"@.len() != "mavlink_mag"@.len());
        assert("mavlink_attitude"@.len() != "mavlink_mag"@.len());
    }
    if strutil::str_eq(driver, "lsm6dsl") {
        Ok(SensorInstance::Lsm6dsl(Lsm6dsl::new(id, address, bus_id)))
    } else if strutil::str_eq(driver, "lis3mdl") {
        Ok(SensorInstance::Lis3mdl(Lis3mdl::new(id, address, bus_id)))
    } else if strutil::str_eq(driver, "bmp388") {
        Ok(SensorInstance::Bmp388(Bmp388::new(id, address, bus_id)))
    } else if strutil::str_eq(driver, "icm42688p") {
        Ok(SensorInstance::Icm42688p(Icm42688p::new(id, address, bus_id)))
    } else if strutil::str_eq(driver, "mavlink_imu") {
        Ok(
            SensorInstance::Mavlink(
                MavlinkSensor::new(id, bus_id, MavlinkSensorType::Imu { instance: 0 }),
            ),
        )
    } else if strutil::str_eq(driver, "mavlink_baro") {
        Ok(SensorInstance::Mavlink(MavlinkSensor::new(id, bus_id, MavlinkSensorType::Barometer)))
    } else if strutil::str_eq(driver, "mavlink_attitude") {
        Ok(SensorInstance::Mavlink(MavlinkSensor::new(id, bus_id, MavlinkSensorType::Attitude)))
    } else {
        Err(SensorError::UnsupportedDriver { driver: driver.to_owned() })
    }
}

} // verus!
