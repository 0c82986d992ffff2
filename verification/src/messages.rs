//! The measurement schema: the header stamped onto every outgoing message
//! and the typed payloads derived from a sensor frame.
//!
//! Physical quantities are carried as signed 64-bit integers in millionths
//! of the unit named at each field (micro-m/s², micro-rad/s, micro-µT,
//! micro-°C, micro-Pa, micro-m). The streaming edge divides by one million
//! when it hands values to subscribers.

use vstd::prelude::*;
use crate::clock;

verus! {

/// Header metadata common to all sensor messages.
#[derive(Debug, PartialEq, Eq)]
pub struct Header {
    /// Unique device identifier.
    pub device_id: String,
    /// Sensor identifier (for example `imu0`, `baro1`, `mag0`).
    pub sensor_id: String,
    /// Reference frame identifier.
    pub frame_id: String,
    /// Sequence number for message ordering; per sensor, starts at 1.
    pub seq: u64,
    /// Wall-clock timestamp in nanoseconds since the Unix epoch.
    pub t_utc_ns: u64,
    /// Monotonic-clock timestamp in nanoseconds.
    pub t_mono_ns: u64,
    /// PPS signal lock status.
    pub pps_locked: bool,
    /// PTP synchronisation status.
    pub ptp_locked: bool,
    /// Clock frequency error in parts per billion.
    pub clock_err_ppb: i32,
    /// Timing uncertainty in nanoseconds.
    pub sigma_t_ns: u32,
    /// Message schema version.
    pub schema_v: u16,
}

/// The schema version this crate produces.
pub const SCHEMA_VERSION: u16 = 1;

/// The default timing uncertainty stamped on headers, in nanoseconds.
pub const DEFAULT_SIGMA_T_NS: u32 = 1000;

impl Header {
    /// True when this header carries the given identities, sequence number
    /// and timestamps, and the default synchronisation fields.
    pub open spec fn is_stamped(
        self,
        device_id: Seq<char>,
        sensor_id: Seq<char>,
        frame_id: Seq<char>,
        seq: u64,
        t_utc_ns: u64,
        t_mono_ns: u64,
    ) -> bool {
        &&& self.device_id@ == device_id
        &&& self.sensor_id@ == sensor_id
        &&& self.frame_id@ == frame_id
        &&& self.seq == seq
        &&& self.t_utc_ns == t_utc_ns
        &&& self.t_mono_ns == t_mono_ns
        &&& self.pps_locked == false
        &&& self.ptp_locked == false
        &&& self.clock_err_ppb == 0
        &&& self.sigma_t_ns == DEFAULT_SIGMA_T_NS
        &&& self.schema_v == SCHEMA_VERSION
    }

    /// A header for the given identities and sequence number, stamped with
    /// the given timestamps.
    pub fn with_times(
        device_id: String,
        sensor_id: String,
        frame_id: String,
        seq: u64,
        t_utc_ns: u64,
        t_mono_ns: u64,
    ) -> (r: Header)
        ensures
            r.is_stamped(device_id@, sensor_id@, frame_id@, seq, t_utc_ns, t_mono_ns),
    {
        Header {
            device_id,
            sensor_id,
            frame_id,
            seq,
            t_utc_ns,
            t_mono_ns,
            pps_locked: false,
            ptp_locked: false,
            clock_err_ppb: 0,
            sigma_t_ns: DEFAULT_SIGMA_T_NS,
            schema_v: SCHEMA_VERSION,
        }
    }

    /// A header for the given identities and sequence number, stamped with
    /// the current wall clock. Its monotonic stamp is the elapsed time of
    /// an instant taken in this very call, so it reads near zero; the
    /// contract leaves both timestamps unconstrained. A stream whose
    /// monotonic stamps must not decrease is built through
    /// `SensorTaskState::process_frame`, which clamps a caller-supplied
    /// reading and guarantees monotonicity for every clock value.
    pub fn new(device_id: String, sensor_id: String, frame_id: String, seq: u64) -> (r: Header)
        ensures
            exists|t_utc: u64, t_mono: u64|
                r.is_stamped(device_id@, sensor_id@, frame_id@, seq, t_utc, t_mono),
    {
        let now = clock::system_time_now();
        let t_utc_ns = clock::since_unix_epoch_ns(&now);
        let mono_start = clock::instant_now();
        let t_mono_ns = clock::instant_elapsed_ns(&mono_start);
        Header::with_times(device_id, sensor_id, frame_id, seq, t_utc_ns, t_mono_ns)
    }
}

/// Inertial measurement: acceleration and angular velocity.
#[derive(Debug, PartialEq, Eq)]
pub struct ImuMessage {
    pub h: Header,
    /// Acceleration X-axis in micro-m/s².
    pub ax: i64,
    /// Acceleration Y-axis in micro-m/s².
    pub ay: i64,
    /// Acceleration Z-axis in micro-m/s².
    pub az: i64,
    /// Angular velocity X-axis in micro-rad/s.
    pub gx: i64,
    /// Angular velocity Y-axis in micro-rad/s.
    pub gy: i64,
    /// Angular velocity Z-axis in micro-rad/s.
    pub gz: i64,
}

/// Magnetic field measurement.
#[derive(Debug, PartialEq, Eq)]
pub struct MagnetometerMessage {
    pub h: Header,
    /// Magnetic field X-axis in micro-µT.
    pub mx: i64,
    /// Magnetic field Y-axis in micro-µT.
    pub my: i64,
    /// Magnetic field Z-axis in micro-µT.
    pub mz: i64,
}

/// Barometric measurement with derived standard-atmosphere altitude.
#[derive(Debug, PartialEq, Eq)]
pub struct BarometerMessage {
    pub h: Header,
    /// Atmospheric pressure in micro-Pa.
    pub pressure: i64,
    /// Temperature in micro-°C.
    pub temperature: i64,
    /// Altitude in micro-m, derived from pressure under the standard
    /// atmosphere; 0 when the pressure is not positive.
    pub altitude: i64,
}

/// The kind of a sensor message.
#[derive(Debug, Clone, Copy, PartialEq, Eq, Structural)]
pub enum SensorKind {
    Imu,
    Magnetometer,
    Barometer,
}

/// One sensor measurement of any kind.
#[derive(Debug, PartialEq, Eq)]
pub enum SensorMessage {
    Imu(ImuMessage),
    Magnetometer(MagnetometerMessage),
    Barometer(BarometerMessage),
}

impl SensorMessage {
    /// The header of this message, whichever kind it is.
    pub open spec fn spec_header(self) -> Header {
        match self {
            SensorMessage::Imu(m) => m.h,
            SensorMessage::Magnetometer(m) => m.h,
            SensorMessage::Barometer(m) => m.h,
        }
    }

    /// The kind of this message.
    pub open spec fn spec_kind(self) -> SensorKind {
        match self {
            SensorMessage::Imu(_) => SensorKind::Imu,
            SensorMessage::Magnetometer(_) => SensorKind::Magnetometer,
            SensorMessage::Barometer(_) => SensorKind::Barometer,
        }
    }

    /// The header of any sensor message.
    pub fn header(&self) -> (r: &Header)
        ensures
            *r == self.spec_header(),
    {
        match self {
            SensorMessage::Imu(m) => &m.h,
            SensorMessage::Magnetometer(m) => &m.h,
            SensorMessage::Barometer(m) => &m.h,
        }
    }

    /// The sensor id of any sensor message.
    pub fn sensor_id(&self) -> (r: &str)
        ensures
            r@ == self.spec_header().sensor_id@,
    {
        self.header().sensor_id.as_str()
    }

    /// The kind of this message.
    pub fn kind(&self) -> (r: SensorKind)
        ensures
            r == self.spec_kind(),
    {
        match self {
            SensorMessage::Imu(_) => SensorKind::Imu,
            SensorMessage::Magnetometer(_) => SensorKind::Magnetometer,
            SensorMessage::Barometer(_) => SensorKind::Barometer,
        }
    }
}

impl Clone for Header {
    /// An equal copy of the header.
    fn clone(&self) -> (r: Header)
        ensures
            r == *self,
    {
        Header {
            device_id: self.device_id.clone(),
            sensor_id: self.sensor_id.clone(),
            frame_id: self.frame_id.clone(),
            seq: self.seq,
            t_utc_ns: self.t_utc_ns,
            t_mono_ns: self.t_mono_ns,
            pps_locked: self.pps_locked,
            ptp_locked: self.ptp_locked,
            clock_err_ppb: self.clock_err_ppb,
            sigma_t_ns: self.sigma_t_ns,
            schema_v: self.schema_v,
        }
    }
}

impl Clone for ImuMessage {
    /// An equal copy of the message.
    fn clone(&self) -> (r: ImuMessage)
        ensures
            r == *self,
    {
        ImuMessage {
            h: self.h.clone(),
            ax: self.ax,
            ay: self.ay,
            az: self.az,
            gx: self.gx,
            gy: self.gy,
            gz: self.gz,
        }
    }
}

impl Clone for MagnetometerMessage {
    /// An equal copy of the message.
    fn clone(&self) -> (r: MagnetometerMessage)
        ensures
            r == *self,
    {
        MagnetometerMessage { h: self.h.clone(), mx: self.mx, my: self.my, mz: self.mz }
    }
}

impl Clone for BarometerMessage {
    /// An equal copy of the message.
    fn clone(&self) -> (r: BarometerMessage)
        ensures
            r == *self,
    {
        BarometerMessage {
            h: self.h.clone(),
            pressure: self.pressure,
            temperature: self.temperature,
            altitude: self.altitude,
        }
    }
}

impl Clone for SensorMessage {
    /// An equal copy of the message.
    fn clone(&self) -> (r: SensorMessage)
        ensures
            r == *self,
    {
        match self {
            SensorMessage::Imu(m) => SensorMessage::Imu(m.clone()),
            SensorMessage::Magnetometer(m) => SensorMessage::Magnetometer(m.clone()),
            SensorMessage::Barometer(m) => SensorMessage::Barometer(m.clone()),
        }
    }
}

} // verus!
