//! The flight-controller telemetry wire protocol: framing, checksums,
//! payload decoding, sensor-kind detection and the grow-only set of
//! detected sensors.
//!
//! Two frame formats are accepted, distinguished by their leading magic
//! byte, and may alternate freely on one stream. A frame's checksum is
//! the CRC-16/MCRF4XX of its bytes after the magic, folded once more with
//! a per-message constant, so a frame of an unknown message cannot be
//! checked and is skipped whole. Decoded messages either carry a
//! recognised sensor kind or are ignored.

use vstd::prelude::*;
use vstd::slice::{slice_subrange, slice_to_vec};
use crate::frame::{SensorDataFrame, Triple};

verus! {

/// One step of the CRC-16/MCRF4XX accumulation.
pub open spec fn spec_crc_step(crc: u16, byte: u8) -> u16 {
    let tmp = ((byte as u16) ^ (crc & 0xff)) & 0xff;
    let tmp2 = (tmp ^ ((tmp << 4) & 0xff)) & 0xff;
    ((crc >> 8) ^ (tmp2 << 8) ^ (tmp2 << 3) ^ (tmp2 >> 4)) as u16
}

/// The CRC-16/MCRF4XX of a byte sequence, from the initial value 0xFFFF.
pub open spec fn spec_crc16(bytes: Seq<u8>) -> u16
    decreases bytes.len(),
{
    if bytes.len() == 0 {
        0xffff
    } else {
        spec_crc_step(spec_crc16(bytes.drop_last()), bytes.last())
    }
}

/// The checksum of a frame region: its CRC folded once more with the
/// message's own constant.
pub open spec fn spec_crc16_with_extra(bytes: Seq<u8>, extra: u8) -> u16 {
    spec_crc_step(spec_crc16(bytes), extra)
}

/// One accumulation step at run time.
pub fn crc_step(crc: u16, byte: u8) -> (r: u16)
    ensures
        r == spec_crc_step(crc, byte),
{
    let tmp: u16 = ((byte as u16) ^ (crc & 0xff)) & 0xff;
    let tmp2: u16 = (tmp ^ ((tmp << 4u16) & 0xff)) & 0xff;
    ((crc >> 8u16) ^ (tmp2 << 8u16) ^ (tmp2 << 3u16) ^ (tmp2 >> 4u16)) as u16
}

/// The CRC-16/MCRF4XX of a byte slice.
pub fn crc16(bytes: &[u8]) -> (r: u16)
    ensures
        r == spec_crc16(bytes@),
{
    let mut crc: u16 = 0xffff;
    let mut i: usize = 0;
    while i < bytes.len()
        invariant
            i <= bytes@.len(),
            crc == spec_crc16(bytes@.take(i as int)),
        decreases bytes@.len() - i,
    {
        proof {
            assert(bytes@.take(i + 1).drop_last() =~= bytes@.take(i as int));
            assert(bytes@.take(i + 1).last() == bytes@[i as int]);
        }
        crc = crc_step(crc, bytes[i]);
        i = i + 1;
    }
    proof {
        assert(bytes@.take(bytes@.len() as int) =~= bytes@);
    }
    crc
}

/// The sensor kinds a telemetry stream can reveal, one per recognised
/// measurement message.
#[derive(Debug, Clone, Copy, PartialEq, Eq, Hash, Structural)]
pub enum DetectedSensor {
    ScaledImu,
    ScaledImu2,
    ScaledImu3,
    HighresImu,
    ScaledPressure,
    AttitudeQuaternion,
}

/// The message id of a heartbeat.
pub const MSG_ID_HEARTBEAT: u32 = 0;

/// The message id of the first scaled inertial message.
pub const MSG_ID_SCALED_IMU: u32 = 26;

/// The message id of the scaled pressure message.
pub const MSG_ID_SCALED_PRESSURE: u32 = 29;

/// The message id of the attitude quaternion message.
pub const MSG_ID_ATTITUDE_QUATERNION: u32 = 31;

/// The message id of the high-resolution inertial message.
pub const MSG_ID_HIGHRES_IMU: u32 = 105;

/// The message id of the second scaled inertial message.
pub const MSG_ID_SCALED_IMU2: u32 = 116;

/// The message id of the third scaled inertial message.
pub const MSG_ID_SCALED_IMU3: u32 = 129;

/// The per-message checksum constant of each message this crate consumes;
/// `None` for a message it does not know, whose frames cannot be checked.
pub open spec fn spec_crc_extra(msg_id: u32) -> Option<u8> {
    if msg_id == MSG_ID_HEARTBEAT {
        Some(50u8)
    } else if msg_id == MSG_ID_SCALED_IMU {
        Some(170u8)
    } else if msg_id == MSG_ID_SCALED_PRESSURE {
        Some(115u8)
    } else if msg_id == MSG_ID_ATTITUDE_QUATERNION {
        Some(246u8)
    } else if msg_id == MSG_ID_HIGHRES_IMU {
        Some(93u8)
    } else if msg_id == MSG_ID_SCALED_IMU2 {
        Some(76u8)
    } else if msg_id == MSG_ID_SCALED_IMU3 {
        Some(46u8)
    } else {
        None
    }
}

/// The checksum constant of a message id.
pub fn crc_extra(msg_id: u32) -> (r: Option<u8>)
    ensures
        r == spec_crc_extra(msg_id),
{
    if msg_id == MSG_ID_HEARTBEAT {
        Some(50)
    } else if msg_id == MSG_ID_SCALED_IMU {
        Some(170)
    } else if msg_id == MSG_ID_SCALED_PRESSURE {
        Some(115)
    } else if msg_id == MSG_ID_ATTITUDE_QUATERNION {
        Some(246)
    } else if msg_id == MSG_ID_HIGHRES_IMU {
        Some(93)
    } else if msg_id == MSG_ID_SCALED_IMU2 {
        Some(76)
    } else if msg_id == MSG_ID_SCALED_IMU3 {
        Some(46)
    } else {
        None
    }
}

/// The sensor kind a message id reveals, if any; heartbeats and unknown
/// messages reveal none.
pub open spec fn spec_classify_msg_id(msg_id: u32) -> Option<DetectedSensor> {
    if msg_id == MSG_ID_SCALED_IMU {
        Some(DetectedSensor::ScaledImu)
    } else if msg_id == MSG_ID_SCALED_IMU2 {
        Some(DetectedSensor::ScaledImu2)
    } else if msg_id == MSG_ID_SCALED_IMU3 {
        Some(DetectedSensor::ScaledImu3)
    } else if msg_id == MSG_ID_HIGHRES_IMU {
        Some(DetectedSensor::HighresImu)
    } else if msg_id == MSG_ID_SCALED_PRESSURE {
        Some(DetectedSensor::ScaledPressure)
    } else if msg_id == MSG_ID_ATTITUDE_QUATERNION {
        Some(DetectedSensor::AttitudeQuaternion)
    } else {
        None
    }
}

/// Classify a message id as the sensor kind it reveals.
pub fn classify_msg_id(msg_id: u32) -> (r: Option<DetectedSensor>)
    ensures
        r == spec_classify_msg_id(msg_id),
{
    if msg_id == MSG_ID_SCALED_IMU {
        Some(DetectedSensor::ScaledImu)
    } else if msg_id == MSG_ID_SCALED_IMU2 {
        Some(DetectedSensor::ScaledImu2)
    } else if msg_id == MSG_ID_SCALED_IMU3 {
        Some(DetectedSensor::ScaledImu3)
    } else if msg_id == MSG_ID_HIGHRES_IMU {
        Some(DetectedSensor::HighresImu)
    } else if msg_id == MSG_ID_SCALED_PRESSURE {
        Some(DetectedSensor::ScaledPressure)
    } else if msg_id == MSG_ID_ATTITUDE_QUATERNION {
        Some(DetectedSensor::AttitudeQuaternion)
    } else {
        None
    }
}

/// The set of sensor kinds seen at least once on one connection.
/// It only ever grows while the connection lives.
#[derive(Debug, Clone, PartialEq, Eq)]
pub struct DetectedSensorSet {
    items: Vec<DetectedSensor>,
}

impl DetectedSensorSet {
    /// The kinds recorded so far, in detection order.
    pub closed spec fn list(self) -> Seq<DetectedSensor> {
        self.items@
    }

    /// The kinds in the set.
    pub open spec fn set(self) -> Set<DetectedSensor> {
        self.list().to_set()
    }

    /// Each kind is recorded at most once.
    pub closed spec fn wf(self) -> bool {
        forall|i: int, j: int|
            0 <= i < j < self.items@.len() ==> self.items@[i] != self.items@[j]
    }

    /// The empty set.
    pub fn new() -> (r: DetectedSensorSet)
        ensures
            r.wf(),
            r.set() == Set::<DetectedSensor>::empty(),
    {
        let r = DetectedSensorSet { items: Vec::new() };
        proof {
            assert(r.set() =~= Set::<DetectedSensor>::empty());
        }
        r
    }

    /// True when the kind has been seen.
    pub fn contains(&self, s: DetectedSensor) -> (r: bool)
        ensures
            r == self.set().contains(s),
    {
        let mut i: usize = 0;
        while i < self.items.len()
            invariant
                i <= self.items@.len(),
                forall|j: int| 0 <= j < i ==> self.items@[j] != s,
            decreases self.items@.len() - i,
        {
            if self.items[i] == s {
                proof {
                    assert(self.items@.contains(s));
                }
                return true;
            }
            i = i + 1;
        }
        proof {
            assert(!self.items@.contains(s));
        }
        false
    }

    /// Record a kind; the set grows by exactly that kind and loses
    /// nothing. Returns true when the kind is new.
    pub fn insert(&mut self, s: DetectedSensor) -> (fresh: bool)
        requires
            old(self).wf(),
        ensures
            final(self).wf(),
            final(self).set() == old(self).set().insert(s),
            old(self).set().subset_of(final(self).set()),
            fresh == !old(self).set().contains(s),
    {
        if self.contains(s) {
            proof {
                assert(final(self).set() =~= old(self).set().insert(s));
            }
            false
        } else {
            self.items.push(s);
            proof {
                let oldl = old(self).list();
                let newl = final(self).list();
                assert(newl =~= oldl.push(s));
                assert forall|x: DetectedSensor| newl.contains(x) implies oldl.contains(x) || x
                    == s by {
                    let i = choose|i: int| 0 <= i < newl.len() && newl[i] == x;
                    if i < oldl.len() {
                        assert(oldl[i] == x);
                    }
                };
                assert forall|x: DetectedSensor| oldl.contains(x) implies newl.contains(x) by {
                    let i = choose|i: int| 0 <= i < oldl.len() && oldl[i] == x;
                    assert(newl[i] == x);
                };
                assert(newl[newl.len() - 1] == s);
                assert(newl.contains(s));
                assert(final(self).set() =~= old(self).set().insert(s));
                assert forall|i: int, j: int| 0 <= i < j < newl.len() implies newl[i]
                    != newl[j] by {
                    if j == newl.len() - 1 {
                        assert(newl[i] == oldl[i]);
                        assert(!oldl.contains(s));
                    }
                };
            }
            true
        }
    }

    /// The kinds seen so far, as a list.
    pub fn snapshot(&self) -> (r: Vec<DetectedSensor>)
        ensures
            r@ == self.list(),
    {
        let mut r: Vec<DetectedSensor> = Vec::new();
        let mut i: usize = 0;
        while i < self.items.len()
            invariant
                i <= self.items@.len(),
                r@ == self.items@.take(i as int),
            decreases self.items@.len() - i,
        {
            r.push(self.items[i]);
            proof {
                assert(self.items@.take(i + 1) =~= self.items@.take(i as int).push(
                    self.items@[i as int],
                ));
            }
            i = i + 1;
        }
        proof {
            assert(self.items@.take(self.items@.len() as int) =~= self.items@);
        }
        r
    }
}

/// The autopilot identifiers accepted as flight controllers during a
/// serial probe.
pub const AUTOPILOT_GENERIC: u8 = 0;

/// The autopilot identifier of an ArduPilot flight stack.
pub const AUTOPILOT_ARDUPILOTMEGA: u8 = 3;

/// The autopilot identifier of a waypoint-only generic flight stack.
pub const AUTOPILOT_GENERIC_WAYPOINTS_ONLY: u8 = 5;

/// The autopilot identifier of a waypoint-and-simple-navigation generic
/// flight stack.
pub const AUTOPILOT_GENERIC_WAYPOINTS_AND_SIMPLE_NAVIGATION_ONLY: u8 = 6;

/// The autopilot identifier of a PX4 flight stack.
pub const AUTOPILOT_PX4: u8 = 12;

/// True for the autopilot identifiers a heartbeat may carry for the probe
/// to accept its port as a flight controller.
pub open spec fn spec_is_flight_controller_autopilot(autopilot: u8) -> bool {
    ||| autopilot == AUTOPILOT_GENERIC
    ||| autopilot == AUTOPILOT_ARDUPILOTMEGA
    ||| autopilot == AUTOPILOT_GENERIC_WAYPOINTS_ONLY
    ||| autopilot == AUTOPILOT_GENERIC_WAYPOINTS_AND_SIMPLE_NAVIGATION_ONLY
    ||| autopilot == AUTOPILOT_PX4
}

/// Decide whether a heartbeat's autopilot identifier names a flight
/// controller.
pub fn is_flight_controller_autopilot(autopilot: u8) -> (r: bool)
    ensures
        r == spec_is_flight_controller_autopilot(autopilot),
{
    autopilot == AUTOPILOT_GENERIC || autopilot == AUTOPILOT_ARDUPILOTMEGA || autopilot
        == AUTOPILOT_GENERIC_WAYPOINTS_ONLY || autopilot
        == AUTOPILOT_GENERIC_WAYPOINTS_AND_SIMPLE_NAVIGATION_ONLY || autopilot == AUTOPILOT_PX4
}

/// The source class a sensor instance represents on the telemetry stream.
#[derive(Debug, Clone, Copy, PartialEq, Eq, Structural)]
pub enum MavlinkSensorType {
    /// A scaled inertial unit; the instance selects among the three
    /// scaled inertial messages.
    Imu { instance: u8 },
    /// The high-resolution inertial unit.
    HighresImu,
    /// The scaled-pressure barometer.
    Barometer,
    /// The attitude quaternion source.
    Attitude,
}

/// The sensor id under which a detected kind is registered.
pub fn mavlink_sensor_id(d: DetectedSensor) -> (r: &'static str)
    ensures
        d == DetectedSensor::ScaledImu ==> r@ == "fc_imu0"@,
        d == DetectedSensor::ScaledImu2 ==> r@ == "fc_imu1"@,
        d == DetectedSensor::ScaledImu3 ==> r@ == "fc_imu2"@,
        d == DetectedSensor::HighresImu ==> r@ == "fc_imu_highres"@,
        d == DetectedSensor::ScaledPressure ==> r@ == "fc_baro0"@,
        d == DetectedSensor::AttitudeQuaternion ==> r@ == "fc_attitude"@,
{
    match d {
        DetectedSensor::ScaledImu => "fc_imu0",
        DetectedSensor::ScaledImu2 => "fc_imu1",
        DetectedSensor::ScaledImu3 => "fc_imu2",
        DetectedSensor::HighresImu => "fc_imu_highres",
        DetectedSensor::ScaledPressure => "fc_baro0",
        DetectedSensor::AttitudeQuaternion => "fc_attitude",
    }
}

/// The source class under which a detected kind is registered.
pub open spec fn spec_mavlink_sensor_type(d: DetectedSensor) -> MavlinkSensorType {
    match d {
        DetectedSensor::ScaledImu => MavlinkSensorType::Imu { instance: 0 },
        DetectedSensor::ScaledImu2 => MavlinkSensorType::Imu { instance: 1 },
        DetectedSensor::ScaledImu3 => MavlinkSensorType::Imu { instance: 2 },
        DetectedSensor::HighresImu => MavlinkSensorType::HighresImu,
        DetectedSensor::ScaledPressure => MavlinkSensorType::Barometer,
        DetectedSensor::AttitudeQuaternion => MavlinkSensorType::Attitude,
    }
}

/// Map a detected kind to the source class of its sensor instance.
pub fn mavlink_sensor_type(d: DetectedSensor) -> (r: MavlinkSensorType)
    ensures
        r == spec_mavlink_sensor_type(d),
{
    match d {
        DetectedSensor::ScaledImu => MavlinkSensorType::Imu { instance: 0 },
        DetectedSensor::ScaledImu2 => MavlinkSensorType::Imu { instance: 1 },
        DetectedSensor::ScaledImu3 => MavlinkSensorType::Imu { instance: 2 },
        DetectedSensor::HighresImu => MavlinkSensorType::HighresImu,
        DetectedSensor::ScaledPressure => MavlinkSensorType::Barometer,
        DetectedSensor::AttitudeQuaternion => MavlinkSensorType::Attitude,
    }
}

/// True when a sensor instance of the given source class consumes the
/// message with the given id.
pub open spec fn spec_sensor_consumes(t: MavlinkSensorType, msg_id: u32) -> bool {
    match t {
        MavlinkSensorType::Imu { instance } => (instance == 0 && msg_id == MSG_ID_SCALED_IMU) || (
        instance == 1 && msg_id == MSG_ID_SCALED_IMU2) || (instance == 2 && msg_id
            == MSG_ID_SCALED_IMU3),
        MavlinkSensorType::HighresImu => msg_id == MSG_ID_HIGHRES_IMU,
        MavlinkSensorType::Barometer => msg_id == MSG_ID_SCALED_PRESSURE,
        MavlinkSensorType::Attitude => msg_id == MSG_ID_ATTITUDE_QUATERNION,
    }
}

/// Decide whether a sensor instance consumes a message.
pub fn sensor_consumes(t: &MavlinkSensorType, msg_id: u32) -> (r: bool)
    ensures
        r == spec_sensor_consumes(*t, msg_id),
{
    match t {
        MavlinkSensorType::Imu { instance } => (*instance == 0 && msg_id == MSG_ID_SCALED_IMU) || (
        *instance == 1 && msg_id == MSG_ID_SCALED_IMU2) || (*instance == 2 && msg_id
            == MSG_ID_SCALED_IMU3),
        MavlinkSensorType::HighresImu => msg_id == MSG_ID_HIGHRES_IMU,
        MavlinkSensorType::Barometer => msg_id == MSG_ID_SCALED_PRESSURE,
        MavlinkSensorType::Attitude => msg_id == MSG_ID_ATTITUDE_QUATERNION,
    }
}

/// The magic byte that opens a first-format frame.
pub const MAGIC_V1: u8 = 0xFE;

/// The magic byte that opens a second-format frame.
pub const MAGIC_V2: u8 = 0xFD;

/// The two accepted frame formats.
#[derive(Debug, Clone, Copy, PartialEq, Eq, Structural)]
pub enum MavVersion {
    V1,
    V2,
}

/// One decoded wire frame.
#[derive(Debug, Clone, PartialEq, Eq)]
pub struct MavFrame {
    /// The format the frame arrived in.
    pub version: MavVersion,
    /// The sender's frame sequence counter.
    pub seq: u8,
    /// The sender's system id.
    pub system_id: u8,
    /// The sender's component id.
    pub component_id: u8,
    /// The message id.
    pub msg_id: u32,
    /// The payload bytes as they stood on the wire, possibly shorter
    /// than the message's full length in the second format.
    pub payload: Vec<u8>,
}

/// The content of a wire frame; what parsing determines.
pub ghost struct MavFrameModel {
    pub version: MavVersion,
    pub seq: u8,
    pub system_id: u8,
    pub component_id: u8,
    pub msg_id: u32,
    pub payload: Seq<u8>,
}

impl MavFrame {
    /// The content of this frame.
    pub open spec fn model(self) -> MavFrameModel {
        MavFrameModel {
            version: self.version,
            seq: self.seq,
            system_id: self.system_id,
            component_id: self.component_id,
            msg_id: self.msg_id,
            payload: self.payload@,
        }
    }
}

/// The outcome of parsing at one position of the byte stream.
pub ghost enum SpecFrameParse {
    /// A checked frame of a known message; `next` follows it.
    Parsed { frame: MavFrameModel, next: int },
    /// A structurally whole frame of a message this crate does not know;
    /// its checksum cannot be checked, and `next` skips it whole.
    Unknown { msg_id: u32, next: int },
    /// The byte at the position opens no frame.
    BadMagic,
    /// More bytes are needed to finish the frame.
    Incomplete,
    /// A malformed or corrupted frame; `next` re-scans one byte on.
    Invalid { next: int },
}

/// The little-endian u16 at offset `i` of `b`.
pub open spec fn spec_wire_u16(b: Seq<u8>, i: int) -> u16 {
    (b[i] as u16) | ((b[i + 1] as u16) << 8)
}

/// Parse one frame at `pos`. The two formats are told apart by the magic
/// byte, so they may alternate freely on one stream.
pub open spec fn spec_parse_frame_at(b: Seq<u8>, pos: int) -> SpecFrameParse
    recommends
        0 <= pos < b.len(),
{
    let magic = b[pos];
    if magic == MAGIC_V1 {
        if pos + 2 > b.len() {
            SpecFrameParse::Incomplete
        } else {
            let len = b[pos + 1] as int;
            if pos + 8 + len > b.len() {
                SpecFrameParse::Incomplete
            } else {
                let msg_id = b[pos + 5] as u32;
                let next = pos + 8 + len;
                match spec_crc_extra(msg_id) {
                    None => SpecFrameParse::Unknown { msg_id, next },
                    Some(extra) => {
                        let expected = spec_crc16_with_extra(
                            b.subrange(pos + 1, pos + 6 + len),
                            extra,
                        );
                        if spec_wire_u16(b, pos + 6 + len) == expected {
                            SpecFrameParse::Parsed {
                                frame: MavFrameModel {
                                    version: MavVersion::V1,
                                    seq: b[pos + 2],
                                    system_id: b[pos + 3],
                                    component_id: b[pos + 4],
                                    msg_id,
                                    payload: b.subrange(pos + 6, pos + 6 + len),
                                },
                                next,
                            }
                        } else {
                            SpecFrameParse::Invalid { next: pos + 1 }
                        }
                    },
                }
            }
        }
    } else if magic == MAGIC_V2 {
        if pos + 3 > b.len() {
            SpecFrameParse::Incomplete
        } else if b[pos + 2] != 0 {
            SpecFrameParse::Invalid { next: pos + 1 }
        } else {
            let len = b[pos + 1] as int;
            if pos + 12 + len > b.len() {
                SpecFrameParse::Incomplete
            } else {
                let msg_id = (b[pos + 7] as u32) | ((b[pos + 8] as u32) << 8) | ((b[pos
                    + 9] as u32) << 16);
                let next = pos + 12 + len;
                match spec_crc_extra(msg_id) {
                    None => SpecFrameParse::Unknown { msg_id, next },
                    Some(extra) => {
                        let expected = spec_crc16_with_extra(
                            b.subrange(pos + 1, pos + 10 + len),
                            extra,
                        );
                        if spec_wire_u16(b, pos + 10 + len) == expected {
                            SpecFrameParse::Parsed {
                                frame: MavFrameModel {
                                    version: MavVersion::V2,
                                    seq: b[pos + 4],
                                    system_id: b[pos + 5],
                                    component_id: b[pos + 6],
                                    msg_id,
                                    payload: b.subrange(pos + 10, pos + 10 + len),
                                },
                                next,
                            }
                        } else {
                            SpecFrameParse::Invalid { next: pos + 1 }
                        }
                    },
                }
            }
        }
    } else {
        SpecFrameParse::BadMagic
    }
}

/// The outcome of parsing at one position, at run time.
#[derive(Debug, Clone, PartialEq, Eq)]
pub enum FrameParse {
    /// A checked frame of a known message; `next` follows it.
    Parsed { frame: MavFrame, next: usize },
    /// A whole frame of an unknown message, skipped without a check.
    Unknown { msg_id: u32, next: usize },
    /// The byte at the position opens no frame.
    BadMagic,
    /// More bytes are needed.
    Incomplete,
    /// A malformed or corrupted frame; `next` re-scans one byte on.
    Invalid { next: usize },
}

/// Parse one frame of either format at `pos`.
pub fn parse_frame_at(b: &[u8], pos: usize) -> (r: FrameParse)
    requires
        pos < b@.len(),
    ensures
        match spec_parse_frame_at(b@, pos as int) {
            SpecFrameParse::Parsed { frame, next } => r matches FrameParse::Parsed {
                frame: f,
                next: n,
            } && f.model() == frame && n == next,
            SpecFrameParse::Unknown { msg_id, next } => r == (FrameParse::Unknown {
                msg_id,
                next: next as usize,
            }),
            SpecFrameParse::BadMagic => r == FrameParse::BadMagic,
            SpecFrameParse::Incomplete => r == FrameParse::Incomplete,
            SpecFrameParse::Invalid { next } => r == (FrameParse::Invalid {
                next: next as usize,
            }),
        },
{
    let total: usize = b.len();
    let magic = b[pos];
    if magic == MAGIC_V1 {
        if total - pos < 2 {
            return FrameParse::Incomplete;
        }
        let len = b[pos + 1] as usize;
        if total - pos < 8 + len {
            return FrameParse::Incomplete;
        }
        let msg_id = b[pos + 5] as u32;
        let next = pos + 8 + len;
        match crc_extra(msg_id) {
            None => FrameParse::Unknown { msg_id, next },
            Some(extra) => {
                let body = slice_subrange(b, pos + 1, pos + 6 + len);
                let expected = crc_step(crc16(body), extra);
                let wire = (b[pos + 6 + len] as u16) | ((b[pos + 7 + len] as u16) << 8u16);
                if wire == expected {
                    let payload = slice_to_vec(slice_subrange(b, pos + 6, pos + 6 + len));
                    FrameParse::Parsed {
                        frame: MavFrame {
                            version: MavVersion::V1,
                            seq: b[pos + 2],
                            system_id: b[pos + 3],
                            component_id: b[pos + 4],
                            msg_id,
                            payload,
                        },
                        next,
                    }
                } else {
                    FrameParse::Invalid { next: pos + 1 }
                }
            },
        }
    } else if magic == MAGIC_V2 {
        if total - pos < 3 {
            return FrameParse::Incomplete;
        }
        if b[pos + 2] != 0 {
            return FrameParse::Invalid { next: pos + 1 };
        }
        let len = b[pos + 1] as usize;
        if total - pos < 12 + len {
            return FrameParse::Incomplete;
        }
        let msg_id = (b[pos + 7] as u32) | ((b[pos + 8] as u32) << 8u32) | ((b[pos + 9] as u32)
            << 16u32);
        let next = pos + 12 + len;
        match crc_extra(msg_id) {
            None => FrameParse::Unknown { msg_id, next },
            Some(extra) => {
                let body = slice_subrange(b, pos + 1, pos + 10 + len);
                let expected = crc_step(crc16(body), extra);
                let wire = (b[pos + 10 + len] as u16) | ((b[pos + 11 + len] as u16) << 8u16);
                if wire == expected {
                    let payload = slice_to_vec(slice_subrange(b, pos + 10, pos + 10 + len));
                    FrameParse::Parsed {
                        frame: MavFrame {
                            version: MavVersion::V2,
                            seq: b[pos + 4],
                            system_id: b[pos + 5],
                            component_id: b[pos + 6],
                            msg_id,
                            payload,
                        },
                        next,
                    }
                } else {
                    FrameParse::Invalid { next: pos + 1 }
                }
            },
        }
    } else {
        FrameParse::BadMagic
    }
}

/// The encoding of a frame carrying the given message, without the
/// second format's optional trailer.
pub open spec fn spec_encode_frame(
    version: MavVersion,
    seq: u8,
    system_id: u8,
    component_id: u8,
    msg_id: u32,
    payload: Seq<u8>,
    extra: u8,
) -> Seq<u8> {
    let body = if version == MavVersion::V1 {
        seq![payload.len() as u8, seq, system_id, component_id, msg_id as u8] + payload
    } else {
        seq![
            payload.len() as u8,
            0u8,
            0u8,
            seq,
            system_id,
            component_id,
            (msg_id & 0xff) as u8,
            ((msg_id >> 8) & 0xff) as u8,
            ((msg_id >> 16) & 0xff) as u8,
        ] + payload
    };
    let c = spec_crc16_with_extra(body, extra);
    let magic = if version == MavVersion::V1 {
        MAGIC_V1
    } else {
        MAGIC_V2
    };
    seq![magic] + body + seq![(c & 0xff) as u8, ((c >> 8) & 0xff) as u8]
}

/// Encode a frame for the wire. Fails for a payload longer than one
/// length byte can carry, a message id this crate has no checksum
/// constant for, or an id the first format cannot carry.
pub fn encode_frame(
    version: MavVersion,
    seq: u8,
    system_id: u8,
    component_id: u8,
    msg_id: u32,
    payload: &[u8],
) -> (r: Option<Vec<u8>>)
    ensures
        r is Some <==> {
            &&& payload@.len() <= 255
            &&& spec_crc_extra(msg_id) is Some
            &&& (version == MavVersion::V1 ==> msg_id <= 255)
        },
        r matches Some(v) ==> v@ == spec_encode_frame(
            version,
            seq,
            system_id,
            component_id,
            msg_id,
            payload@,
            spec_crc_extra(msg_id)->Some_0,
        ),
{
    if payload.len() > 255 {
        return None;
    }
    let extra = match crc_extra(msg_id) {
        None => { return None; },
        Some(e) => e,
    };
    let mut body: Vec<u8> = Vec::new();
    if matches!(version, MavVersion::V1) {
        if msg_id > 255 {
            return None;
        }
        body.push(payload.len() as u8);
        body.push(seq);
        body.push(system_id);
        body.push(component_id);
        body.push(msg_id as u8);
    } else {
        body.push(payload.len() as u8);
        body.push(0);
        body.push(0);
        body.push(seq);
        body.push(system_id);
        body.push(component_id);
        body.push((msg_id & 0xff) as u8);
        body.push(((msg_id >> 8u32) & 0xff) as u8);
        body.push(((msg_id >> 16u32) & 0xff) as u8);
    }
    let mut payload_vec = slice_to_vec(payload);
    body.append(&mut payload_vec);
    proof {
        if version == MavVersion::V1 {
            assert(body@ =~= seq![
                payload@.len() as u8,
                seq,
                system_id,
                component_id,
                msg_id as u8,
            ] + payload@);
        } else {
            assert(body@ =~= seq![
                payload@.len() as u8,
                0u8,
                0u8,
                seq,
                system_id,
                component_id,
                (msg_id & 0xff) as u8,
                ((msg_id >> 8) & 0xff) as u8,
                ((msg_id >> 16) & 0xff) as u8,
            ] + payload@);
        }
    }
    let c = crc_step(crc16(body.as_slice()), extra);
    let mut out: Vec<u8> = Vec::new();
    out.push(
        if matches!(version, MavVersion::V1) {
            MAGIC_V1
        } else {
            MAGIC_V2
        },
    );
    let mut body_moved = body;
    out.append(&mut body_moved);
    out.push((c & 0xff) as u8);
    out.push(((c >> 8u16) & 0xff) as u8);
    proof {
        assert(out@ =~= spec_encode_frame(
            version,
            seq,
            system_id,
            component_id,
            msg_id,
            payload@,
            spec_crc_extra(msg_id)->Some_0,
        ));
    }
    Some(out)
}

/// Parsing an encoded frame returns exactly the encoded content, in
/// either format, whatever follows it on the stream: the parser and the
/// encoder agree on the wire layout.
pub proof fn lemma_parse_encoded_frame(
    version: MavVersion,
    seq: u8,
    system_id: u8,
    component_id: u8,
    msg_id: u32,
    payload: Seq<u8>,
    rest: Seq<u8>,
)
    requires
        payload.len() <= 255,
        spec_crc_extra(msg_id) is Some,
        version == MavVersion::V1 ==> msg_id <= 255,
        msg_id < 0x1000000,
    ensures
        ({
            let enc = spec_encode_frame(
                version,
                seq,
                system_id,
                component_id,
                msg_id,
                payload,
                spec_crc_extra(msg_id)->Some_0,
            );
            spec_parse_frame_at(enc + rest, 0) == (SpecFrameParse::Parsed {
                frame: MavFrameModel {
                    version,
                    seq,
                    system_id,
                    component_id,
                    msg_id,
                    payload,
                },
                next: enc.len() as int,
            })
        }),
{
    let extra = spec_crc_extra(msg_id)->Some_0;
    let enc = spec_encode_frame(version, seq, system_id, component_id, msg_id, payload, extra);
    let b = enc + rest;
    let len = payload.len() as int;
    if version == MavVersion::V1 {
        let body = seq![
            payload.len() as u8,
            seq,
            system_id,
            component_id,
            msg_id as u8,
        ] + payload;
        let c = spec_crc16_with_extra(body, extra);
        assert(enc =~= seq![MAGIC_V1] + body + seq![(c & 0xff) as u8, ((c >> 8) & 0xff) as u8]);
        assert(b.len() == 8 + len + rest.len());
        assert(b[0] == MAGIC_V1);
        assert(b[1] == payload.len() as u8);
        assert(b[1] as int == len);
        assert(b[2] == seq);
        assert(b[3] == system_id);
        assert(b[4] == component_id);
        assert(b[5] == msg_id as u8);
        assert(b[5] as u32 == msg_id);
        assert(b.subrange(1, 6 + len) =~= body);
        assert(b[6 + len] == (c & 0xff) as u8);
        assert(b[7 + len] == ((c >> 8) & 0xff) as u8);
        assert((((c & 0xff) as u8) as u16) | (((((c >> 8) & 0xff) as u8) as u16) << 8)
            == c) by (bit_vector);
        assert(spec_wire_u16(b, 6 + len) == c);
        assert(b.subrange(6, 6 + len) =~= payload);
    } else {
        let body = seq![
            payload.len() as u8,
            0u8,
            0u8,
            seq,
            system_id,
            component_id,
            (msg_id & 0xff) as u8,
            ((msg_id >> 8) & 0xff) as u8,
            ((msg_id >> 16) & 0xff) as u8,
        ] + payload;
        let c = spec_crc16_with_extra(body, extra);
        assert(enc =~= seq![MAGIC_V2] + body + seq![(c & 0xff) as u8, ((c >> 8) & 0xff) as u8]);
        assert(b.len() == 12 + len + rest.len());
        assert(b[0] == MAGIC_V2);
        assert(b[1] == payload.len() as u8);
        assert(b[1] as int == len);
        assert(b[2] == 0u8);
        assert(b[4] == seq);
        assert(b[5] == system_id);
        assert(b[6] == component_id);
        assert(b[7] == (msg_id & 0xff) as u8);
        assert(b[8] == ((msg_id >> 8) & 0xff) as u8);
        assert(b[9] == ((msg_id >> 16) & 0xff) as u8);
        let wire_id = (b[7] as u32) | ((b[8] as u32) << 8) | ((b[9] as u32) << 16);
        assert(((((msg_id & 0xff) as u8) as u32) | (((((msg_id >> 8) & 0xff) as u8) as u32)
            << 8) | (((((msg_id >> 16) & 0xff) as u8) as u32) << 16)) == msg_id) by (bit_vector)
            requires
                msg_id < 0x1000000,
        ;
        assert(wire_id == msg_id);
        assert(b.subrange(1, 10 + len) =~= body);
        assert(b[10 + len] == (c & 0xff) as u8);
        assert(b[11 + len] == ((c >> 8) & 0xff) as u8);
        assert((((c & 0xff) as u8) as u16) | (((((c >> 8) & 0xff) as u8) as u16) << 8)
            == c) by (bit_vector);
        assert(spec_wire_u16(b, 10 + len) == c);
        assert(b.subrange(10, 10 + len) =~= payload);
    }
}

/// A payload brought to a message's full length: the second frame format
/// may truncate trailing zero bytes, which decoding restores, and any
/// trailing extension bytes are ignored.
pub open spec fn spec_payload_at_length(p: Seq<u8>, n: int) -> Seq<u8> {
    if p.len() >= n {
        p.take(n)
    } else {
        p + Seq::new((n - p.len()) as nat, |i: int| 0u8)
    }
}

/// Bring a payload to a message's full length.
pub fn payload_at_length(p: &[u8], n: usize) -> (r: Vec<u8>)
    ensures
        r@ == spec_payload_at_length(p@, n as int),
        r@.len() == n,
{
    if p.len() >= n {
        let r = slice_to_vec(slice_subrange(p, 0, n));
        proof {
            assert(r@ =~= spec_payload_at_length(p@, n as int));
        }
        r
    } else {
        let mut r = slice_to_vec(p);
        proof {
            assert(r@ =~= spec_payload_at_length(p@, n as int).take(r@.len() as int));
        }
        while r.len() < n
            invariant
                p@.len() < n,
                p@.len() <= r@.len() <= n,
                r@ == spec_payload_at_length(p@, n as int).take(r@.len() as int),
            decreases n - r@.len(),
        {
            r.push(0);
            proof {
                assert(r@ =~= spec_payload_at_length(p@, n as int).take(r@.len() as int));
            }
        }
        proof {
            assert(spec_payload_at_length(p@, n as int).take(n as int) =~= spec_payload_at_length(
                p@,
                n as int,
            ));
        }
        r
    }
}

/// The little-endian u32 at offset `i` of a payload.
pub open spec fn spec_wire_u32(b: Seq<u8>, i: int) -> u32 {
    (b[i] as u32) | ((b[i + 1] as u32) << 8) | ((b[i + 2] as u32) << 16) | ((b[i + 3] as u32)
        << 24)
}

/// The little-endian u64 at offset `i` of a payload.
pub open spec fn spec_wire_u64(b: Seq<u8>, i: int) -> u64 {
    (spec_wire_u32(b, i) as u64) | ((spec_wire_u32(b, i + 4) as u64) << 32)
}

/// The little-endian i16 at offset `i` of a payload, in two's complement.
pub open spec fn spec_wire_i16(b: Seq<u8>, i: int) -> i16 {
    spec_wire_u16(b, i) as i16
}

fn wire_u16(b: &[u8], i: usize) -> (r: u16)
    requires
        i + 2 <= b@.len(),
    ensures
        r == spec_wire_u16(b@, i as int),
{
    (b[i] as u16) | ((b[i + 1] as u16) << 8u16)
}

fn wire_i16(b: &[u8], i: usize) -> (r: i16)
    requires
        i + 2 <= b@.len(),
    ensures
        r == spec_wire_i16(b@, i as int),
{
    #[verifier::truncate] (wire_u16(b, i) as i16)
}

fn wire_u32(b: &[u8], i: usize) -> (r: u32)
    requires
        i + 4 <= b@.len(),
    ensures
        r == spec_wire_u32(b@, i as int),
{
    (b[i] as u32) | ((b[i + 1] as u32) << 8u32) | ((b[i + 2] as u32) << 16u32) | ((b[i
        + 3] as u32) << 24u32)
}

fn wire_u64(b: &[u8], i: usize) -> (r: u64)
    requires
        i + 8 <= b@.len(),
    ensures
        r == spec_wire_u64(b@, i as int),
{
    let _len: usize = b.len();
    (wire_u32(b, i) as u64) | ((wire_u32(b, i + 4) as u64) << 32u64)
}

/// The heartbeat payload.
#[derive(Debug, Clone, Copy, PartialEq, Eq, Structural)]
pub struct HeartbeatData {
    pub custom_mode: u32,
    pub mavtype: u8,
    pub autopilot: u8,
    pub base_mode: u8,
    pub system_status: u8,
    pub mavlink_version: u8,
}

/// The payload length of a heartbeat.
pub const HEARTBEAT_LEN: usize = 9;

/// The heartbeat fields of a payload brought to full length.
pub open spec fn spec_decode_heartbeat(p: Seq<u8>) -> HeartbeatData {
    let b = spec_payload_at_length(p, HEARTBEAT_LEN as int);
    HeartbeatData {
        custom_mode: spec_wire_u32(b, 0),
        mavtype: b[4],
        autopilot: b[5],
        base_mode: b[6],
        system_status: b[7],
        mavlink_version: b[8],
    }
}

/// Decode a heartbeat payload.
pub fn decode_heartbeat(p: &[u8]) -> (r: HeartbeatData)
    ensures
        r == spec_decode_heartbeat(p@),
{
    let b = payload_at_length(p, HEARTBEAT_LEN);
    HeartbeatData {
        custom_mode: wire_u32(b.as_slice(), 0),
        mavtype: b[4],
        autopilot: b[5],
        base_mode: b[6],
        system_status: b[7],
        mavlink_version: b[8],
    }
}

/// A scaled inertial payload: any of the three scaled inertial messages,
/// which share one layout. Units on the wire: milli-g, milli-rad/s,
/// milli-gauss.
#[derive(Debug, Clone, Copy, PartialEq, Eq, Structural)]
pub struct ScaledImuData {
    pub time_boot_ms: u32,
    pub xacc: i16,
    pub yacc: i16,
    pub zacc: i16,
    pub xgyro: i16,
    pub ygyro: i16,
    pub zgyro: i16,
    pub xmag: i16,
    pub ymag: i16,
    pub zmag: i16,
}

/// The payload length of a scaled inertial message.
pub const SCALED_IMU_LEN: usize = 22;

/// The scaled inertial fields of a payload brought to full length.
pub open spec fn spec_decode_scaled_imu(p: Seq<u8>) -> ScaledImuData {
    let b = spec_payload_at_length(p, SCALED_IMU_LEN as int);
    ScaledImuData {
        time_boot_ms: spec_wire_u32(b, 0),
        xacc: spec_wire_i16(b, 4),
        yacc: spec_wire_i16(b, 6),
        zacc: spec_wire_i16(b, 8),
        xgyro: spec_wire_i16(b, 10),
        ygyro: spec_wire_i16(b, 12),
        zgyro: spec_wire_i16(b, 14),
        xmag: spec_wire_i16(b, 16),
        ymag: spec_wire_i16(b, 18),
        zmag: spec_wire_i16(b, 20),
    }
}

/// Decode a scaled inertial payload.
pub fn decode_scaled_imu(p: &[u8]) -> (r: ScaledImuData)
    ensures
        r == spec_decode_scaled_imu(p@),
{
    let b = payload_at_length(p, SCALED_IMU_LEN);
    let bs = b.as_slice();
    ScaledImuData {
        time_boot_ms: wire_u32(bs, 0),
        xacc: wire_i16(bs, 4),
        yacc: wire_i16(bs, 6),
        zacc: wire_i16(bs, 8),
        xgyro: wire_i16(bs, 10),
        ygyro: wire_i16(bs, 12),
        zgyro: wire_i16(bs, 14),
        xmag: wire_i16(bs, 16),
        ymag: wire_i16(bs, 18),
        zmag: wire_i16(bs, 20),
    }
}

/// A scaled pressure payload. The two pressures arrive as 32-bit float
/// bit patterns in hPa; this crate carries the patterns through and the
/// unverified edge converts them to micro-Pa. The temperature arrives in
/// centi-°C.
#[derive(Debug, Clone, Copy, PartialEq, Eq, Structural)]
pub struct ScaledPressureData {
    pub time_boot_ms: u32,
    pub press_abs_bits: u32,
    pub press_diff_bits: u32,
    pub temperature_cdeg: i16,
}

/// The payload length of a scaled pressure message.
pub const SCALED_PRESSURE_LEN: usize = 14;

/// The scaled pressure fields of a payload brought to full length.
pub open spec fn spec_decode_scaled_pressure(p: Seq<u8>) -> ScaledPressureData {
    let b = spec_payload_at_length(p, SCALED_PRESSURE_LEN as int);
    ScaledPressureData {
        time_boot_ms: spec_wire_u32(b, 0),
        press_abs_bits: spec_wire_u32(b, 4),
        press_diff_bits: spec_wire_u32(b, 8),
        temperature_cdeg: spec_wire_i16(b, 12),
    }
}

/// Decode a scaled pressure payload.
pub fn decode_scaled_pressure(p: &[u8]) -> (r: ScaledPressureData)
    ensures
        r == spec_decode_scaled_pressure(p@),
{
    let b = payload_at_length(p, SCALED_PRESSURE_LEN);
    let bs = b.as_slice();
    ScaledPressureData {
        time_boot_ms: wire_u32(bs, 0),
        press_abs_bits: wire_u32(bs, 4),
        press_diff_bits: wire_u32(bs, 8),
        temperature_cdeg: wire_i16(bs, 12),
    }
}

/// An attitude quaternion payload: the quaternion components and body
/// rates as 32-bit float bit patterns.
#[derive(Debug, Clone, Copy, PartialEq, Eq, Structural)]
pub struct AttitudeQuaternionData {
    pub time_boot_ms: u32,
    pub q1_bits: u32,
    pub q2_bits: u32,
    pub q3_bits: u32,
    pub q4_bits: u32,
    pub rollspeed_bits: u32,
    pub pitchspeed_bits: u32,
    pub yawspeed_bits: u32,
}

/// The payload length of an attitude quaternion message.
pub const ATTITUDE_QUATERNION_LEN: usize = 32;

/// The attitude quaternion fields of a payload brought to full length.
pub open spec fn spec_decode_attitude_quaternion(p: Seq<u8>) -> AttitudeQuaternionData {
    let b = spec_payload_at_length(p, ATTITUDE_QUATERNION_LEN as int);
    AttitudeQuaternionData {
        time_boot_ms: spec_wire_u32(b, 0),
        q1_bits: spec_wire_u32(b, 4),
        q2_bits: spec_wire_u32(b, 8),
        q3_bits: spec_wire_u32(b, 12),
        q4_bits: spec_wire_u32(b, 16),
        rollspeed_bits: spec_wire_u32(b, 20),
        pitchspeed_bits: spec_wire_u32(b, 24),
        yawspeed_bits: spec_wire_u32(b, 28),
    }
}

/// Decode an attitude quaternion payload.
pub fn decode_attitude_quaternion(p: &[u8]) -> (r: AttitudeQuaternionData)
    ensures
        r == spec_decode_attitude_quaternion(p@),
{
    let b = payload_at_length(p, ATTITUDE_QUATERNION_LEN);
    let bs = b.as_slice();
    AttitudeQuaternionData {
        time_boot_ms: wire_u32(bs, 0),
        q1_bits: wire_u32(bs, 4),
        q2_bits: wire_u32(bs, 8),
        q3_bits: wire_u32(bs, 12),
        q4_bits: wire_u32(bs, 16),
        rollspeed_bits: wire_u32(bs, 20),
        pitchspeed_bits: wire_u32(bs, 24),
        yawspeed_bits: wire_u32(bs, 28),
    }
}

/// A high-resolution inertial payload: SI quantities as 32-bit float bit
/// patterns.
#[derive(Debug, Clone, Copy, PartialEq, Eq, Structural)]
pub struct HighresImuData {
    pub time_usec: u64,
    pub xacc_bits: u32,
    pub yacc_bits: u32,
    pub zacc_bits: u32,
    pub xgyro_bits: u32,
    pub ygyro_bits: u32,
    pub zgyro_bits: u32,
    pub xmag_bits: u32,
    pub ymag_bits: u32,
    pub zmag_bits: u32,
    pub abs_pressure_bits: u32,
    pub diff_pressure_bits: u32,
    pub pressure_alt_bits: u32,
    pub temperature_bits: u32,
    pub fields_updated: u16,
}

/// The payload length of a high-resolution inertial message.
pub const HIGHRES_IMU_LEN: usize = 62;

/// The high-resolution inertial fields of a payload brought to full
/// length.
pub open spec fn spec_decode_highres_imu(p: Seq<u8>) -> HighresImuData {
    let b = spec_payload_at_length(p, HIGHRES_IMU_LEN as int);
    HighresImuData {
        time_usec: spec_wire_u64(b, 0),
        xacc_bits: spec_wire_u32(b, 8),
        yacc_bits: spec_wire_u32(b, 12),
        zacc_bits: spec_wire_u32(b, 16),
        xgyro_bits: spec_wire_u32(b, 20),
        ygyro_bits: spec_wire_u32(b, 24),
        zgyro_bits: spec_wire_u32(b, 28),
        xmag_bits: spec_wire_u32(b, 32),
        ymag_bits: spec_wire_u32(b, 36),
        zmag_bits: spec_wire_u32(b, 40),
        abs_pressure_bits: spec_wire_u32(b, 44),
        diff_pressure_bits: spec_wire_u32(b, 48),
        pressure_alt_bits: spec_wire_u32(b, 52),
        temperature_bits: spec_wire_u32(b, 56),
        fields_updated: spec_wire_u16(b, 60),
    }
}

/// Decode a high-resolution inertial payload.
pub fn decode_highres_imu(p: &[u8]) -> (r: HighresImuData)
    ensures
        r == spec_decode_highres_imu(p@),
{
    let b = payload_at_length(p, HIGHRES_IMU_LEN);
    let bs = b.as_slice();
    HighresImuData {
        time_usec: wire_u64(bs, 0),
        xacc_bits: wire_u32(bs, 8),
        yacc_bits: wire_u32(bs, 12),
        zacc_bits: wire_u32(bs, 16),
        xgyro_bits: wire_u32(bs, 20),
        ygyro_bits: wire_u32(bs, 24),
        zgyro_bits: wire_u32(bs, 28),
        xmag_bits: wire_u32(bs, 32),
        ymag_bits: wire_u32(bs, 36),
        zmag_bits: wire_u32(bs, 40),
        abs_pressure_bits: wire_u32(bs, 44),
        diff_pressure_bits: wire_u32(bs, 48),
        pressure_alt_bits: wire_u32(bs, 52),
        temperature_bits: wire_u32(bs, 56),
        fields_updated: wire_u16(bs, 60),
    }
}

/// Micro-m/s² per wire milli-g: one milli-g is 9.81 mm/s².
pub const MICRO_MS2_PER_MILLI_G: i64 = 9810;

/// Micro-rad/s per wire milli-rad/s.
pub const MICRO_RAD_PER_MILLI_RAD: i64 = 1000;

/// Micro-µT per wire milli-gauss: one milli-gauss is 0.1 µT.
pub const MICRO_UT_PER_MILLI_GAUSS: i64 = 100000;

/// Micro-°C per wire centi-°C.
pub const MICRO_C_PER_CENTI_C: i64 = 10000;

/// The inertial frame of a scaled inertial message: acceleration from
/// milli-g to micro-m/s², angular velocity from milli-rad/s to
/// micro-rad/s. The magnetometer field travels separately.
pub fn scaled_imu_frame(d: &ScaledImuData) -> (r: SensorDataFrame)
    ensures
        r.accel is Some,
        r.accel->Some_0.x == d.xacc * MICRO_MS2_PER_MILLI_G,
        r.accel->Some_0.y == d.yacc * MICRO_MS2_PER_MILLI_G,
        r.accel->Some_0.z == d.zacc * MICRO_MS2_PER_MILLI_G,
        r.gyro is Some,
        r.gyro->Some_0.x == d.xgyro * MICRO_RAD_PER_MILLI_RAD,
        r.gyro->Some_0.y == d.ygyro * MICRO_RAD_PER_MILLI_RAD,
        r.gyro->Some_0.z == d.zgyro * MICRO_RAD_PER_MILLI_RAD,
        r.mag is None,
        r.temp is None,
        r.pressure_static is None,
        r.pressure_pitot is None,
        r.quaternion is None,
        r.angular_velocity_body is None,
{
    let mut r = SensorDataFrame::empty();
    r.accel = Some(
        Triple {
            x: d.xacc as i64 * MICRO_MS2_PER_MILLI_G,
            y: d.yacc as i64 * MICRO_MS2_PER_MILLI_G,
            z: d.zacc as i64 * MICRO_MS2_PER_MILLI_G,
        },
    );
    r.gyro = Some(
        Triple {
            x: d.xgyro as i64 * MICRO_RAD_PER_MILLI_RAD,
            y: d.ygyro as i64 * MICRO_RAD_PER_MILLI_RAD,
            z: d.zgyro as i64 * MICRO_RAD_PER_MILLI_RAD,
        },
    );
    r
}

/// The magnetometer frame of a scaled inertial message: field from
/// milli-gauss to micro-µT.
pub fn scaled_imu_mag_frame(d: &ScaledImuData) -> (r: SensorDataFrame)
    ensures
        r.mag is Some,
        r.mag->Some_0.x == d.xmag * MICRO_UT_PER_MILLI_GAUSS,
        r.mag->Some_0.y == d.ymag * MICRO_UT_PER_MILLI_GAUSS,
        r.mag->Some_0.z == d.zmag * MICRO_UT_PER_MILLI_GAUSS,
        r.accel is None,
        r.gyro is None,
        r.temp is None,
        r.pressure_static is None,
        r.pressure_pitot is None,
{
    let mut r = SensorDataFrame::empty();
    r.mag = Some(
        Triple {
            x: d.xmag as i64 * MICRO_UT_PER_MILLI_GAUSS,
            y: d.ymag as i64 * MICRO_UT_PER_MILLI_GAUSS,
            z: d.zmag as i64 * MICRO_UT_PER_MILLI_GAUSS,
        },
    );
    r
}

/// The barometer frame of a scaled pressure message, from pressures
/// already converted to micro-Pa by the caller. A zero differential
/// pressure means no airspeed sensor is fitted, so the pitot field is
/// reported only when it is non-zero; the temperature converts from
/// centi-°C to micro-°C.
pub fn scaled_pressure_frame(press_abs_upa: i64, press_diff_upa: i64, temperature_cdeg: i16) -> (r:
    SensorDataFrame)
    ensures
        r.pressure_static == Some(press_abs_upa),
        r.pressure_pitot == if press_diff_upa != 0 {
            Some(press_diff_upa)
        } else {
            None::<i64>
        },
        r.temp is Some,
        r.temp->Some_0 == temperature_cdeg * MICRO_C_PER_CENTI_C,
        r.accel is None,
        r.gyro is None,
        r.mag is None,
{
    let mut r = SensorDataFrame::empty();
    r.pressure_static = Some(press_abs_upa);
    if press_diff_upa != 0 {
        r.pressure_pitot = Some(press_diff_upa);
    }
    r.temp = Some(temperature_cdeg as i64 * MICRO_C_PER_CENTI_C);
    r
}

} // verus!
