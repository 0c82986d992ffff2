//! Per-sensor publication state and the derivation of messages from frames.
//!
//! Each sensor, polled or push-fed, owns one `SensorTaskState`. A
//! successful read advances the sequence number by exactly one and stamps
//! a header whose monotonic timestamp never moves backwards, whatever the
//! platform clock returned. A frame derives an inertial message exactly
//! when both acceleration and angular velocity are present, a magnetometer
//! message exactly when the field is present, and a barometer message
//! exactly when a pressure is present.
//!
//! The altitude carried by a barometer message is computed from the
//! pressure under the standard atmosphere; that computation is floating
//! point and runs at the unverified edge, which passes the result in. This
//! module guarantees only its placement: it is used exactly when the
//! pressure is positive, and a non-positive pressure reports altitude 0.

use vstd::prelude::*;
use crate::frame::SensorDataFrame;
use crate::messages::{
    BarometerMessage,
    Header,
    ImuMessage,
    MagnetometerMessage,
    SensorMessage,
};

verus! {

/// The device id stamped on every header published by this hub.
pub const HUB_DEVICE_ID: &'static str = "navigate_hub";

/// The reference-frame id stamped on every header published by this hub.
pub const HUB_FRAME_ID: &'static str = "sensor_frame";

/// Polling period in milliseconds for a sensor at the given rate in Hz,
/// truncated to whole milliseconds.
pub fn period_ms(frequency_hz: u32) -> (r: u32)
    requires
        frequency_hz > 0,
    ensures
        r == 1000u32 / frequency_hz,
{
    1000 / frequency_hz
}

/// The temperature a barometer message reports when the frame carries
/// none, in micro-°C.
pub const DEFAULT_TEMPERATURE_MICRO_C: i64 = 20000000;

/// Publication state of one sensor: how many measurements it has
/// published, and the last monotonic timestamp it stamped.
#[derive(Debug, Clone, Copy, PartialEq, Eq, Structural)]
pub struct SensorTaskState {
    /// Sequence number of the last published measurement; 0 before the
    /// first.
    pub seq: u64,
    /// Monotonic timestamp of the last published measurement, in
    /// nanoseconds; 0 before the first.
    pub last_mono_ns: u64,
}

/// The monotonic timestamp stamped on the next header: the raw clock
/// reading, clamped so it never falls below the last stamped value.
pub open spec fn spec_clamped_mono(last_mono_ns: u64, t_mono_raw_ns: u64) -> u64 {
    if t_mono_raw_ns >= last_mono_ns {
        t_mono_raw_ns
    } else {
        last_mono_ns
    }
}

/// The state after one successful read whose raw monotonic reading was
/// `t_mono_raw_ns`.
pub open spec fn spec_next_state(s: SensorTaskState, t_mono_raw_ns: u64) -> SensorTaskState
    recommends
        s.seq < u64::MAX,
{
    SensorTaskState {
        seq: (s.seq + 1) as u64,
        last_mono_ns: spec_clamped_mono(s.last_mono_ns, t_mono_raw_ns),
    }
}

/// The state after a run of successful reads with the given raw monotonic
/// readings.
pub open spec fn spec_run_states(s: SensorTaskState, raws: Seq<u64>) -> SensorTaskState
    decreases raws.len(),
{
    if raws.len() == 0 {
        s
    } else {
        spec_next_state(spec_run_states(s, raws.drop_last()), raws.last())
    }
}

/// Running a state over concatenated readings equals running it over the
/// first part and then the second.
proof fn lemma_run_states_concat(s: SensorTaskState, a: Seq<u64>, b: Seq<u64>)
    ensures
        spec_run_states(s, a + b) == spec_run_states(spec_run_states(s, a), b),
    decreases b.len(),
{
    if b.len() == 0 {
        assert(a + b =~= a);
    } else {
        assert((a + b).drop_last() =~= a + b.drop_last());
        assert((a + b).last() == b.last());
        lemma_run_states_concat(s, a, b.drop_last());
    }
}

/// A run of successful reads advances the sequence number by exactly its
/// length.
proof fn lemma_run_states_seq(s: SensorTaskState, raws: Seq<u64>)
    requires
        s.seq + raws.len() <= u64::MAX,
    ensures
        spec_run_states(s, raws).seq == s.seq + raws.len(),
    decreases raws.len(),
{
    if raws.len() > 0 {
        lemma_run_states_seq(s, raws.drop_last());
    }
}

/// A run of successful reads never lowers the stamped monotonic timestamp.
proof fn lemma_run_states_mono(s: SensorTaskState, raws: Seq<u64>)
    ensures
        spec_run_states(s, raws).last_mono_ns >= s.last_mono_ns,
    decreases raws.len(),
{
    if raws.len() > 0 {
        lemma_run_states_mono(s, raws.drop_last());
    }
}

/// The state after the first `i + 1` reads of a run, hence the values
/// stamped on the messages of read `i` (counted from 0).
pub open spec fn spec_state_at(s0: SensorTaskState, raws: Seq<u64>, i: int) -> SensorTaskState
    recommends
        0 <= i < raws.len(),
{
    spec_run_states(s0, raws.take(i + 1))
}

/// Sequence numbers of a run have no gaps: starting from a fresh state,
/// the messages of read `i` carry sequence number `i + 1`, so the
/// published values are 1, 2, 3, … in order.
pub proof fn lemma_seq_numbers_consecutive(s0: SensorTaskState, raws: Seq<u64>, i: int)
    requires
        s0.seq + raws.len() <= u64::MAX,
        0 <= i < raws.len(),
    ensures
        spec_state_at(s0, raws, i).seq == s0.seq + i + 1,
{
    lemma_run_states_seq(s0, raws.take(i + 1));
}

/// Monotonic timestamps of a run never decrease: for two reads `i <= j`,
/// the timestamp stamped at read `j` is at least the one stamped at read
/// `i`.
pub proof fn lemma_mono_timestamps_nondecreasing(
    s0: SensorTaskState,
    raws: Seq<u64>,
    i: int,
    j: int,
)
    requires
        0 <= i <= j < raws.len(),
    ensures
        spec_state_at(s0, raws, i).last_mono_ns <= spec_state_at(s0, raws, j).last_mono_ns,
{
    let a = raws.take(i + 1);
    let b = raws.take(j + 1).skip(i + 1);
    assert(raws.take(j + 1) =~= a + b);
    lemma_run_states_concat(s0, a, b);
    lemma_run_states_mono(spec_run_states(s0, a), b);
}

/// The inertial message derived from a frame, for a frame that carries
/// both acceleration and angular velocity.
pub open spec fn spec_imu_message(frame: SensorDataFrame, h: Header) -> SensorMessage
    recommends
        frame.accel is Some,
        frame.gyro is Some,
{
    SensorMessage::Imu(
        ImuMessage {
            h,
            ax: frame.accel->Some_0.x,
            ay: frame.accel->Some_0.y,
            az: frame.accel->Some_0.z,
            gx: frame.gyro->Some_0.x,
            gy: frame.gyro->Some_0.y,
            gz: frame.gyro->Some_0.z,
        },
    )
}

/// The magnetometer message derived from a frame that carries a field.
pub open spec fn spec_mag_message(frame: SensorDataFrame, h: Header) -> SensorMessage
    recommends
        frame.mag is Some,
{
    SensorMessage::Magnetometer(
        MagnetometerMessage {
            h,
            mx: frame.mag->Some_0.x,
            my: frame.mag->Some_0.y,
            mz: frame.mag->Some_0.z,
        },
    )
}

/// The barometer message derived from a frame that carries a pressure.
/// `altitude_um` is the standard-atmosphere altitude for that pressure,
/// supplied by the caller; it is reported only for a positive pressure.
pub open spec fn spec_baro_message(
    frame: SensorDataFrame,
    h: Header,
    altitude_um: i64,
) -> SensorMessage
    recommends
        frame.spec_chosen_pressure() is Some,
{
    let pressure = frame.spec_chosen_pressure()->Some_0;
    SensorMessage::Barometer(
        BarometerMessage {
            h,
            pressure,
            temperature: match frame.temp {
                Some(t) => t,
                None => DEFAULT_TEMPERATURE_MICRO_C,
            },
            altitude: if pressure > 0 {
                altitude_um
            } else {
                0
            },
        },
    )
}

/// Every message a frame derives, in order: inertial, magnetometer,
/// barometer, each present exactly when its data is.
pub open spec fn spec_derived_messages(
    frame: SensorDataFrame,
    h: Header,
    altitude_um: i64,
) -> Seq<SensorMessage> {
    (if frame.accel is Some && frame.gyro is Some {
        seq![spec_imu_message(frame, h)]
    } else {
        Seq::empty()
    }) + (if frame.mag is Some {
        seq![spec_mag_message(frame, h)]
    } else {
        Seq::empty()
    }) + (if frame.spec_chosen_pressure() is Some {
        seq![spec_baro_message(frame, h, altitude_um)]
    } else {
        Seq::empty()
    })
}

/// Every derived message carries the header it was derived under.
pub proof fn lemma_derived_messages_share_header(
    frame: SensorDataFrame,
    h: Header,
    altitude_um: i64,
    k: int,
)
    requires
        0 <= k < spec_derived_messages(frame, h, altitude_um).len(),
    ensures
        spec_derived_messages(frame, h, altitude_um)[k].spec_header() == h,
{
}

/// An inertial message is derived only from a frame that carries both
/// acceleration and angular velocity, and it carries exactly those
/// values: micro-m/s² on the acceleration axes and micro-rad/s on the
/// angular-velocity axes.
pub proof fn lemma_imu_message_complete(
    frame: SensorDataFrame,
    h: Header,
    altitude_um: i64,
    k: int,
)
    requires
        0 <= k < spec_derived_messages(frame, h, altitude_um).len(),
        spec_derived_messages(frame, h, altitude_um)[k] is Imu,
    ensures
        frame.accel is Some,
        frame.gyro is Some,
        spec_derived_messages(frame, h, altitude_um)[k] == spec_imu_message(frame, h),
{
}

/// Derive the messages of one frame under an already stamped header.
pub fn derive_messages(frame: &SensorDataFrame, h: &Header, altitude_um: i64) -> (r: Vec<
    SensorMessage,
>)
    ensures
        r@ == spec_derived_messages(*frame, *h, altitude_um),
{
    let mut r: Vec<SensorMessage> = Vec::new();
    if frame.accel.is_some() && frame.gyro.is_some() {
        let a = frame.accel.unwrap();
        let g = frame.gyro.unwrap();
        r.push(
            SensorMessage::Imu(
                ImuMessage {
                    h: h.clone(),
                    ax: a.x,
                    ay: a.y,
                    az: a.z,
                    gx: g.x,
                    gy: g.y,
                    gz: g.z,
                },
            ),
        );
    }
    if frame.mag.is_some() {
        let m = frame.mag.unwrap();
        r.push(
            SensorMessage::Magnetometer(MagnetometerMessage { h: h.clone(), mx: m.x, my: m.y, mz: m.z }),
        );
    }
    let pressure_opt: Option<i64> = match frame.pressure_static {
        Some(p) => Some(p),
        None => frame.pressure_pitot,
    };
    if let Some(pressure) = pressure_opt {
        let temperature = match frame.temp {
            Some(t) => t,
            None => DEFAULT_TEMPERATURE_MICRO_C,
        };
        let altitude: i64 = if pressure > 0 {
            altitude_um
        } else {
            0
        };
        r.push(
            SensorMessage::Barometer(
                BarometerMessage { h: h.clone(), pressure, temperature, altitude },
            ),
        );
    }
    proof {
        assert(r@ =~= spec_derived_messages(*frame, *h, altitude_um));
    }
    r
}

impl SensorTaskState {
    /// The state of a sensor that has published nothing.
    pub fn new() -> (r: SensorTaskState)
        ensures
            r.seq == 0,
            r.last_mono_ns == 0,
    {
        SensorTaskState { seq: 0, last_mono_ns: 0 }
    }

    /// Process one successful read: advance the sequence number by one,
    /// stamp a header whose monotonic timestamp is clamped to be
    /// non-decreasing, and derive this frame's messages under it.
    ///
    /// `altitude_um` is the standard-atmosphere altitude for the frame's
    /// pressure, supplied by the caller; see the module description.
    pub fn process_frame(
        &mut self,
        sensor_id: &str,
        frame: &SensorDataFrame,
        altitude_um: i64,
        t_utc_ns: u64,
        t_mono_raw_ns: u64,
    ) -> (msgs: Vec<SensorMessage>)
        requires
            old(self).seq < u64::MAX,
        ensures
            *final(self) == spec_next_state(*old(self), t_mono_raw_ns),
            exists|h: Header|
                {
                    &&& h.is_stamped(
                        HUB_DEVICE_ID@,
                        sensor_id@,
                        HUB_FRAME_ID@,
                        final(self).seq,
                        t_utc_ns,
                        final(self).last_mono_ns,
                    )
                    &&& msgs@ == spec_derived_messages(*frame, h, altitude_um)
                },
    {
        self.seq = self.seq + 1;
        let t_mono_ns: u64 = if t_mono_raw_ns >= self.last_mono_ns {
            t_mono_raw_ns
        } else {
            self.last_mono_ns
        };
        self.last_mono_ns = t_mono_ns;
        let header = Header::with_times(
            String::from_str(HUB_DEVICE_ID),
            String::from_str(sensor_id),
            String::from_str(HUB_FRAME_ID),
            self.seq,
            t_utc_ns,
            t_mono_ns,
        );
        derive_messages(frame, &header, altitude_um)
    }
}

} // verus!
