//! The publication hub: one broadcast channel per message kind plus a
//! unified channel, and per-sensor status tracking.
//!
//! A publish routes the message by kind onto its own channel and onto
//! the unified channel, then updates this sensor's statistics; it
//! always succeeds, whether or not anyone subscribes. A ghost log per
//! channel records every message handed to that channel's sender, in
//! order, so the routing is part of the publish contract. Slow
//! subscribers lose the oldest undelivered messages and observe a lag
//! signal; the publisher never blocks on them.

use vstd::prelude::*;
use crate::clock;
use crate::messages::{
    BarometerMessage,
    ImuMessage,
    MagnetometerMessage,
    SensorMessage,
};
use crate::strutil;

verus! {

#[verifier::external_type_specification]
#[verifier::external_body]
#[verifier::reject_recursive_types(T)]
pub struct ExBroadcastSender<T>(tokio::sync::broadcast::Sender<T>);

#[verifier::external_type_specification]
#[verifier::external_body]
#[verifier::reject_recursive_types(T)]
pub struct ExBroadcastReceiver<T>(tokio::sync::broadcast::Receiver<T>);

/// What polling a subscription yields.
#[derive(Debug)]
pub enum RecvOutcome<T> {
    /// The next undelivered message.
    Message(T),
    /// Nothing is waiting.
    Empty,
    /// The subscriber fell behind and this many oldest messages were
    /// dropped for it; later polls resume at the oldest retained one.
    Lagged(u64),
    /// The channel's sender is gone.
    Closed,
}

/// Relies on tokio's broadcast::channel: a channel that keeps at least
/// `capacity` undelivered messages per subscriber (the depth is rounded
/// up to a power of two) and drops the oldest for a subscriber that
/// falls behind.
#[verifier::external_body]
fn bcast_channel<T: Clone>(capacity: usize) -> (tokio::sync::broadcast::Sender<T>, tokio::sync::broadcast::Receiver<T>)
    requires
        1 <= capacity <= 0x1000_0000,
{
    tokio::sync::broadcast::channel(capacity)
}

/// Relies on tokio's broadcast Sender::send: queues the message for
/// every current subscriber without blocking; the count of subscribers
/// it reached comes back, or nothing when there are none.
#[verifier::external_body]
fn bcast_send<T: Clone>(tx: &tokio::sync::broadcast::Sender<T>, value: T) -> (r: Option<usize>)
    ensures
        r matches Some(n) ==> n >= 1,
{
    tx.send(value).ok()
}

/// Relies on tokio's broadcast Sender::subscribe: a fresh subscription
/// that sees only messages sent after this call.
#[verifier::external_body]
fn bcast_subscribe<T: Clone>(tx: &tokio::sync::broadcast::Sender<T>) -> tokio::sync::broadcast::Receiver<T>
{
    tx.subscribe()
}

/// Relies on tokio's broadcast Receiver::try_recv: the next undelivered
/// message, emptiness, a lag signal naming how many messages were
/// dropped, or closure.
#[verifier::external_body]
fn bcast_try_recv<T: Clone>(rx: &mut tokio::sync::broadcast::Receiver<T>) -> (r: RecvOutcome<T>) {
    match rx.try_recv() {
        Ok(v) => RecvOutcome::Message(v),
        Err(tokio::sync::broadcast::error::TryRecvError::Empty) => RecvOutcome::Empty,
        Err(tokio::sync::broadcast::error::TryRecvError::Lagged(n)) => RecvOutcome::Lagged(n),
        Err(tokio::sync::broadcast::error::TryRecvError::Closed) => RecvOutcome::Closed,
    }
}

/// The buffer depth of the inertial channel.
pub const IMU_CHANNEL_DEPTH: usize = 1000;

/// The buffer depth of the magnetometer channel.
pub const MAG_CHANNEL_DEPTH: usize = 800;

/// The buffer depth of the barometer channel.
pub const BARO_CHANNEL_DEPTH: usize = 800;

/// The buffer depth of the unified channel.
pub const ALL_CHANNEL_DEPTH: usize = 2000;

/// Publication statistics of one sensor.
#[derive(Debug, Clone, PartialEq, Eq)]
pub struct SensorStats {
    /// True once the sensor has published.
    pub is_active: bool,
    /// Health flag; clear reporting is a forward extension.
    pub is_healthy: bool,
    /// Configured rate in Hz, where known.
    pub frequency_hz: u32,
    /// Messages published so far (saturating).
    pub messages_sent: u64,
    /// Wall-clock time of the last publish, in nanoseconds.
    pub last_message_time_ns: u64,
    /// The last error surfaced for this sensor, if any.
    pub error_message: Option<String>,
}

impl Default for SensorStats {
    /// Statistics of a sensor that has not published: inactive, healthy,
    /// nothing sent.
    fn default() -> (r: SensorStats)
        ensures
            r.is_active == false,
            r.is_healthy == true,
            r.frequency_hz == 0,
            r.messages_sent == 0,
            r.last_message_time_ns == 0,
            r.error_message is None,
    {
        SensorStats {
            is_active: false,
            is_healthy: true,
            frequency_hz: 0,
            messages_sent: 0,
            last_message_time_ns: 0,
            error_message: None,
        }
    }
}

/// One row of a status snapshot.
#[derive(Debug, Clone, PartialEq, Eq)]
pub struct SensorStatus {
    pub sensor_id: String,
    pub is_active: bool,
    pub is_healthy: bool,
    pub frequency_hz: u32,
    pub messages_sent: u64,
    pub last_message_time_ns: u64,
    pub error_message: Option<String>,
}

/// Statistics of a sensor that has not published.
pub open spec fn spec_default_stats() -> SensorStats {
    SensorStats {
        is_active: false,
        is_healthy: true,
        frequency_hz: 0,
        messages_sent: 0,
        last_message_time_ns: 0,
        error_message: None,
    }
}

/// The statistics of one sensor after it publishes at `now_ns`: active,
/// one more message counted (saturating), stamped with the time.
pub open spec fn spec_stats_after_publish(s: SensorStats, now_ns: u64) -> SensorStats {
    SensorStats {
        is_active: true,
        messages_sent: if s.messages_sent < u64::MAX {
            (s.messages_sent + 1) as u64
        } else {
            u64::MAX
        },
        last_message_time_ns: now_ns,
        ..s
    }
}

/// How a publish by the sensor with the given id changes the statistics
/// table: the first row with that id updates in place and every other
/// row stands, or, when no row has the id, one fresh updated row is
/// appended and every old row stands.
pub open spec fn spec_publish_updates_table(
    oldt: Seq<(String, SensorStats)>,
    newt: Seq<(String, SensorStats)>,
    id: Seq<char>,
    now_ns: u64,
) -> bool {
    if exists|i: int| 0 <= i < oldt.len() && oldt[i].0@ == id {
        exists|i: int|
            {
                &&& 0 <= i < oldt.len()
                &&& oldt[i].0@ == id
                &&& forall|j: int| 0 <= j < i ==> oldt[j].0@ != id
                &&& newt == oldt.update(
                    i,
                    (oldt[i].0, spec_stats_after_publish(oldt[i].1, now_ns)),
                )
            }
    } else {
        &&& newt.len() == oldt.len() + 1
        &&& newt.take(oldt.len() as int) == oldt
        &&& newt.last().0@ == id
        &&& newt.last().1 == spec_stats_after_publish(spec_default_stats(), now_ns)
    }
}

/// The publication hub.
pub struct SensorHubService {
    imu_tx: tokio::sync::broadcast::Sender<ImuMessage>,
    mag_tx: tokio::sync::broadcast::Sender<MagnetometerMessage>,
    baro_tx: tokio::sync::broadcast::Sender<BarometerMessage>,
    all_tx: tokio::sync::broadcast::Sender<SensorMessage>,
    stats: Vec<(String, SensorStats)>,
    imu_log: Ghost<Seq<ImuMessage>>,
    mag_log: Ghost<Seq<MagnetometerMessage>>,
    baro_log: Ghost<Seq<BarometerMessage>>,
    all_log: Ghost<Seq<SensorMessage>>,
}

impl SensorHubService {
    /// The statistics table: one row per sensor that has published.
    pub closed spec fn stats_table(self) -> Seq<(String, SensorStats)> {
        self.stats@
    }

    /// Every message handed to the inertial channel's sender, in order.
    pub closed spec fn imu_sent(self) -> Seq<ImuMessage> {
        self.imu_log@
    }

    /// Every message handed to the magnetometer channel's sender, in
    /// order.
    pub closed spec fn mag_sent(self) -> Seq<MagnetometerMessage> {
        self.mag_log@
    }

    /// Every message handed to the barometer channel's sender, in order.
    pub closed spec fn baro_sent(self) -> Seq<BarometerMessage> {
        self.baro_log@
    }

    /// Every message handed to the unified channel's sender, in order.
    pub closed spec fn all_sent(self) -> Seq<SensorMessage> {
        self.all_log@
    }

    /// The four channel senders, in kind order then unified; a publish
    /// leaves them untouched.
    pub closed spec fn senders(self) -> (
        tokio::sync::broadcast::Sender<ImuMessage>,
        tokio::sync::broadcast::Sender<MagnetometerMessage>,
        tokio::sync::broadcast::Sender<BarometerMessage>,
        tokio::sync::broadcast::Sender<SensorMessage>,
    ) {
        (self.imu_tx, self.mag_tx, self.baro_tx, self.all_tx)
    }

    /// A hub with fresh channels, no statistics and nothing sent.
    pub fn new() -> (r: SensorHubService)
        ensures
            r.stats_table().len() == 0,
            r.imu_sent().len() == 0,
            r.mag_sent().len() == 0,
            r.baro_sent().len() == 0,
            r.all_sent().len() == 0,
    {
        let (imu_tx, _imu_rx) = bcast_channel::<ImuMessage>(IMU_CHANNEL_DEPTH);
        let (mag_tx, _mag_rx) = bcast_channel::<MagnetometerMessage>(MAG_CHANNEL_DEPTH);
        let (baro_tx, _baro_rx) = bcast_channel::<BarometerMessage>(BARO_CHANNEL_DEPTH);
        let (all_tx, _all_rx) = bcast_channel::<SensorMessage>(ALL_CHANNEL_DEPTH);
        SensorHubService {
            imu_tx,
            mag_tx,
            baro_tx,
            all_tx,
            stats: Vec::new(),
            imu_log: Ghost(Seq::empty()),
            mag_log: Ghost(Seq::empty()),
            baro_log: Ghost(Seq::empty()),
            all_log: Ghost(Seq::empty()),
        }
    }

    /// Update this sensor's statistics row, appending one if it has
    /// none.
    fn update_sensor_stats(&mut self, sensor_id: &str, now_ns: u64)
        ensures
            spec_publish_updates_table(
                old(self).stats_table(),
                final(self).stats_table(),
                sensor_id@,
                now_ns,
            ),
            final(self).imu_tx == old(self).imu_tx,
            final(self).mag_tx == old(self).mag_tx,
            final(self).baro_tx == old(self).baro_tx,
            final(self).all_tx == old(self).all_tx,
            final(self).imu_log == old(self).imu_log,
            final(self).mag_log == old(self).mag_log,
            final(self).baro_log == old(self).baro_log,
            final(self).all_log == old(self).all_log,
    {
        let mut i: usize = 0;
        let n = self.stats.len();
        while i < n
            invariant
                n == self.stats@.len(),
                self.stats@ == old(self).stats@,
                self.imu_tx == old(self).imu_tx,
                self.mag_tx == old(self).mag_tx,
                self.baro_tx == old(self).baro_tx,
                self.all_tx == old(self).all_tx,
                self.imu_log == old(self).imu_log,
                self.mag_log == old(self).mag_log,
                self.baro_log == old(self).baro_log,
                self.all_log == old(self).all_log,
                i <= n,
                forall|j: int| 0 <= j < i ==> self.stats@[j].0@ != sensor_id@,
            decreases n - i,
        {
            if strutil::str_eq(self.stats[i].0.as_str(), sensor_id) {
                let ghost oldt = self.stats@;
                let ghost witness = i as int;
                let row = &mut self.stats[i];
                row.1.is_active = true;
                row.1.messages_sent = if row.1.messages_sent < u64::MAX {
                    row.1.messages_sent + 1
                } else {
                    u64::MAX
                };
                row.1.last_message_time_ns = now_ns;
                proof {
                    assert(final(self).stats@ =~= oldt.update(
                        witness,
                        (oldt[witness].0, spec_stats_after_publish(oldt[witness].1, now_ns)),
                    ));
                }
                return;
            }
            i = i + 1;
        }
        let ghost oldt = self.stats@;
        let mut fresh = SensorStats::default();
        fresh.is_active = true;
        fresh.messages_sent = 1;
        fresh.last_message_time_ns = now_ns;
        self.stats.push((sensor_id.to_owned(), fresh));
        proof {
            assert(final(self).stats@.take(oldt.len() as int) =~= oldt);
            assert(!(exists|k: int| 0 <= k < oldt.len() && oldt[k].0@ == sensor_id@));
        }
    }

    /// Publish one measurement: clone it onto its kind's channel and
    /// onto the unified channel, and update this sensor's statistics.
    /// Publishing always succeeds; with no subscribers the sends fall
    /// away silently. The contract routes by kind over the send logs:
    /// exactly this message reaches its kind's channel and the unified
    /// channel, and the other kinds' channels see nothing.
    pub fn publish(&mut self, message: SensorMessage) -> (r: Result<(), String>)
        ensures
            r is Ok,
            final(self).senders() == old(self).senders(),
            final(self).all_sent() == old(self).all_sent().push(message),
            message matches SensorMessage::Imu(m) ==> (final(self).imu_sent() == old(
                self
            ).imu_sent().push(m) && final(self).mag_sent() == old(self).mag_sent() && final(
                self
            ).baro_sent() == old(self).baro_sent()),
            message matches SensorMessage::Magnetometer(m) ==> (final(self).mag_sent() == old(
                self
            ).mag_sent().push(m) && final(self).imu_sent() == old(self).imu_sent() && final(
                self
            ).baro_sent() == old(self).baro_sent()),
            message matches SensorMessage::Barometer(m) ==> (final(self).baro_sent() == old(
                self
            ).baro_sent().push(m) && final(self).imu_sent() == old(self).imu_sent() && final(
                self
            ).mag_sent() == old(self).mag_sent()),
            exists|now_ns: u64|
                spec_publish_updates_table(
                    old(self).stats_table(),
                    final(self).stats_table(),
                    message.spec_header().sensor_id@,
                    now_ns,
                ),
    {
        match &message {
            SensorMessage::Imu(m) => {
                let _ = bcast_send(&self.imu_tx, m.clone());
                self.imu_log = Ghost(self.imu_log@.push(*m));
            },
            SensorMessage::Magnetometer(m) => {
                let _ = bcast_send(&self.mag_tx, m.clone());
                self.mag_log = Ghost(self.mag_log@.push(*m));
            },
            SensorMessage::Barometer(m) => {
                let _ = bcast_send(&self.baro_tx, m.clone());
                self.baro_log = Ghost(self.baro_log@.push(*m));
            },
        }
        let sensor_id = message.header().sensor_id.clone();
        self.all_log = Ghost(self.all_log@.push(message));
        let _ = bcast_send(&self.all_tx, message);
        let now = clock::system_time_now();
        let now_ns = clock::since_unix_epoch_ns(&now);
        self.update_sensor_stats(sensor_id.as_str(), now_ns);
        proof {
            assert(spec_publish_updates_table(
                old(self).stats_table(),
                final(self).stats_table(),
                message.spec_header().sensor_id@,
                now_ns,
            ));
        }
        Ok(())
    }

    /// A snapshot of every sensor's statistics, in table order.
    pub fn get_sensor_status(&self) -> (r: Vec<SensorStatus>)
        ensures
            r@.len() == self.stats_table().len(),
            forall|j: int|
                0 <= j < r@.len() ==> {
                    let (id, st) = self.stats_table()[j];
                    &&& (#[trigger] r@[j]).sensor_id@ == id@
                    &&& r@[j].is_active == st.is_active
                    &&& r@[j].is_healthy == st.is_healthy
                    &&& r@[j].frequency_hz == st.frequency_hz
                    &&& r@[j].messages_sent == st.messages_sent
                    &&& r@[j].last_message_time_ns == st.last_message_time_ns
                    &&& r@[j].error_message == st.error_message
                },
    {
        let mut r: Vec<SensorStatus> = Vec::new();
        let mut i: usize = 0;
        let n = self.stats.len();
        while i < n
            invariant
                n == self.stats@.len(),
                i <= n,
                r@.len() == i,
                forall|j: int|
                    0 <= j < i ==> {
                        let (id, st) = self.stats@[j];
                        &&& (#[trigger] r@[j]).sensor_id@ == id@
                        &&& r@[j].is_active == st.is_active
                        &&& r@[j].is_healthy == st.is_healthy
                        &&& r@[j].frequency_hz == st.frequency_hz
                        &&& r@[j].messages_sent == st.messages_sent
                        &&& r@[j].last_message_time_ns == st.last_message_time_ns
                        &&& r@[j].error_message == st.error_message
                    },
            decreases n - i,
        {
            let entry = &self.stats[i];
            r.push(
                SensorStatus {
                    sensor_id: entry.0.clone(),
                    is_active: entry.1.is_active,
                    is_healthy: entry.1.is_healthy,
                    frequency_hz: entry.1.frequency_hz,
                    messages_sent: entry.1.messages_sent,
                    last_message_time_ns: entry.1.last_message_time_ns,
                    error_message: entry.1.error_message.clone(),
                },
            );
            i = i + 1;
        }
        r
    }

    /// Subscribe to inertial messages published after this call.
    ///
    /// A subscription and the polls on it carry no contract: what a
    /// receiver yields is the channel's delivery behaviour, which the
    /// send logs do not model; the run-time tests observe it.
    pub fn subscribe_imu(&self) -> tokio::sync::broadcast::Receiver<ImuMessage> {
        bcast_subscribe(&self.imu_tx)
    }

    /// Subscribe to magnetometer messages published after this call.
    pub fn subscribe_magnetometer(&self) -> tokio::sync::broadcast::Receiver<MagnetometerMessage> {
        bcast_subscribe(&self.mag_tx)
    }

    /// Subscribe to barometer messages published after this call.
    pub fn subscribe_barometer(&self) -> tokio::sync::broadcast::Receiver<BarometerMessage> {
        bcast_subscribe(&self.baro_tx)
    }

    /// Subscribe to the unified stream of messages published after this
    /// call.
    pub fn subscribe_all(&self) -> tokio::sync::broadcast::Receiver<SensorMessage> {
        bcast_subscribe(&self.all_tx)
    }
}

/// Poll an inertial subscription without waiting.
pub fn try_next_imu(rx: &mut tokio::sync::broadcast::Receiver<ImuMessage>) -> RecvOutcome<
    ImuMessage,
> {
    bcast_try_recv(rx)
}

/// Poll a magnetometer subscription without waiting.
pub fn try_next_magnetometer(
    rx: &mut tokio::sync::broadcast::Receiver<MagnetometerMessage>,
) -> RecvOutcome<MagnetometerMessage> {
    bcast_try_recv(rx)
}

/// Poll a barometer subscription without waiting.
pub fn try_next_barometer(
    rx: &mut tokio::sync::broadcast::Receiver<BarometerMessage>,
) -> RecvOutcome<BarometerMessage> {
    bcast_try_recv(rx)
}

/// Poll a unified-stream subscription without waiting.
pub fn try_next_all(rx: &mut tokio::sync::broadcast::Receiver<SensorMessage>) -> RecvOutcome<
    SensorMessage,
> {
    bcast_try_recv(rx)
}

} // verus!
