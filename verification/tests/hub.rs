use navigate_sensorhub::hub::{try_next_imu, RecvOutcome, SensorHubService};
use navigate_sensorhub::messages::{Header, ImuMessage, SensorMessage};

fn imu_message(seq: u64) -> SensorMessage {
    SensorMessage::Imu(ImuMessage {
        h: Header::with_times(
            String::from("navigate_hub"),
            String::from("imu0"),
            String::from("sensor_frame"),
            seq,
            1,
            seq,
        ),
        ax: 0,
        ay: 0,
        az: 9_810_000,
        gx: 0,
        gy: 0,
        gz: 0,
    })
}

#[test]
fn publish_without_subscribers_succeeds_and_updates_stats() {
    let mut hub = SensorHubService::new();
    assert!(hub.publish(imu_message(1)).is_ok());
    let status = hub.get_sensor_status();
    assert_eq!(status.len(), 1);
    assert_eq!(status[0].sensor_id, "imu0");
    assert!(status[0].is_active);
    assert!(status[0].is_healthy);
    assert_eq!(status[0].messages_sent, 1);

    assert!(hub.publish(imu_message(2)).is_ok());
    let status = hub.get_sensor_status();
    assert_eq!(status.len(), 1);
    assert_eq!(status[0].messages_sent, 2);
}

#[test]
fn each_sensor_gets_its_own_status_row() {
    let mut hub = SensorHubService::new();
    let mut other = imu_message(1);
    if let SensorMessage::Imu(m) = &mut other {
        m.h.sensor_id = String::from("imu1");
    }
    hub.publish(imu_message(1)).unwrap();
    hub.publish(other).unwrap();
    let status = hub.get_sensor_status();
    assert_eq!(status.len(), 2);
    assert_eq!(status[0].sensor_id, "imu0");
    assert_eq!(status[1].sensor_id, "imu1");
}

#[test]
fn subscribers_receive_messages_in_order() {
    let mut hub = SensorHubService::new();
    let mut rx = hub.subscribe_imu();
    for seq in 1..=3u64 {
        hub.publish(imu_message(seq)).unwrap();
    }
    for expected in 1..=3u64 {
        match try_next_imu(&mut rx) {
            RecvOutcome::Message(m) => assert_eq!(m.h.seq, expected),
            other => panic!("expected a message, got {:?}", other),
        }
    }
    assert!(matches!(try_next_imu(&mut rx), RecvOutcome::Empty));
}

#[test]
fn subscription_sees_no_replay() {
    let mut hub = SensorHubService::new();
    hub.publish(imu_message(1)).unwrap();
    let mut rx = hub.subscribe_imu();
    assert!(matches!(try_next_imu(&mut rx), RecvOutcome::Empty));
}

#[test]
fn slow_subscriber_sees_a_lag_signal_then_newer_messages() {
    let mut hub = SensorHubService::new();
    let mut rx = hub.subscribe_imu();
    // publish far past the inertial channel's depth; the producer is
    // never blocked by the sleeping subscriber
    for seq in 1..=1100u64 {
        hub.publish(imu_message(seq)).unwrap();
    }
    let dropped = match try_next_imu(&mut rx) {
        RecvOutcome::Lagged(n) => n,
        other => panic!("expected a lag signal, got {:?}", other),
    };
    assert!(dropped >= 1);
    // after the signal the stream resumes at the oldest retained
    // message: only messages newer than the drop point arrive
    match try_next_imu(&mut rx) {
        RecvOutcome::Message(m) => assert_eq!(m.h.seq, dropped + 1),
        other => panic!("expected a message, got {:?}", other),
    }
    let mut received: u64 = 1;
    while let RecvOutcome::Message(_) = try_next_imu(&mut rx) {
        received += 1;
    }
    assert_eq!(received, 1100 - dropped);
}

#[test]
fn routing_keeps_kinds_apart() {
    let mut hub = SensorHubService::new();
    let mut rx_imu = hub.subscribe_imu();
    let mut rx_mag = hub.subscribe_magnetometer();
    let mut rx_baro = hub.subscribe_barometer();
    let mut rx_all = hub.subscribe_all();
    hub.publish(imu_message(1)).unwrap();
    // the inertial message reaches its own channel and the unified one,
    // and no other kind's channel
    assert!(matches!(
        try_next_imu(&mut rx_imu),
        RecvOutcome::Message(_)
    ));
    assert!(matches!(
        navigate_sensorhub::hub::try_next_magnetometer(&mut rx_mag),
        RecvOutcome::Empty
    ));
    assert!(matches!(
        navigate_sensorhub::hub::try_next_barometer(&mut rx_baro),
        RecvOutcome::Empty
    ));
    assert!(matches!(
        navigate_sensorhub::hub::try_next_all(&mut rx_all),
        RecvOutcome::Message(_)
    ));
}

#[test]
fn unified_stream_carries_every_kind() {
    let mut hub = SensorHubService::new();
    let mut rx_all = hub.subscribe_all();
    hub.publish(imu_message(1)).unwrap();
    match navigate_sensorhub::hub::try_next_all(&mut rx_all) {
        RecvOutcome::Message(SensorMessage::Imu(m)) => assert_eq!(m.h.seq, 1),
        other => panic!("expected the inertial message, got {:?}", other),
    }
}
