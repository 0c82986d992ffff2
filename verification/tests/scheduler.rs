use navigate_sensorhub::frame::{SensorDataFrame, Triple};
use navigate_sensorhub::messages::SensorMessage;
use navigate_sensorhub::scheduler::{period_ms, SensorTaskState};

fn full_frame() -> SensorDataFrame {
    let mut f = SensorDataFrame::empty();
    f.accel = Some(Triple { x: 1, y: 2, z: 3 });
    f.gyro = Some(Triple { x: 4, y: 5, z: 6 });
    f.mag = Some(Triple { x: 7, y: 8, z: 9 });
    f.temp = Some(21_000_000);
    f.pressure_static = Some(101_325_000_000);
    f
}

#[test]
fn period_of_default_rate_is_ten_ms() {
    assert_eq!(period_ms(100), 10);
    assert_eq!(period_ms(50), 20);
    assert_eq!(period_ms(3), 333);
}

#[test]
fn sequence_numbers_count_from_one_without_gaps() {
    let mut state = SensorTaskState::new();
    let frame = full_frame();
    for expected_seq in 1..=5u64 {
        let msgs = state.process_frame("imu0", &frame, 988_000_000, 10, 20);
        assert_eq!(state.seq, expected_seq);
        for m in &msgs {
            assert_eq!(m.header().seq, expected_seq);
        }
    }
}

#[test]
fn monotonic_timestamp_never_decreases() {
    let mut state = SensorTaskState::new();
    let frame = full_frame();
    let m1 = state.process_frame("imu0", &frame, 0, 10, 500);
    assert_eq!(m1[0].header().t_mono_ns, 500);
    // the raw clock goes backwards; the stamped value must not
    let m2 = state.process_frame("imu0", &frame, 0, 11, 400);
    assert_eq!(m2[0].header().t_mono_ns, 500);
    let m3 = state.process_frame("imu0", &frame, 0, 12, 600);
    assert_eq!(m3[0].header().t_mono_ns, 600);
}

#[test]
fn full_frame_derives_imu_mag_baro_in_order() {
    let mut state = SensorTaskState::new();
    let frame = full_frame();
    let msgs = state.process_frame("imu0", &frame, 988_000_000, 10, 20);
    assert_eq!(msgs.len(), 3);
    match &msgs[0] {
        SensorMessage::Imu(m) => {
            assert_eq!((m.ax, m.ay, m.az), (1, 2, 3));
            assert_eq!((m.gx, m.gy, m.gz), (4, 5, 6));
        }
        _ => panic!("first derived message must be inertial"),
    }
    match &msgs[1] {
        SensorMessage::Magnetometer(m) => {
            assert_eq!((m.mx, m.my, m.mz), (7, 8, 9));
        }
        _ => panic!("second derived message must be the magnetometer"),
    }
    match &msgs[2] {
        SensorMessage::Barometer(m) => {
            assert_eq!(m.pressure, 101_325_000_000);
            assert_eq!(m.temperature, 21_000_000);
            assert_eq!(m.altitude, 988_000_000);
        }
        _ => panic!("third derived message must be the barometer"),
    }
}

#[test]
fn imu_message_needs_both_accel_and_gyro() {
    let mut state = SensorTaskState::new();
    let mut frame = full_frame();
    frame.gyro = None;
    let msgs = state.process_frame("imu0", &frame, 0, 10, 20);
    assert_eq!(msgs.len(), 2);
    assert!(matches!(msgs[0], SensorMessage::Magnetometer(_)));
    assert!(matches!(msgs[1], SensorMessage::Barometer(_)));
}

#[test]
fn pitot_pressure_serves_when_static_is_absent() {
    let mut state = SensorTaskState::new();
    let mut frame = SensorDataFrame::empty();
    frame.pressure_pitot = Some(2_000_000);
    let msgs = state.process_frame("pitot0", &frame, 42, 10, 20);
    assert_eq!(msgs.len(), 1);
    match &msgs[0] {
        SensorMessage::Barometer(m) => {
            assert_eq!(m.pressure, 2_000_000);
            // no temperature in the frame: the default 20 °C applies
            assert_eq!(m.temperature, 20_000_000);
            assert_eq!(m.altitude, 42);
        }
        _ => panic!("expected a barometer message"),
    }
}

#[test]
fn non_positive_pressure_reports_altitude_zero() {
    let mut state = SensorTaskState::new();
    let mut frame = SensorDataFrame::empty();
    frame.pressure_static = Some(0);
    let msgs = state.process_frame("baro0", &frame, 987_654, 10, 20);
    match &msgs[0] {
        SensorMessage::Barometer(m) => assert_eq!(m.altitude, 0),
        _ => panic!("expected a barometer message"),
    }
}

#[test]
fn empty_frame_derives_nothing() {
    let mut state = SensorTaskState::new();
    let frame = SensorDataFrame::empty();
    let msgs = state.process_frame("imu0", &frame, 0, 10, 20);
    assert!(msgs.is_empty());
    // the read still counts in the sequence
    assert_eq!(state.seq, 1);
}
