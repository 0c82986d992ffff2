use navigate_sensorhub::mavlink::{
    classify_msg_id, crc16, decode_heartbeat, decode_scaled_imu, decode_scaled_pressure,
    encode_frame, is_flight_controller_autopilot, mavlink_sensor_id, mavlink_sensor_type,
    parse_frame_at, scaled_imu_frame, scaled_imu_mag_frame, scaled_pressure_frame,
    DetectedSensor, DetectedSensorSet, FrameParse, MavVersion, MavlinkSensorType,
    AUTOPILOT_PX4, MSG_ID_HEARTBEAT, MSG_ID_SCALED_IMU, MSG_ID_SCALED_PRESSURE,
};

/// The published check value of CRC-16/MCRF4XX over the digits 1 to 9.
#[test]
fn crc16_matches_the_reference_vector() {
    let digits: Vec<u8> = b"123456789".to_vec();
    assert_eq!(crc16(digits.as_slice()), 0x6F91);
}

fn heartbeat_payload(autopilot: u8) -> Vec<u8> {
    // custom_mode, then type, autopilot, base_mode, system_status, version
    vec![0, 0, 0, 0, 2, autopilot, 0, 4, 3]
}

fn scaled_imu_payload() -> Vec<u8> {
    let mut p: Vec<u8> = Vec::new();
    p.extend_from_slice(&1000u32.to_le_bytes()); // time_boot_ms
    for v in [100i16, -200, 1000, 10, -20, 30, 50, -60, 70] {
        p.extend_from_slice(&v.to_le_bytes());
    }
    p
}

#[test]
fn mixed_version_heartbeats_both_parse() {
    // one frame in each format, back to back on one stream
    let f1 = encode_frame(
        MavVersion::V1,
        0,
        1,
        1,
        MSG_ID_HEARTBEAT,
        heartbeat_payload(AUTOPILOT_PX4).as_slice(),
    )
    .expect("first-format frame encodes");
    let f2 = encode_frame(
        MavVersion::V2,
        1,
        1,
        1,
        MSG_ID_HEARTBEAT,
        heartbeat_payload(AUTOPILOT_PX4).as_slice(),
    )
    .expect("second-format frame encodes");
    let mut stream = f1.clone();
    stream.extend_from_slice(f2.as_slice());

    let mut heartbeats = 0;
    let mut pos = 0usize;
    while pos < stream.len() {
        match parse_frame_at(stream.as_slice(), pos) {
            FrameParse::Parsed { frame, next } => {
                assert_eq!(frame.msg_id, MSG_ID_HEARTBEAT);
                let hb = decode_heartbeat(frame.payload.as_slice());
                assert_eq!(hb.autopilot, AUTOPILOT_PX4);
                assert!(is_flight_controller_autopilot(hb.autopilot));
                heartbeats += 1;
                pos = next;
            }
            other => panic!("unexpected parse outcome: {:?}", other),
        }
    }
    assert_eq!(heartbeats, 2);
}

#[test]
fn corrupted_checksum_is_rejected() {
    let mut f = encode_frame(
        MavVersion::V1,
        0,
        1,
        1,
        MSG_ID_HEARTBEAT,
        heartbeat_payload(AUTOPILOT_PX4).as_slice(),
    )
    .expect("frame encodes");
    let last = f.len() - 1;
    f[last] ^= 0xFF;
    assert!(matches!(
        parse_frame_at(f.as_slice(), 0),
        FrameParse::Invalid { next: 1 }
    ));
}

#[test]
fn truncated_frame_asks_for_more_bytes() {
    let f = encode_frame(
        MavVersion::V2,
        0,
        1,
        1,
        MSG_ID_SCALED_IMU,
        scaled_imu_payload().as_slice(),
    )
    .expect("frame encodes");
    let short = &f[..f.len() - 3];
    assert!(matches!(parse_frame_at(short, 0), FrameParse::Incomplete));
}

#[test]
fn autodiscovery_collects_the_detected_kinds() {
    // a canned stream: one heartbeat, two scaled inertial frames, one
    // scaled pressure frame
    let mut pressure_payload: Vec<u8> = Vec::new();
    pressure_payload.extend_from_slice(&5u32.to_le_bytes());
    pressure_payload.extend_from_slice(&1013.25f32.to_bits().to_le_bytes());
    pressure_payload.extend_from_slice(&0f32.to_bits().to_le_bytes());
    pressure_payload.extend_from_slice(&2500i16.to_le_bytes());

    let mut stream: Vec<u8> = Vec::new();
    for (msg_id, payload) in [
        (MSG_ID_HEARTBEAT, heartbeat_payload(AUTOPILOT_PX4)),
        (MSG_ID_SCALED_IMU, scaled_imu_payload()),
        (MSG_ID_SCALED_IMU, scaled_imu_payload()),
        (MSG_ID_SCALED_PRESSURE, pressure_payload.clone()),
    ] {
        let f = encode_frame(MavVersion::V1, 0, 1, 1, msg_id, payload.as_slice())
            .expect("frame encodes");
        stream.extend_from_slice(f.as_slice());
    }

    let mut detected = DetectedSensorSet::new();
    let mut imu_messages = 0;
    let mut baro_messages = 0;
    let mut pos = 0usize;
    while pos < stream.len() {
        match parse_frame_at(stream.as_slice(), pos) {
            FrameParse::Parsed { frame, next } => {
                if let Some(kind) = classify_msg_id(frame.msg_id) {
                    detected.insert(kind);
                }
                if frame.msg_id == MSG_ID_SCALED_IMU {
                    imu_messages += 1;
                }
                if frame.msg_id == MSG_ID_SCALED_PRESSURE {
                    baro_messages += 1;
                }
                pos = next;
            }
            other => panic!("unexpected parse outcome: {:?}", other),
        }
    }
    assert_eq!(imu_messages, 2);
    assert_eq!(baro_messages, 1);
    let kinds = detected.snapshot();
    assert_eq!(kinds, vec![DetectedSensor::ScaledImu, DetectedSensor::ScaledPressure]);
    assert_eq!(mavlink_sensor_id(DetectedSensor::ScaledImu), "fc_imu0");
    assert_eq!(mavlink_sensor_id(DetectedSensor::ScaledPressure), "fc_baro0");
    assert_eq!(
        mavlink_sensor_type(DetectedSensor::ScaledImu),
        MavlinkSensorType::Imu { instance: 0 }
    );
    assert_eq!(
        mavlink_sensor_type(DetectedSensor::ScaledPressure),
        MavlinkSensorType::Barometer
    );
}

#[test]
fn detected_set_only_grows() {
    let mut set = DetectedSensorSet::new();
    assert!(set.insert(DetectedSensor::ScaledImu));
    assert!(!set.insert(DetectedSensor::ScaledImu));
    assert!(set.insert(DetectedSensor::HighresImu));
    assert!(set.contains(DetectedSensor::ScaledImu));
    assert!(set.contains(DetectedSensor::HighresImu));
    assert_eq!(set.snapshot().len(), 2);
}

#[test]
fn scaled_imu_decodes_and_converts_exactly() {
    let d = decode_scaled_imu(scaled_imu_payload().as_slice());
    assert_eq!(d.time_boot_ms, 1000);
    assert_eq!((d.xacc, d.yacc, d.zacc), (100, -200, 1000));
    assert_eq!((d.xgyro, d.ygyro, d.zgyro), (10, -20, 30));
    assert_eq!((d.xmag, d.ymag, d.zmag), (50, -60, 70));

    let f = scaled_imu_frame(&d);
    let a = f.accel.unwrap();
    // milli-g to micro-m/s²: one milli-g is 9810 micro-m/s²
    assert_eq!((a.x, a.y, a.z), (981_000, -1_962_000, 9_810_000));
    let g = f.gyro.unwrap();
    assert_eq!((g.x, g.y, g.z), (10_000, -20_000, 30_000));
    assert!(f.mag.is_none());

    let m = scaled_imu_mag_frame(&d).mag.unwrap();
    // milli-gauss to micro-µT: one milli-gauss is 0.1 µT
    assert_eq!((m.x, m.y, m.z), (5_000_000, -6_000_000, 7_000_000));
}

#[test]
fn second_format_truncated_payload_zero_extends() {
    // a scaled inertial payload of only the boot time and one
    // acceleration count: the trailing zero bytes were trimmed
    let mut p = scaled_imu_payload();
    for v in p.iter_mut().skip(6) {
        *v = 0;
    }
    let trimmed = &p[..6];
    let f = encode_frame(MavVersion::V2, 3, 1, 1, MSG_ID_SCALED_IMU, trimmed)
        .expect("frame encodes");
    match parse_frame_at(f.as_slice(), 0) {
        FrameParse::Parsed { frame, .. } => {
            assert_eq!(frame.payload.len(), 6);
            let d = decode_scaled_imu(frame.payload.as_slice());
            assert_eq!(d.time_boot_ms, 1000);
            assert_eq!(d.xacc, 100);
            assert_eq!((d.yacc, d.zacc, d.xgyro), (0, 0, 0));
        }
        other => panic!("unexpected parse outcome: {:?}", other),
    }
}

#[test]
fn pressure_payload_carries_float_bits_through() {
    let mut p: Vec<u8> = Vec::new();
    p.extend_from_slice(&5u32.to_le_bytes());
    p.extend_from_slice(&1013.25f32.to_bits().to_le_bytes());
    p.extend_from_slice(&1.5f32.to_bits().to_le_bytes());
    p.extend_from_slice(&2534i16.to_le_bytes());
    let d = decode_scaled_pressure(p.as_slice());
    assert_eq!(f32::from_bits(d.press_abs_bits), 1013.25);
    assert_eq!(f32::from_bits(d.press_diff_bits), 1.5);
    assert_eq!(d.temperature_cdeg, 2534);

    // centi-°C to micro-°C, and a non-zero differential lands in pitot
    let f = scaled_pressure_frame(101_325_000_000, 150_000_000, d.temperature_cdeg);
    assert_eq!(f.pressure_static, Some(101_325_000_000));
    assert_eq!(f.pressure_pitot, Some(150_000_000));
    assert_eq!(f.temp, Some(25_340_000));

    let f2 = scaled_pressure_frame(101_325_000_000, 0, 0);
    assert_eq!(f2.pressure_pitot, None);
}

#[test]
fn non_flight_controller_autopilots_are_rejected() {
    assert!(is_flight_controller_autopilot(0));
    assert!(is_flight_controller_autopilot(3));
    assert!(is_flight_controller_autopilot(5));
    assert!(is_flight_controller_autopilot(6));
    assert!(is_flight_controller_autopilot(12));
    assert!(!is_flight_controller_autopilot(8));
    assert!(!is_flight_controller_autopilot(4));
}

#[test]
fn encoding_refuses_what_the_wire_cannot_carry() {
    let long = vec![0u8; 300];
    assert!(encode_frame(MavVersion::V1, 0, 1, 1, MSG_ID_HEARTBEAT, &long).is_none());
    // an id without a checksum constant cannot be framed
    assert!(encode_frame(MavVersion::V1, 0, 1, 1, 7777, &[0u8; 4]).is_none());
    // the first format carries only one id byte
    assert!(encode_frame(MavVersion::V1, 0, 1, 1, 300, &[0u8; 4]).is_none());
}
