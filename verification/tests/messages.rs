use navigate_sensorhub::codec::{decode_header, decode_message, encode_header, encode_message};
use navigate_sensorhub::messages::{
    BarometerMessage, Header, ImuMessage, MagnetometerMessage, SensorKind, SensorMessage,
};

fn sample_header(seq: u64) -> Header {
    Header::with_times(
        String::from("navigate_hub"),
        String::from("imu0"),
        String::from("sensor_frame"),
        seq,
        1_700_000_000_000_000_000,
        123_456_789,
    )
}

#[test]
fn test_header_creation() {
    let header = Header::new(
        "test_device".to_string(),
        "imu0".to_string(),
        "base_link".to_string(),
        42,
    );

    assert_eq!(header.device_id, "test_device");
    assert_eq!(header.sensor_id, "imu0");
    assert_eq!(header.seq, 42);
    assert_eq!(header.schema_v, 1);
    assert!(header.t_utc_ns > 0);
}

#[test]
fn header_defaults_are_stamped() {
    let h = sample_header(7);
    assert_eq!(h.seq, 7);
    assert_eq!(h.t_utc_ns, 1_700_000_000_000_000_000);
    assert_eq!(h.t_mono_ns, 123_456_789);
    assert!(!h.pps_locked);
    assert!(!h.ptp_locked);
    assert_eq!(h.clock_err_ppb, 0);
    assert_eq!(h.sigma_t_ns, 1000);
    assert_eq!(h.schema_v, 1);
}

#[test]
fn header_codec_round_trips_bit_exactly() {
    let mut h = sample_header(99);
    h.pps_locked = true;
    h.clock_err_ppb = -1234;
    h.sigma_t_ns = 777;
    let bytes = encode_header(&h).expect("header encodes");
    let (decoded, used) = decode_header(bytes.as_slice(), 0).expect("header decodes");
    assert_eq!(used, bytes.len());
    assert_eq!(decoded, h);
}

#[test]
fn header_decode_rejects_truncation() {
    let h = sample_header(5);
    let bytes = encode_header(&h).expect("header encodes");
    let short = &bytes[..bytes.len() - 1];
    assert!(decode_header(short, 0).is_none());
}

#[test]
fn imu_message_codec_round_trips() {
    let m = SensorMessage::Imu(ImuMessage {
        h: sample_header(1),
        ax: 1_000_000,
        ay: -2_000_000,
        az: 9_810_000,
        gx: 100_000,
        gy: -200_000,
        gz: 300_000,
    });
    let bytes = encode_message(&m).expect("message encodes");
    let (decoded, used) = decode_message(bytes.as_slice(), 0).expect("message decodes");
    assert_eq!(used, bytes.len());
    assert_eq!(decoded, m);
}

#[test]
fn magnetometer_and_barometer_codec_round_trip() {
    let mag = SensorMessage::Magnetometer(MagnetometerMessage {
        h: sample_header(2),
        mx: 14_000,
        my: -14_000,
        mz: 0,
    });
    let baro = SensorMessage::Barometer(BarometerMessage {
        h: sample_header(3),
        pressure: 101_325_000_000,
        temperature: 20_000_000,
        altitude: 0,
    });
    for m in [mag, baro] {
        let bytes = encode_message(&m).expect("message encodes");
        let (decoded, used) = decode_message(bytes.as_slice(), 0).expect("message decodes");
        assert_eq!(used, bytes.len());
        assert_eq!(decoded, m);
    }
}

#[test]
fn message_accessors_report_kind_and_id() {
    let m = SensorMessage::Barometer(BarometerMessage {
        h: sample_header(4),
        pressure: 1,
        temperature: 2,
        altitude: 3,
    });
    assert_eq!(m.sensor_id(), "imu0");
    assert_eq!(m.kind(), SensorKind::Barometer);
    assert_eq!(m.header().seq, 4);
}

#[test]
fn header_decode_rejects_a_malformed_flag_byte() {
    let h = sample_header(5);
    let mut bytes = encode_header(&h).expect("header encodes");
    // the three id strings occupy 40 bytes, the three 64-bit numbers 24;
    // the lock flag follows and may only be 0 or 1
    assert_eq!(bytes[64], 0);
    bytes[64] = 2;
    assert!(decode_header(bytes.as_slice(), 0).is_none());
}

#[test]
fn message_decode_rejects_an_unknown_tag() {
    let m = SensorMessage::Imu(ImuMessage {
        h: sample_header(1),
        ax: 0,
        ay: 0,
        az: 0,
        gx: 0,
        gy: 0,
        gz: 0,
    });
    let mut bytes = encode_message(&m).expect("message encodes");
    bytes[0] = 9;
    assert!(decode_message(bytes.as_slice(), 0).is_none());
}
