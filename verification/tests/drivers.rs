use navigate_sensorhub::drivers::{
    create_sensor_driver, parse_calibration, Bmp388, Icm42688p, Icm426xxAdapter, Lis3mdl,
    Lsm6dsl, SensorInstance,
};
use navigate_sensorhub::bus_i2c::I2CBus;
use navigate_sensorhub::errors::SensorError;
use navigate_sensorhub::mavlink::MavlinkSensorType;

#[test]
fn factory_resolves_every_register_bus_driver() {
    for (name, check) in [
        ("lsm6dsl", 0usize),
        ("lis3mdl", 1),
        ("bmp388", 2),
        ("icm42688p", 3),
    ] {
        let s = create_sensor_driver(name, "s0".to_string(), 0x6A, "i2c0".to_string())
            .expect("known driver");
        let kind = match s {
            SensorInstance::Lsm6dsl(_) => 0,
            SensorInstance::Lis3mdl(_) => 1,
            SensorInstance::Bmp388(_) => 2,
            SensorInstance::Icm42688p(_) => 3,
            SensorInstance::Mavlink(_) => 4,
        };
        assert_eq!(kind, check);
    }
}

#[test]
fn factory_resolves_telemetry_drivers() {
    let imu = create_sensor_driver("mavlink_imu", "fc_imu0".to_string(), 0, "serial0".to_string())
        .expect("telemetry inertial driver");
    match imu {
        SensorInstance::Mavlink(s) => {
            assert_eq!(s.sensor_type, MavlinkSensorType::Imu { instance: 0 });
            assert_eq!(s.id(), "fc_imu0");
            assert_eq!(s.bus(), "serial0");
            assert!(s.consumes(26));
            assert!(!s.consumes(116));
        }
        _ => panic!("expected a telemetry sensor"),
    }
    let baro =
        create_sensor_driver("mavlink_baro", "fc_baro0".to_string(), 0, "serial0".to_string())
            .expect("telemetry barometer driver");
    match baro {
        SensorInstance::Mavlink(s) => {
            assert_eq!(s.sensor_type, MavlinkSensorType::Barometer);
            assert!(s.consumes(29));
        }
        _ => panic!("expected a telemetry sensor"),
    }
}

#[test]
fn factory_rejects_the_unimplemented_and_the_unknown() {
    let mag = create_sensor_driver("mavlink_mag", "m".to_string(), 0, "serial0".to_string());
    assert!(matches!(mag, Err(SensorError::UnsupportedDriver { .. })));
    let other = create_sensor_driver("bmp280", "b".to_string(), 0, "i2c0".to_string());
    match other {
        Err(SensorError::UnsupportedDriver { driver }) => assert_eq!(driver, "bmp280"),
        _ => panic!("unknown driver must be unsupported"),
    }
}

#[test]
fn wrong_chip_id_reports_expected_and_actual() {
    let s = Lsm6dsl::new("imu0".to_string(), 0x6A, "i2c0".to_string());
    assert!(s.identify(0x6A).is_ok());
    match s.identify(0x55) {
        Err(SensorError::WrongChipId {
            sensor,
            expected,
            actual,
        }) => {
            assert_eq!(sensor, "imu0");
            assert_eq!(expected, 0x6A);
            assert_eq!(actual, 0x55);
        }
        _ => panic!("a wrong identity must be rejected"),
    }
}

#[test]
fn icm_accepts_both_family_identities() {
    let s = Icm42688p::new("imu1".to_string(), 0x68, "i2c0".to_string());
    assert!(s.identify(0x47).is_ok());
    assert!(s.identify(0x44).is_ok());
    assert!(s.identify(0x47 + 1).is_err());
}

#[test]
fn lsm6dsl_scales_counts_to_micro_units() {
    let s = Lsm6dsl::new("imu0".to_string(), 0x6A, "i2c0".to_string());
    let accel = 1000i16.to_le_bytes();
    let accel_bytes = [accel[0], accel[1], 0, 0, 0, 0];
    let gyro = (-1000i16).to_le_bytes();
    let gyro_bytes = [gyro[0], gyro[1], 0, 0, 0, 0];
    let temp = 256i16.to_le_bytes();
    let f = s.frame_from_readings(&accel_bytes, &gyro_bytes, &temp);
    // 1000 counts × 0.061 milli-g × 9.81 = 598 410 micro-m/s²
    assert_eq!(f.accel.unwrap().x, 598_410);
    assert_eq!(f.accel.unwrap().y, 0);
    // 1000 counts × 8.75 milli-deg/s ≈ 152 716 micro-rad/s, negated
    assert_eq!(f.gyro.unwrap().x, -152_716);
    // 256 counts = 1 °C above the 25 °C offset
    assert_eq!(f.temp.unwrap(), 26_000_000);
}

#[test]
fn icm42688p_uses_big_endian_counts() {
    let s = Icm42688p::new("imu1".to_string(), 0x68, "i2c0".to_string());
    let one_g = 16384i16.to_be_bytes();
    let accel_bytes = [one_g[0], one_g[1], 0, 0, 0, 0];
    let one_dps = 131i16.to_be_bytes();
    let gyro_bytes = [one_dps[0], one_dps[1], 0, 0, 0, 0];
    let temp_bytes = 0i16.to_be_bytes();
    let f = s.frame_from_readings(&accel_bytes, &gyro_bytes, &temp_bytes);
    // 16384 counts are exactly one g
    assert_eq!(f.accel.unwrap().x, 9_810_000);
    // 131 counts are one deg/s ≈ 17 453 micro-rad/s
    assert_eq!(f.gyro.unwrap().x, 17_453);
    assert_eq!(f.temp.unwrap(), 25_000_000);
}

#[test]
fn lis3mdl_scales_counts_to_micro_micro_tesla() {
    let s = Lis3mdl::new("mag0".to_string(), 0x1C, "i2c0".to_string());
    assert!(s.identify(0x3D).is_ok());
    // 6842 counts are exactly one gauss, that is 100 µT
    let one_gauss = 6842i16.to_le_bytes();
    let mag_bytes = [one_gauss[0], one_gauss[1], 0, 0, 0, 0];
    let f = s.frame_from_readings(&mag_bytes);
    assert_eq!(f.mag.unwrap().x, 100_000_000);
    assert_eq!(f.mag.unwrap().y, 0);
    assert!(f.accel.is_none());
    // 100 counts, truncated toward zero
    let raw = 100i16.to_le_bytes();
    let mag_bytes = [raw[0], raw[1], 0, 0, 0, 0];
    let g = s.frame_from_readings(&mag_bytes);
    assert_eq!(g.mag.unwrap().x, 1_461_560);
}

#[test]
fn bmp388_pressure_kind_follows_the_id_prefix() {
    let baro = Bmp388::new("baro0".to_string(), 0x76, "i2c0".to_string());
    assert!(!baro.pitot);
    let pitot = Bmp388::new("PitotLeft".to_string(), 0x77, "i2c0".to_string());
    assert!(pitot.pitot);

    let f = baro.frame_from_compensated(101_325_000_000, 25_000_000);
    assert_eq!(f.pressure_static, Some(101_325_000_000));
    assert_eq!(f.pressure_pitot, None);
    let g = pitot.frame_from_compensated(500_000_000, 25_000_000);
    assert_eq!(g.pressure_static, None);
    assert_eq!(g.pressure_pitot, Some(500_000_000));
}

#[test]
fn bmp388_calibration_block_parses_exactly() {
    let mut block = [0u8; 21];
    block[0] = 0x34; // t1 low
    block[1] = 0x12; // t1 high
    block[2] = 0x78;
    block[3] = 0x56;
    block[4] = 0xFF; // t3 = -1
    block[5] = 0x01;
    block[6] = 0x80; // p1 = -32767
    block[9] = 0x7F; // p3 = 127
    block[11] = 0xAA;
    block[12] = 0x00; // p5 = 0x00AA
    block[20] = 0x80; // p11 = -128
    let c = parse_calibration(&block);
    assert_eq!(c.t1, 0x1234);
    assert_eq!(c.t2, 0x5678);
    assert_eq!(c.t3, -1);
    assert_eq!(c.p1, -32767);
    assert_eq!(c.p3, 127);
    assert_eq!(c.p5, 0x00AA);
    assert_eq!(c.p11, -128);
}

#[test]
fn bmp388_raw_counts_assemble_little_endian() {
    let block = [0x01, 0x02, 0x03, 0x0A, 0x0B, 0x0C];
    let (press, temp) = Bmp388::raw_from_block(&block);
    assert_eq!(press, 0x030201);
    assert_eq!(temp, 0x0C0B0A);
}

#[test]
fn adapter_keeps_its_identity() {
    let a = Icm426xxAdapter::new("imu2".to_string(), 0x68, "i2c1".to_string());
    assert_eq!(a.id, "imu2");
    assert_eq!(a.address, 0x68);
    assert_eq!(a.bus_id, "i2c1");
}

#[test]
fn opening_a_missing_bus_device_fails_with_a_reason() {
    match I2CBus::new("/dev/i2c-does-not-exist") {
        Err(e) => assert!(!e.detail.is_empty()),
        Ok(_) => panic!("a missing device node must not open"),
    }
}
