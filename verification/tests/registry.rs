use navigate_sensorhub::config::{BusEntry, BusType, SensorEntry};
use navigate_sensorhub::errors::ConfigError;
use navigate_sensorhub::registry::{
    filter_candidate_ports, is_candidate_port, is_local_driver, next_backoff, plan_bus, BusPlan,
    INITIAL_BACKOFF_MS,
};

fn entry(bus_type: &str, path: &str) -> BusEntry {
    BusEntry {
        id: "bus0".to_string(),
        bus_type: bus_type.to_string(),
        path: path.to_string(),
    }
}

#[test]
fn bus_type_words_parse_case_insensitively() {
    assert_eq!(BusType::from_str("i2c"), Some(BusType::I2C));
    assert_eq!(BusType::from_str("I2C"), Some(BusType::I2C));
    assert_eq!(BusType::from_str("serial"), Some(BusType::Serial));
    assert_eq!(BusType::from_str("Serial"), Some(BusType::Serial));
    assert_eq!(BusType::from_str("spi"), None);
    assert_eq!(BusType::from_str(""), None);
}

#[test]
fn bus_entries_plan_their_actions() {
    match plan_bus(&entry("i2c", "/dev/i2c-1")) {
        Ok(BusPlan::RegisterBus { id, path }) => {
            assert_eq!(id, "bus0");
            assert_eq!(path, "/dev/i2c-1");
        }
        other => panic!("expected a register-bus plan, got {:?}", other),
    }
    match plan_bus(&entry("serial", "/dev/ttyACM0")) {
        Ok(BusPlan::SerialFixed { path, .. }) => assert_eq!(path, "/dev/ttyACM0"),
        other => panic!("expected a fixed serial plan, got {:?}", other),
    }
    match plan_bus(&entry("serial", " auto ")) {
        Ok(BusPlan::SerialAuto { id }) => assert_eq!(id, "bus0"),
        other => panic!("expected an auto-detect plan, got {:?}", other),
    }
    assert!(matches!(
        plan_bus(&entry("can", "/dev/can0")),
        Err(navigate_sensorhub::errors::RegistryError::BusInitError(
            ConfigError::ValidationError(_)
        ))
    ));
}

#[test]
fn telemetry_drivers_are_not_local() {
    assert!(is_local_driver("lsm6dsl"));
    assert!(is_local_driver("bmp388"));
    assert!(!is_local_driver("mavlink_imu"));
    assert!(!is_local_driver("mavlink_baro"));
}

#[test]
fn backoff_doubles_to_the_cap() {
    let mut delay = INITIAL_BACKOFF_MS;
    let mut seen = vec![delay];
    for _ in 0..6 {
        delay = next_backoff(delay);
        seen.push(delay);
    }
    assert_eq!(seen, vec![100, 200, 400, 800, 1600, 2000, 2000]);
}

#[test]
fn port_filter_drops_pairing_and_console_devices() {
    assert!(is_candidate_port("/dev/ttyACM0"));
    assert!(!is_candidate_port("/dev/tty.Bluetooth-Incoming-Port"));
    assert!(!is_candidate_port("/dev/cu.debug-console"));
    let ports = vec![
        "/dev/ttyACM0".to_string(),
        "/dev/tty.Bluetooth-Incoming-Port".to_string(),
        "/dev/ttyUSB0".to_string(),
        "/dev/cu.debug-console".to_string(),
    ];
    let kept = filter_candidate_ports(&ports);
    assert_eq!(kept, vec!["/dev/ttyACM0".to_string(), "/dev/ttyUSB0".to_string()]);
}

#[test]
fn sensor_entries_default_to_one_hundred_hertz() {
    let mut e = SensorEntry {
        id: "imu0".to_string(),
        driver: "lsm6dsl".to_string(),
        bus: "i2c0".to_string(),
        address: 0x6A,
        frequency: None,
    };
    assert_eq!(e.effective_frequency(), 100);
    assert!(e.validate().is_ok());
    e.frequency = Some(50);
    assert_eq!(e.effective_frequency(), 50);
    e.frequency = Some(0);
    match e.validate() {
        Err(ConfigError::InvalidValue { field, .. }) => assert_eq!(field, "frequency"),
        _ => panic!("a zero rate must be rejected"),
    }
}
